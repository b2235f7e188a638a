//! Identities: the keys that name accounts, and what a call knows of a signer.

use anchor_lang::prelude::Pubkey;
use vstd::prelude::*;

verus! {

/// `anchor_lang::prelude::Pubkey`, the 32-byte address of an account. Nothing is
/// assumed of what is inside a key: the operations only carry keys through, and
/// the contracts only say which key ends up where.
#[verifier::external_type_specification]
#[verifier::external_body]
pub struct ExPubkey(Pubkey);

/// An identity named by a call, as the host presents it.
#[derive(Clone, Copy, Debug, PartialEq, Eq)]
pub struct Signer {
    /// The identity's address.
    pub key: Pubkey,
    /// Whether this identity signed the call, and so authorized it.
    pub is_signer: bool,
    /// The identity's balance, in lamports.
    pub lamports: u64,
}

} // verus!
