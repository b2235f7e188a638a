//! The record that a slot holds, and how much of a slot it takes up.

use anchor_lang::prelude::Pubkey;
use vstd::prelude::*;
use vstd::utf8::encode_utf8;

verus! {

/// Bytes that a slot has. It is fixed when the slot is reserved and never changes.
pub const ACCOUNT_SPACE: usize = 1000;

/// Bytes of the tag that precedes every stored record.
pub const DISCRIMINATOR_LEN: usize = 8;

/// Bytes of a stored author key.
pub const AUTHOR_LEN: usize = 32;

/// Bytes of a stored timestamp.
pub const TIMESTAMP_LEN: usize = 8;

/// Bytes of the length that precedes the stored content.
pub const LENGTH_PREFIX_LEN: usize = 4;

/// The longest content, in bytes of UTF-8, that a slot has room for.
pub const MAX_CONTENT_LEN: usize = 948;

/// A message as a slot holds it.
#[derive(Debug, PartialEq, Eq)]
pub struct Message {
    /// The identity that wrote the record last.
    pub author: Pubkey,
    /// When the record was written last, in seconds since the Unix epoch.
    pub timestamp: i64,
    /// The text of the message.
    pub content: String,
}

/// What a [`Message`] stands for.
pub struct MessageView {
    pub author: Pubkey,
    pub timestamp: int,
    pub content: Seq<char>,
}

impl View for Message {
    type V = MessageView;

    open spec fn view(&self) -> MessageView {
        MessageView { author: self.author, timestamp: self.timestamp as int, content: self.content@ }
    }
}

/// What a slot stands for: nothing, or the record in it.
pub open spec fn slot_view(slot: Option<Message>) -> Option<MessageView> {
    match slot {
        Some(message) => Some(message@),
        None => None,
    }
}

/// Bytes that `content` takes up when stored: its length in UTF-8.
pub open spec fn content_size(content: Seq<char>) -> nat {
    encode_utf8(content).len()
}

/// Bytes that a record with this content takes up in its slot.
pub open spec fn record_size(content: Seq<char>) -> nat {
    DISCRIMINATOR_LEN as nat + AUTHOR_LEN as nat + TIMESTAMP_LEN as nat + LENGTH_PREFIX_LEN as nat
        + content_size(content)
}

/// Whether a record with this content fits into a slot.
pub open spec fn fits(content: Seq<char>) -> bool {
    record_size(content) <= ACCOUNT_SPACE
}

impl MessageView {
    /// A stored record never takes up more than its slot has.
    pub open spec fn wf(self) -> bool {
        fits(self.content)
    }
}

/// The content limit is what a slot has left once the fixed parts of a record are
/// accounted for.
pub proof fn law_content_limit(content: Seq<char>)
    ensures
        fits(content) <==> content_size(content) <= MAX_CONTENT_LEN,
        MAX_CONTENT_LEN == ACCOUNT_SPACE - DISCRIMINATOR_LEN - AUTHOR_LEN - TIMESTAMP_LEN
            - LENGTH_PREFIX_LEN,
{
}

/// Whether `content` fits into a slot.
pub fn content_fits(content: &String) -> (ok: bool)
    ensures
        ok == fits(content@),
{
    content.as_str().as_bytes().len() <= MAX_CONTENT_LEN
}

impl Clone for Message {
    fn clone(&self) -> (copy: Message)
        ensures
            copy@ == self@,
    {
        Message { author: self.author, timestamp: self.timestamp, content: self.content.clone() }
    }
}

} // verus!
