//! One message per slot: a record that its author creates once and may rewrite later.
//!
//! The two operations decide on plain values: who signed, what the slot holds, what
//! the allocator charges, what the clock says. Every outcome is stated in a contract.

pub mod clock;
pub mod create;
pub mod error;
pub mod identity;
pub mod laws;
pub mod record;
pub mod update;

pub use create::{check_create, create_message, create_message_at, Allocator, CreateMessage};
pub use error::MessageError;
pub use identity::Signer;
pub use record::{content_fits, Message, ACCOUNT_SPACE, MAX_CONTENT_LEN};
pub use update::{check_update, update_message, update_message_at, UpdateMessage};
