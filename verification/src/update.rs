//! Rewriting the record of a slot.

use crate::clock::unix_timestamp;
use crate::error::{refused, MessageError};
use crate::identity::Signer;
use crate::record::{content_fits, fits, slot_view, Message, MessageView};
use vstd::prelude::*;

verus! {

/// What a call that rewrites a record names.
#[derive(Debug, PartialEq, Eq)]
pub struct UpdateMessage {
    /// The slot of the record: `None` if no record was ever created in it.
    pub message: Option<Message>,
    /// The identity that rewrites the record.
    pub author: Signer,
}

/// What an [`UpdateMessage`] stands for.
pub struct UpdateMessageView {
    pub message: Option<MessageView>,
    pub author: Signer,
}

impl View for UpdateMessage {
    type V = UpdateMessageView;

    open spec fn view(&self) -> UpdateMessageView {
        UpdateMessageView { message: slot_view(self.message), author: self.author }
    }
}

impl UpdateMessageView {
    /// A record in the slot fits into it.
    pub open spec fn wf(self) -> bool {
        self.message matches Some(message) ==> message.wf()
    }
}

/// Why rewriting the record with `content` is turned down, if it is. The author has
/// to have signed; then the slot has to hold a record; then the content has to fit.
/// That the author is the one who wrote the record before is not asked.
pub open spec fn update_error(pre: UpdateMessageView, content: Seq<char>) -> Option<MessageError> {
    if !pre.author.is_signer {
        Some(MessageError::AuthenticationError)
    } else if pre.message is None {
        Some(MessageError::NotFoundError)
    } else if !fits(content) {
        Some(MessageError::CapacityError)
    } else {
        None
    }
}

/// What is there once the record was rewritten with `content` at time `now`: the
/// slot holds the new record, and the author's balance is as it was.
pub open spec fn updated(pre: UpdateMessageView, content: Seq<char>, now: int) -> UpdateMessageView {
    UpdateMessageView {
        message: Some(MessageView { author: pre.author.key, timestamp: now, content }),
        author: pre.author,
    }
}

/// What rewriting the record at time `now` leaves behind, whether it succeeds or not.
pub open spec fn after_update(pre: UpdateMessageView, content: Seq<char>, now: int) -> UpdateMessageView {
    if update_error(pre, content) is None {
        updated(pre, content, now)
    } else {
        pre
    }
}

/// What rewriting the record answers.
pub open spec fn update_result(pre: UpdateMessageView, content: Seq<char>) -> Result<(), MessageError> {
    match update_error(pre, content) {
        Some(error) => refused(error),
        None => Ok(()),
    }
}

/// Decides whether the record may be rewritten with `content`.
pub fn check_update(ctx: &UpdateMessage, content: &String) -> (refusal: Option<MessageError>)
    ensures
        refusal == update_error(ctx@, content@),
{
    if !ctx.author.is_signer {
        Some(MessageError::AuthenticationError)
    } else if ctx.message.is_none() {
        Some(MessageError::NotFoundError)
    } else if !content_fits(content) {
        Some(MessageError::CapacityError)
    } else {
        None
    }
}

/// Rewrites the record at a given time.
///
/// On success the slot holds a record with the author's key, `now` and `content`.
/// On failure nothing changes.
pub fn update_message_at(ctx: &mut UpdateMessage, content: String, now: i64) -> (result: Result<
    (),
    MessageError,
>)
    ensures
        result == update_result(old(ctx)@, content@),
        final(ctx)@ == after_update(old(ctx)@, content@, now as int),
        result is Ok ==> (final(ctx).message matches Some(record)
            && record.author == old(ctx).author.key
            && record.timestamp == now
            && record.content@ == content@),
        !old(ctx).author.is_signer ==> result == refused(MessageError::AuthenticationError),
        result is Err ==> *final(ctx) == *old(ctx),
        final(ctx).author == old(ctx).author,
        old(ctx)@.wf() ==> final(ctx)@.wf(),
{
    match check_update(ctx, &content) {
        Some(error) => Err(error),
        None => {
            ctx.message = Some(Message { author: ctx.author.key, timestamp: now, content });
            Ok(())
        },
    }
}

/// Rewrites the record and stamps it with the time that the host's clock gives.
///
/// A call that [`update_error`] turns down fails with that error, whatever the
/// clock says. Any other call succeeds as [`update_message_at`] does at the time
/// that the clock gave, or fails with [`MessageError::ClockUnavailable`] where the
/// clock gave none. On failure nothing changes.
pub fn update_message(ctx: &mut UpdateMessage, content: String) -> (result: Result<(), MessageError>)
    ensures
        update_error(old(ctx)@, content@) matches Some(error) ==> result == refused(error),
        update_error(old(ctx)@, content@) is None
            ==> result is Ok || result == refused(MessageError::ClockUnavailable),
        result is Ok ==> exists|now: int|
            i64::MIN <= now <= i64::MAX && final(ctx)@ == updated(old(ctx)@, content@, now),
        result is Ok ==> (final(ctx).message matches Some(record)
            && record.author == old(ctx).author.key
            && record.content@ == content@),
        !old(ctx).author.is_signer ==> result == refused(MessageError::AuthenticationError),
        result is Err ==> *final(ctx) == *old(ctx),
        final(ctx).author == old(ctx).author,
        old(ctx)@.wf() ==> final(ctx)@.wf(),
{
    match check_update(ctx, &content) {
        Some(error) => Err(error),
        None => match unix_timestamp() {
            Ok(now) => update_message_at(ctx, content, now),
            Err(_) => Err(MessageError::ClockUnavailable),
        },
    }
}

} // verus!
