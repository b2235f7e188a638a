//! Creating the record of a slot.

use crate::clock::unix_timestamp;
use crate::error::{refused, MessageError};
use crate::identity::Signer;
use crate::record::{content_fits, fits, slot_view, Message, MessageView};
use vstd::prelude::*;

verus! {

/// The host's allocator, as far as a call depends on it.
#[derive(Clone, Copy, Debug, PartialEq, Eq)]
pub struct Allocator {
    /// What reserving one slot costs, in lamports.
    pub rent: u64,
}

/// What a call that creates a record names.
#[derive(Debug, PartialEq, Eq)]
pub struct CreateMessage {
    /// The slot for the record: `None` as long as no record was created in it.
    pub message: Option<Message>,
    /// The identity that writes the record. It also pays for the slot.
    pub author: Signer,
    /// The allocator that reserves the slot.
    pub system_program: Allocator,
}

/// What a [`CreateMessage`] stands for.
pub struct CreateMessageView {
    pub message: Option<MessageView>,
    pub author: Signer,
    pub system_program: Allocator,
}

impl View for CreateMessage {
    type V = CreateMessageView;

    open spec fn view(&self) -> CreateMessageView {
        CreateMessageView {
            message: slot_view(self.message),
            author: self.author,
            system_program: self.system_program,
        }
    }
}

impl CreateMessageView {
    /// A record in the slot fits into it.
    pub open spec fn wf(self) -> bool {
        self.message matches Some(message) ==> message.wf()
    }
}

/// Why creating a record with `content` is turned down, if it is. The author has to
/// have signed; then the slot has to be free and the author able to pay for it;
/// then the content has to fit.
pub open spec fn create_error(pre: CreateMessageView, content: Seq<char>) -> Option<MessageError> {
    if !pre.author.is_signer {
        Some(MessageError::AuthenticationError)
    } else if pre.message is Some || pre.author.lamports < pre.system_program.rent {
        Some(MessageError::AllocationError)
    } else if !fits(content) {
        Some(MessageError::CapacityError)
    } else {
        None
    }
}

/// What is there once a record with `content` was created at time `now`: the slot
/// holds the record, and the author has paid for the slot.
pub open spec fn created(pre: CreateMessageView, content: Seq<char>, now: int) -> CreateMessageView {
    CreateMessageView {
        message: Some(MessageView { author: pre.author.key, timestamp: now, content }),
        author: Signer {
            key: pre.author.key,
            is_signer: pre.author.is_signer,
            lamports: (pre.author.lamports - pre.system_program.rent) as u64,
        },
        system_program: pre.system_program,
    }
}

/// What creating a record at time `now` leaves behind, whether it succeeds or not.
pub open spec fn after_create(pre: CreateMessageView, content: Seq<char>, now: int) -> CreateMessageView {
    if create_error(pre, content) is None {
        created(pre, content, now)
    } else {
        pre
    }
}

/// What creating a record answers.
pub open spec fn create_result(pre: CreateMessageView, content: Seq<char>) -> Result<(), MessageError> {
    match create_error(pre, content) {
        Some(error) => refused(error),
        None => Ok(()),
    }
}

/// Decides whether a record with `content` may be created.
pub fn check_create(ctx: &CreateMessage, content: &String) -> (refusal: Option<MessageError>)
    ensures
        refusal == create_error(ctx@, content@),
{
    if !ctx.author.is_signer {
        Some(MessageError::AuthenticationError)
    } else if ctx.message.is_some() || ctx.author.lamports < ctx.system_program.rent {
        Some(MessageError::AllocationError)
    } else if !content_fits(content) {
        Some(MessageError::CapacityError)
    } else {
        None
    }
}

/// Creates the record at a given time.
///
/// On success the slot holds a record with the author's key, `now` and `content`,
/// and the author has paid the allocator's charge. On failure nothing changes.
pub fn create_message_at(ctx: &mut CreateMessage, content: String, now: i64) -> (result: Result<
    (),
    MessageError,
>)
    ensures
        result == create_result(old(ctx)@, content@),
        final(ctx)@ == after_create(old(ctx)@, content@, now as int),
        result is Ok ==> (final(ctx).message matches Some(record)
            && record.author == old(ctx).author.key
            && record.timestamp == now
            && record.content@ == content@),
        result is Ok ==> final(ctx).author.lamports
            == old(ctx).author.lamports - old(ctx).system_program.rent,
        old(ctx).author.is_signer && old(ctx).message is None
            && old(ctx).author.lamports >= old(ctx).system_program.rent
            && !fits(content@)
            ==> result == refused(MessageError::CapacityError) && final(ctx).message is None,
        result is Err ==> *final(ctx) == *old(ctx),
        old(ctx)@.wf() ==> final(ctx)@.wf(),
{
    match check_create(ctx, &content) {
        Some(error) => Err(error),
        None => {
            ctx.author.lamports = ctx.author.lamports - ctx.system_program.rent;
            ctx.message = Some(Message { author: ctx.author.key, timestamp: now, content });
            Ok(())
        },
    }
}

/// Creates the record and stamps it with the time that the host's clock gives.
///
/// A call that [`create_error`] turns down fails with that error, whatever the
/// clock says. Any other call succeeds as [`create_message_at`] does at the time
/// that the clock gave, or fails with [`MessageError::ClockUnavailable`] where the
/// clock gave none. On failure nothing changes.
pub fn create_message(ctx: &mut CreateMessage, content: String) -> (result: Result<(), MessageError>)
    ensures
        create_error(old(ctx)@, content@) matches Some(error) ==> result == refused(error),
        create_error(old(ctx)@, content@) is None
            ==> result is Ok || result == refused(MessageError::ClockUnavailable),
        result is Ok ==> exists|now: int|
            i64::MIN <= now <= i64::MAX && final(ctx)@ == created(old(ctx)@, content@, now),
        result is Ok ==> (final(ctx).message matches Some(record)
            && record.author == old(ctx).author.key
            && record.content@ == content@),
        old(ctx).author.is_signer && old(ctx).message is None
            && old(ctx).author.lamports >= old(ctx).system_program.rent
            && !fits(content@)
            ==> result == refused(MessageError::CapacityError) && final(ctx).message is None,
        result is Err ==> *final(ctx) == *old(ctx),
        old(ctx)@.wf() ==> final(ctx)@.wf(),
{
    match check_create(ctx, &content) {
        Some(error) => Err(error),
        None => match unix_timestamp() {
            Ok(now) => create_message_at(ctx, content, now),
            Err(_) => Err(MessageError::ClockUnavailable),
        },
    }
}

} // verus!
