//! What holds of calls that follow one another.

use crate::create::{after_create, create_error, create_result, Allocator, CreateMessageView};
use crate::error::{refused, MessageError};
use crate::identity::Signer;
use crate::record::MessageView;
use crate::update::{after_update, update_error, update_result, UpdateMessageView};
use vstd::prelude::*;

verus! {

/// A slot is filled once. After a call has created the record, a second call to
/// create one in the same slot fails, whoever makes it, with whatever content and
/// at whatever time, and the slot keeps the record of the first call. Where the
/// second author signed, the failure is `AllocationError`.
pub proof fn law_create_fills_a_slot_once(
    pre: CreateMessageView,
    first_content: Seq<char>,
    first_time: int,
    second_author: Signer,
    second_allocator: Allocator,
    second_content: Seq<char>,
    second_time: int,
)
    requires
        create_error(pre, first_content) is None,
    ensures
        ({
            let first = after_create(pre, first_content, first_time);
            let again = CreateMessageView {
                message: first.message,
                author: second_author,
                system_program: second_allocator,
            };
            &&& first.message == Some(
                MessageView { author: pre.author.key, timestamp: first_time, content: first_content },
            )
            &&& create_result(again, second_content) is Err
            &&& second_author.is_signer ==> create_result(again, second_content) == refused(
                MessageError::AllocationError,
            )
            &&& after_create(again, second_content, second_time) == again
            &&& after_create(again, second_content, second_time).message == first.message
        }),
{
}

/// Rewriting a record that was just created puts the new content and the new time in
/// its place, and where the clock did not go back between the two calls, the
/// record's time did not go back either.
pub proof fn law_update_follows_create(
    pre: CreateMessageView,
    first_content: Seq<char>,
    first_time: int,
    second_author: Signer,
    second_content: Seq<char>,
    second_time: int,
)
    requires
        create_error(pre, first_content) is None,
        first_time <= second_time,
    ensures
        ({
            let first = after_create(pre, first_content, first_time);
            let rewrite = UpdateMessageView { message: first.message, author: second_author };
            update_error(rewrite, second_content) is None ==> {
                &&& update_result(rewrite, second_content) is Ok
                &&& after_update(rewrite, second_content, second_time).message == Some(
                    MessageView {
                        author: second_author.key,
                        timestamp: second_time,
                        content: second_content,
                    },
                )
                &&& after_update(rewrite, second_content, second_time).message->0.timestamp
                    >= first.message->0.timestamp
            }
        }),
{
}

/// Whatever happens to a slot, a record in it fits: creating and rewriting keep
/// every record within the space of its slot.
pub proof fn law_records_fit(
    pre: CreateMessageView,
    first_content: Seq<char>,
    first_time: int,
    second_author: Signer,
    second_content: Seq<char>,
    second_time: int,
)
    requires
        pre.wf(),
    ensures
        ({
            let first = after_create(pre, first_content, first_time);
            let rewrite = UpdateMessageView { message: first.message, author: second_author };
            &&& first.wf()
            &&& after_update(rewrite, second_content, second_time).wf()
        }),
{
}

} // verus!
