//! The rules of the inbox: who may send what to whom, and how a message is
//! taken out to be read.

use crate::message::models::Message;
use crate::user::models::User;
use crate::user::utils::StoreError;
use crate::utils::error::{
    error_response, ApiError, BAD_REQUEST, INTERNAL_SERVER_ERROR, NOT_FOUND,
};
use crate::utils::text::{joined, same_text};
use vstd::prelude::*;

verus! {

/// Why the user `user_id` may not send `message`, as status and message.
pub open spec fn sending_refusal(user_id: Seq<char>, message: Message) -> Option<
    (u16, Seq<char>),
> {
    if user_id != message.sender@ {
        Some((BAD_REQUEST, "The message sender and the JWT id must be the same"@))
    } else if message.sender@ == message.receiver@ {
        Some((BAD_REQUEST, "Sender and receiver cannot be the same"@))
    } else {
        None
    }
}

/// Checks a message before anything is read from the store: the user who is
/// logged in must be its sender, and nobody writes to themselves.
pub fn send_message(user_id: &str, message: &Message) -> (checked: Result<(), ApiError>)
    ensures
        match sending_refusal(user_id@, *message) {
            Some(refusal) => checked matches Err(error) && error.says(refusal.0, refusal.1),
            None => checked is Ok,
        },
{
    if !same_text(user_id, message.sender.as_str()) {
        return Err(
            error_response(
                BAD_REQUEST,
                Some("The message sender and the JWT id must be the same"),
            ),
        );
    }
    if same_text(message.sender.as_str(), message.receiver.as_str()) {
        return Err(error_response(BAD_REQUEST, Some("Sender and receiver cannot be the same")));
    }
    Ok(())
}

/// Reads the store's answer to the lookup of a message's receiver: whatever
/// went wrong, the sender is told that the receiver does not exist.
pub fn receiver_found(reply: &Result<Option<User>, StoreError>) -> (checked: Result<
    (),
    ApiError,
>)
    ensures
        reply matches Ok(Some(_)) ==> checked is Ok,
        !(reply matches Ok(Some(_))) ==> (checked matches Err(error) && error.says(
            NOT_FOUND,
            "Receiver user does not exist"@,
        )),
{
    match reply {
        Ok(Some(_)) => Ok(()),
        _ => Err(error_response(NOT_FOUND, Some("Receiver user does not exist"))),
    }
}

/// The answer where a message could not be put into the form the store takes.
pub fn conversion_failed(detail: &str) -> (error: ApiError)
    ensures
        error.says(
            INTERNAL_SERVER_ERROR,
            "Failed to convert message to document: "@ + detail@,
        ),
{
    let text = joined("Failed to convert message to document: ", detail);
    error_response(INTERNAL_SERVER_ERROR, Some(text.as_str()))
}

/// Reads the store's answer to the write that puts a message into the
/// receiver's inbox.
pub fn message_stored(reply: Result<(), StoreError>) -> (done: Result<(), ApiError>)
    ensures
        match reply {
            Ok(_) => done is Ok,
            Err(failure) => done matches Err(error) && error.says(
                INTERNAL_SERVER_ERROR,
                "Failed to update unread messages: "@ + failure.detail@,
            ),
        },
{
    match reply {
        Ok(_) => Ok(()),
        Err(failure) => {
            let text = joined("Failed to update unread messages: ", failure.detail.as_str());
            Err(error_response(INTERNAL_SERVER_ERROR, Some(text.as_str())))
        },
    }
}

/// The place of the first message called `message_id` in `inbox`, or the
/// length of `inbox` where there is none.
pub open spec fn first_called(inbox: Seq<Message>, message_id: Seq<char>) -> int
    decreases inbox.len(),
{
    if inbox.len() == 0 {
        0
    } else if inbox[0].uuid@ == message_id {
        0
    } else {
        1 + first_called(inbox.drop_first(), message_id)
    }
}

/// `first_called` is a place in the inbox or its length; before it no message
/// has the name, and at it one has.
pub proof fn lemma_first_called(inbox: Seq<Message>, message_id: Seq<char>)
    ensures
        0 <= first_called(inbox, message_id) <= inbox.len(),
        forall|k: int|
            0 <= k < first_called(inbox, message_id) ==> (#[trigger] inbox[k]).uuid@
                != message_id,
        first_called(inbox, message_id) < inbox.len() ==> inbox[first_called(
            inbox,
            message_id,
        )].uuid@ == message_id,
    decreases inbox.len(),
{
    if inbox.len() > 0 && inbox[0].uuid@ != message_id {
        let rest = inbox.drop_first();
        lemma_first_called(rest, message_id);
        assert forall|k: int| 0 <= k < first_called(inbox, message_id) implies (
        #[trigger] inbox[k]).uuid@ != message_id by {
            if k > 0 {
                assert(inbox[k] == rest[k - 1]);
            }
        }
    }
}

/// Takes the message called `message_id` out of what the store answered when
/// it was asked to remove that message from a user's inbox and hand back the
/// record as it stood before: the first message of that name.
pub fn read_message(reply: Result<Option<User>, StoreError>, message_id: &str) -> (read: Result<
    Message,
    ApiError,
>)
    ensures
        match reply {
            Err(failure) => read matches Err(error) && error.says(
                INTERNAL_SERVER_ERROR,
                "Failed to update user: "@ + failure.detail@,
            ),
            Ok(None) => read matches Err(error) && error.says(
                NOT_FOUND,
                "User or message not found"@,
            ),
            Ok(Some(user)) => {
                let place = first_called(user.unread_messages@, message_id@);
                if place < user.unread_messages@.len() {
                    read matches Ok(message) && message == user.unread_messages@[place]
                } else {
                    read matches Err(error) && error.says(
                        NOT_FOUND,
                        "Message not found in unread messages"@,
                    )
                }
            },
        },
{
    let user = match reply {
        Err(failure) => {
            let text = joined("Failed to update user: ", failure.detail.as_str());
            return Err(error_response(INTERNAL_SERVER_ERROR, Some(text.as_str())));
        },
        Ok(None) => {
            return Err(error_response(NOT_FOUND, Some("User or message not found")));
        },
        Ok(Some(user)) => user,
    };
    let mut inbox = user.unread_messages;
    let ghost all = inbox@;
    proof {
        lemma_first_called(all, message_id@);
    }
    let mut i: usize = 0;
    while i < inbox.len()
        invariant
            reply matches Ok(Some(owner)) && owner.unread_messages@ == all,
            inbox@ == all,
            i <= inbox.len(),
            forall|k: int| 0 <= k < i ==> (#[trigger] all[k]).uuid@ != message_id@,
            0 <= first_called(all, message_id@) <= all.len(),
            forall|k: int|
                0 <= k < first_called(all, message_id@) ==> (#[trigger] all[k]).uuid@
                    != message_id@,
            first_called(all, message_id@) < all.len() ==> all[first_called(
                all,
                message_id@,
            )].uuid@ == message_id@,
        decreases inbox.len() - i,
    {
        if same_text(inbox[i].uuid.as_str(), message_id) {
            assert(first_called(all, message_id@) == i);
            return Ok(inbox.remove(i));
        }
        i += 1;
    }
    Err(error_response(NOT_FOUND, Some("Message not found in unread messages")))
}

} // verus!
