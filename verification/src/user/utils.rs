//! What the user store is asked to do and how its answers are read.

use crate::user::models::User;
use crate::utils::error::{
    default_message, error_response, ApiError, INTERNAL_SERVER_ERROR, NOT_FOUND,
};
use crate::utils::text::{texts, without_text};
use vstd::prelude::*;

verus! {

/// The user store failed; `detail` is what it said.
#[derive(Debug)]
pub struct StoreError {
    pub detail: String,
}

/// A new value for one list field of a user record.
#[derive(Debug)]
pub struct ListUpdate {
    pub field: String,
    pub values: Vec<String>,
}

/// A write to the record of the user `uuid`: each field named is set to the
/// list given, every other field stays.
#[derive(Debug)]
pub struct UserUpdate {
    pub uuid: String,
    pub lists: Vec<ListUpdate>,
}

impl ListUpdate {
    /// Whether the update sets `field` to `values`.
    pub open spec fn sets(self, field: Seq<char>, values: Seq<Seq<char>>) -> bool {
        self.field@ == field && texts(self.values@) == values
    }
}

impl UserUpdate {
    /// Whether the write sets exactly one field of the user `uuid`.
    pub open spec fn sets_one(
        self,
        uuid: Seq<char>,
        field: Seq<char>,
        values: Seq<Seq<char>>,
    ) -> bool {
        &&& self.uuid@ == uuid
        &&& self.lists@.len() == 1
        &&& self.lists@[0].sets(field, values)
    }

    /// Whether the write sets exactly two fields of the user `uuid`, in this
    /// order.
    pub open spec fn sets_two(
        self,
        uuid: Seq<char>,
        first_field: Seq<char>,
        first_values: Seq<Seq<char>>,
        second_field: Seq<char>,
        second_values: Seq<Seq<char>>,
    ) -> bool {
        &&& self.uuid@ == uuid
        &&& self.lists@.len() == 2
        &&& self.lists@[0].sets(first_field, first_values)
        &&& self.lists@[1].sets(second_field, second_values)
    }

    /// The write that sets one field.
    pub fn one(uuid: &str, field: &str, values: Vec<String>) -> (update: UserUpdate)
        ensures
            update.sets_one(uuid@, field@, texts(values@)),
    {
        let mut lists: Vec<ListUpdate> = Vec::new();
        lists.push(ListUpdate { field: field.to_owned(), values });
        UserUpdate { uuid: uuid.to_owned(), lists }
    }

    /// The write that sets two fields.
    pub fn two(
        uuid: &str,
        first_field: &str,
        first_values: Vec<String>,
        second_field: &str,
        second_values: Vec<String>,
    ) -> (update: UserUpdate)
        ensures
            update.sets_two(
                uuid@,
                first_field@,
                texts(first_values@),
                second_field@,
                texts(second_values@),
            ),
    {
        let mut lists: Vec<ListUpdate> = Vec::new();
        lists.push(ListUpdate { field: first_field.to_owned(), values: first_values });
        lists.push(ListUpdate { field: second_field.to_owned(), values: second_values });
        UserUpdate { uuid: uuid.to_owned(), lists }
    }
}

/// Reads the store's answer to a lookup by identifier: the record, `404` where
/// there is none, `500` where the store failed.
pub fn find_user(reply: Result<Option<User>, StoreError>) -> (found: Result<User, ApiError>)
    ensures
        match reply {
            Ok(Some(user)) => found matches Ok(given) && given == user,
            Ok(None) => found matches Err(error) && error.says(NOT_FOUND, "User not found"@),
            Err(_) => found matches Err(error) && error.says(
                INTERNAL_SERVER_ERROR,
                "Database error"@,
            ),
        },
{
    match reply {
        Ok(Some(user)) => Ok(user),
        Ok(None) => Err(error_response(NOT_FOUND, Some("User not found"))),
        Err(_) => Err(error_response(INTERNAL_SERVER_ERROR, Some("Database error"))),
    }
}

/// Reads the store's answer to a write of fields: `500` where it failed.
pub fn update_user_fields(reply: Result<(), StoreError>) -> (done: Result<(), ApiError>)
    ensures
        reply is Ok ==> done is Ok,
        reply is Err ==> (done matches Err(error) && error.says(
            INTERNAL_SERVER_ERROR,
            default_message(INTERNAL_SERVER_ERROR),
        )),
{
    match reply {
        Ok(_) => Ok(()),
        Err(_) => Err(error_response(INTERNAL_SERVER_ERROR, None)),
    }
}

/// The list of a user that may still name a deleted user.
#[derive(Clone, Copy, Debug, PartialEq, Eq, Structural)]
pub enum Reference {
    Friends,
    FriendsRequests,
    PendingFriendRequests,
}

impl Reference {
    /// The name of the field in the stored record.
    pub open spec fn field(self) -> Seq<char> {
        match self {
            Reference::Friends => "friends"@,
            Reference::FriendsRequests => "friends_requests"@,
            Reference::PendingFriendRequests => "pending_friend_requests"@,
        }
    }

    /// The list of `user` that the reference stands for.
    pub open spec fn list(self, user: User) -> Seq<String> {
        match self {
            Reference::Friends => user.friends@,
            Reference::FriendsRequests => user.friends_requests@,
            Reference::PendingFriendRequests => user.pending_friend_requests@,
        }
    }

    /// The name of the field in the stored record.
    pub fn field_name(self) -> (name: &'static str)
        ensures
            name@ == self.field(),
    {
        match self {
            Reference::Friends => "friends",
            Reference::FriendsRequests => "friends_requests",
            Reference::PendingFriendRequests => "pending_friend_requests",
        }
    }
}

/// The write that removes every mention of `user_id` from one list of
/// `friend`.
pub fn clean_reference(friend: &User, reference: Reference, user_id: &str) -> (update: UserUpdate)
    ensures
        update.sets_one(
            friend.uuid@,
            reference.field(),
            texts(reference.list(*friend)).filter(|other: Seq<char>| other != user_id@),
        ),
{
    let list = match reference {
        Reference::Friends => &friend.friends,
        Reference::FriendsRequests => &friend.friends_requests,
        Reference::PendingFriendRequests => &friend.pending_friend_requests,
    };
    UserUpdate::one(friend.uuid.as_str(), reference.field_name(), without_text(list, user_id))
}

} // verus!
