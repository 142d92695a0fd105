//! The stored user record and the forms in which it is shown.

use crate::message::models::Message;
use crate::utils::ident::random_id;
use vstd::prelude::*;

verus! {

/// A user as stored.
#[derive(Debug)]
pub struct User {
    pub uuid: String,
    pub username: String,
    pub password_hash: String,
    pub description: Option<String>,
    pub profile_picture: Option<String>,
    /// Users this user has asked to be friends with.
    pub pending_friend_requests: Vec<String>,
    /// Users who have asked this user to be friends.
    pub friends_requests: Vec<String>,
    pub friends: Vec<String>,
    pub keys: Key,
    pub unread_messages: Vec<Message>,
}

impl User {
    /// Whether the record is that of a user who has just registered under
    /// these values: no profile, no friends, no requests, no messages.
    pub open spec fn is_fresh(self, username: String, password_hash: String, keys: Key) -> bool {
        &&& self.username == username
        &&& self.password_hash == password_hash
        &&& self.keys == keys
        &&& self.description is None
        &&& self.profile_picture is None
        &&& self.pending_friend_requests@.len() == 0
        &&& self.friends_requests@.len() == 0
        &&& self.friends@.len() == 0
        &&& self.unread_messages@.len() == 0
    }

    /// The record of a user who has just registered, with the identifier
    /// `uuid`.
    pub fn with_uuid(uuid: String, username: String, password_hash: String, keys: Key) -> (user:
        User)
        ensures
            user.uuid == uuid,
            user.is_fresh(username, password_hash, keys),
    {
        User {
            uuid,
            username,
            password_hash,
            description: None,
            profile_picture: None,
            keys,
            pending_friend_requests: Vec::new(),
            friends_requests: Vec::new(),
            friends: Vec::new(),
            unread_messages: Vec::new(),
        }
    }

    /// The record of a user who has just registered, with a fresh random
    /// identifier.
    pub fn new(username: String, password_hash: String, keys: Key) -> (user: User)
        ensures
            user.is_fresh(username, password_hash, keys),
    {
        User::with_uuid(random_id(), username, password_hash, keys)
    }
}

/// What a lookup of another user answers with.
#[derive(Debug)]
pub enum UserResponse {
    Public(UserPublic),
    PublicFriend(UserPublicFriend),
}

/// A user as anyone may see them.
#[derive(Debug)]
pub struct UserPublic {
    pub uuid: String,
    pub username: String,
    pub description: Option<String>,
    pub profile_picture: Option<String>,
}

/// A user as their friends see them: with their public keys.
#[derive(Debug)]
pub struct UserPublicFriend {
    pub uuid: String,
    pub username: String,
    pub description: Option<String>,
    pub profile_picture: Option<String>,
    pub keys: Key,
}

/// A user as they see themselves.
#[derive(Debug)]
pub struct UserPrivate {
    pub uuid: String,
    pub username: String,
    pub description: Option<String>,
    pub profile_picture: Option<String>,
    pub keys: Key,
    pub pending_friend_requests: Vec<String>,
    pub friends_requests: Vec<String>,
    pub friends: Vec<String>,
}

/// A message without its content.
#[derive(Debug)]
pub struct MessageInfo {
    pub uuid: String,
    pub sender: String,
    pub receiver: String,
}

/// A user's public keys: identity key, signed prekey and one-time prekeys.
#[derive(Debug)]
pub struct Key {
    pub ik_pub: [u8; 32],
    pub spk_pub: [u8; 32],
    pub opk_pub: Vec<Opk>,
}

impl Key {
    pub fn new(ik_pub: [u8; 32], spk_pub: [u8; 32], opk_pub: Vec<Opk>) -> (key: Key)
        ensures
            key.ik_pub == ik_pub,
            key.spk_pub == spk_pub,
            key.opk_pub == opk_pub,
    {
        Key { ik_pub, spk_pub, opk_pub }
    }
}

/// A one-time prekey.
#[derive(Debug)]
pub struct Opk {
    pub uuid: String,
    pub key: [u8; 32],
}

} // verus!
