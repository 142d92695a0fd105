//! The stored user record in its first form, with the store's own identifier.

use crate::utils::ident::random_id;
use vstd::prelude::*;

verus! {

#[derive(Debug)]
pub struct User {
    /// The identifier the document store gave the record: twelve bytes, absent
    /// until the record is stored.
    pub id: Option<[u8; 12]>,
    pub uuid: String,
    pub username: String,
    pub password_hash: String,
    pub keys: Key,
}

impl User {
    /// A record that is not yet stored, with the identifier `uuid`.
    pub fn with_uuid(uuid: String, username: String, password_hash: String, keys: Key) -> (user:
        User)
        ensures
            user.id is None,
            user.uuid == uuid,
            user.username == username,
            user.password_hash == password_hash,
            user.keys == keys,
    {
        User { id: None, uuid, username, password_hash, keys }
    }

    /// A record that is not yet stored, with a fresh random identifier.
    pub fn new(username: String, password_hash: String, keys: Key) -> (user: User)
        ensures
            user.id is None,
            user.username == username,
            user.password_hash == password_hash,
            user.keys == keys,
    {
        User::with_uuid(random_id(), username, password_hash, keys)
    }
}

#[derive(Debug)]
pub struct UserPublic {
    pub uuid: String,
    pub username: String,
    pub keys: Key,
}

/// A user's public keys: identity key, signed prekey and one-time prekeys.
#[derive(Debug)]
pub struct Key {
    pub ik_pub: [u8; 32],
    pub spk_pub: [u8; 32],
    pub opk_pub: Vec<[u8; 32]>,
}

impl Key {
    pub fn new(ik_pub: [u8; 32], spk_pub: [u8; 32], opk_pub: Vec<[u8; 32]>) -> (key: Key)
        ensures
            key.ik_pub == ik_pub,
            key.spk_pub == spk_pub,
            key.opk_pub == opk_pub,
    {
        Key { ik_pub, spk_pub, opk_pub }
    }
}

} // verus!
