//! Request bodies of the login and registration routes.

use crate::user::models::Opk;
use vstd::prelude::*;

verus! {

#[derive(Debug)]
pub struct LoginPayload {
    pub username: String,
    pub password: String,
}

#[derive(Debug)]
pub struct RegisterPayload {
    pub username: String,
    pub password: String,
    pub ik_pub: [u8; 32],
    pub spk_pub: [u8; 32],
    pub opk_pub: Vec<Opk>,
}

} // verus!
