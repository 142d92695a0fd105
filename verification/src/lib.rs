//! Session tokens for an authenticated identity: issuing, verifying, rotating
//! and revoking them, together with the account, friendship and inbox rules of
//! the chat service built around them.
//!
//! The crate decides and computes; it never talks to the network. Every
//! function that needs the key-value registry or the user store hands back the
//! reads and writes it wants performed and takes their results as plain values.

pub mod auth;
pub mod message;
pub mod models;
pub mod state;
pub mod system;
pub mod user;
pub mod utils;
