//! Request bodies of the user routes.

use vstd::prelude::*;

verus! {

/// The changes asked for in a profile update; a field left out is unchanged.
#[derive(Debug)]
pub struct UserUpdatePayload {
    pub username: Option<String>,
    pub description: Option<String>,
    pub profile_picture: Option<String>,
}

} // verus!
