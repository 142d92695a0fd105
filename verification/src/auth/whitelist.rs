//! The session registry: one current session identifier for each user and
//! token class, kept in a key-value store outside this crate.
//!
//! The functions here name the key to read or write and judge what was read.
//! The store itself is modelled as a map from keys to values.

use crate::auth::jwt::TokenClass;
use crate::utils::text::same_text;
use vstd::prelude::*;
use vstd::string::*;

verus! {

/// Why the registry could not be used.
#[derive(Clone, Copy, Debug, PartialEq, Eq, Structural)]
pub enum RegistryError {
    /// The token type is neither `access` nor `refresh`.
    InvalidTokenType,
    /// The store did not answer.
    Unavailable,
}

/// How long the store is given to answer one read or write, in seconds. A
/// read or write that takes longer counts as [`RegistryError::Unavailable`].
pub const REGISTRY_TIMEOUT_SECS: u64 = 5;

/// One write to the store: `value` replaces whatever stood under `key`.
#[derive(Debug)]
pub struct RegistryWrite {
    pub key: String,
    pub value: String,
}

/// Whether `token_type` names a token class.
pub open spec fn is_token_type(token_type: Seq<char>) -> bool {
    token_type == "access"@ || token_type == "refresh"@
}

/// The key under which the current session of `user_id` for `token_type` is
/// kept: the token type, then `_jti:`, then the user.
pub open spec fn registry_key(token_type: Seq<char>, user_id: Seq<char>) -> Seq<char> {
    token_type + "_jti:"@ + user_id
}

/// The store after one write.
pub open spec fn written(registry: Map<Seq<char>, Seq<char>>, write: RegistryWrite) -> Map<
    Seq<char>,
    Seq<char>,
> {
    registry.insert(write.key@, write.value@)
}

/// The store after `jti` was published for `user_id` and `token_type`.
pub open spec fn published(
    registry: Map<Seq<char>, Seq<char>>,
    user_id: Seq<char>,
    token_type: Seq<char>,
    jti: Seq<char>,
) -> Map<Seq<char>, Seq<char>> {
    registry.insert(registry_key(token_type, user_id), jti)
}

/// What the store holds for `user_id` and `token_type`.
pub open spec fn stored(
    registry: Map<Seq<char>, Seq<char>>,
    user_id: Seq<char>,
    token_type: Seq<char>,
) -> Option<Seq<char>> {
    let key = registry_key(token_type, user_id);
    if registry.contains_key(key) {
        Some(registry[key])
    } else {
        None
    }
}

/// Whether `jti` is the current session of `user_id` for `token_type`: the
/// stored value equals it exactly, and no stored value means no.
pub open spec fn is_current(
    registry: Map<Seq<char>, Seq<char>>,
    user_id: Seq<char>,
    token_type: Seq<char>,
    jti: Seq<char>,
) -> bool {
    stored(registry, user_id, token_type) == Some(jti)
}

/// The key under which the current session of `user_id` for `class` is kept.
pub fn session_key(user_id: &str, class: TokenClass) -> (key: String)
    ensures
        key@ == registry_key(class.label(), user_id@),
{
    let mut key = class.as_str().to_owned();
    key.append("_jti:");
    key.append(user_id);
    key
}

/// The write that makes `jti` the current session of `user_id` for `class`.
/// It overwrites without looking at what is stored.
pub fn publish(user_id: &str, class: TokenClass, jti: &str) -> (write: RegistryWrite)
    ensures
        write.key@ == registry_key(class.label(), user_id@),
        write.value@ == jti@,
{
    RegistryWrite { key: session_key(user_id, class), value: jti.to_owned() }
}

/// The key for `user_id` and `token_type`, or `InvalidTokenType` where the
/// type names no class.
pub fn jti_key(user_id: &str, token_type: &str) -> (key: Result<String, RegistryError>)
    ensures
        is_token_type(token_type@) ==> (key matches Ok(text) && text@ == registry_key(
            token_type@,
            user_id@,
        )),
        !is_token_type(token_type@) ==> key == Err::<String, RegistryError>(
            RegistryError::InvalidTokenType,
        ),
{
    match TokenClass::parse(token_type) {
        Some(class) => Ok(session_key(user_id, class)),
        None => Err(RegistryError::InvalidTokenType),
    }
}

/// The write that makes `jti` the current session of `user_id` for
/// `token_type`, or `InvalidTokenType` where the type names no class.
pub fn set_valid_jti(user_id: &str, jti: &str, token_type: &str) -> (write: Result<
    RegistryWrite,
    RegistryError,
>)
    ensures
        is_token_type(token_type@) ==> (write matches Ok(entry) && entry.key@ == registry_key(
            token_type@,
            user_id@,
        ) && entry.value@ == jti@),
        !is_token_type(token_type@) ==> (write matches Err(why) && why
            == RegistryError::InvalidTokenType),
{
    match TokenClass::parse(token_type) {
        Some(class) => Ok(publish(user_id, class, jti)),
        None => Err(RegistryError::InvalidTokenType),
    }
}

/// Whether `jti` is what was read from the store under the user's key.
pub fn is_jti_valid(read: &Option<String>, jti: &str) -> (valid: bool)
    ensures
        valid == (read matches Some(value) && value@ == jti@),
{
    match read {
        Some(value) => same_text(value.as_str(), jti),
        None => false,
    }
}

/// Two keys are equal only for the same token class and the same user.
pub proof fn lemma_key_injective(
    first_type: Seq<char>,
    first_user: Seq<char>,
    second_type: Seq<char>,
    second_user: Seq<char>,
)
    requires
        is_token_type(first_type),
        is_token_type(second_type),
    ensures
        registry_key(first_type, first_user) == registry_key(second_type, second_user) <==> (
        first_type == second_type && first_user == second_user),
{
    reveal_strlit("access");
    reveal_strlit("refresh");
    reveal_strlit("_jti:");
    let first = registry_key(first_type, first_user);
    let second = registry_key(second_type, second_user);
    if first == second {
        assert(first[0] == first_type[0]);
        assert(second[0] == second_type[0]);
        assert(first_type == second_type);
        let head = first_type + "_jti:"@;
        assert(first.subrange(head.len() as int, first.len() as int) =~= first_user);
        assert(second.subrange(head.len() as int, second.len() as int) =~= second_user);
    }
}

/// At most one session identifier is current for a user and a token class.
pub proof fn lemma_one_current(
    registry: Map<Seq<char>, Seq<char>>,
    user_id: Seq<char>,
    token_type: Seq<char>,
    first: Seq<char>,
    second: Seq<char>,
)
    requires
        is_current(registry, user_id, token_type, first),
        is_current(registry, user_id, token_type, second),
    ensures
        first == second,
{
}

/// Publishing a session identifier makes it the current one and every other
/// identifier of that user and class stale; what is stored for another user
/// or class stays as it was.
pub proof fn lemma_publish_supersedes(
    registry: Map<Seq<char>, Seq<char>>,
    user_id: Seq<char>,
    token_type: Seq<char>,
    jti: Seq<char>,
    other_user: Seq<char>,
    other_type: Seq<char>,
    other_jti: Seq<char>,
)
    requires
        is_token_type(token_type),
        is_token_type(other_type),
    ensures
        is_current(published(registry, user_id, token_type, jti), user_id, token_type, other_jti)
            <==> other_jti == jti,
        (other_user != user_id || other_type != token_type) ==> stored(
            published(registry, user_id, token_type, jti),
            other_user,
            other_type,
        ) == stored(registry, other_user, other_type),
{
    lemma_key_injective(token_type, user_id, other_type, other_user);
}

} // verus!
