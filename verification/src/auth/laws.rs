//! What holds of the guard, the registry and rotation taken together.

use crate::auth::jwt::{
    authenticated, bearer, presented, verified, ClaimSet, Rejection, TokenClass, TokenError,
};
use crate::auth::utils::{rotated, Rotation};
use crate::auth::whitelist::{
    is_current, is_token_type, lemma_key_injective, lemma_publish_supersedes, published, stored,
    written,
};
use vstd::prelude::*;

verus! {

/// The two class names differ, and each names a class.
pub proof fn lemma_labels(class: TokenClass)
    ensures
        is_token_type(class.label()),
        TokenClass::Access.label() != TokenClass::Refresh.label(),
{
    reveal_strlit("access");
    reveal_strlit("refresh");
    assert("access"@[0] != "refresh"@[0]);
}

/// After a rotation for a user, the store holds the new session identifier of
/// each class for that user and nothing else has changed for any other user.
pub proof fn law_rotation_publishes(
    registry: Map<Seq<char>, Seq<char>>,
    user_id: Seq<char>,
    access_jti: Seq<char>,
    refresh_jti: Seq<char>,
    other_user: Seq<char>,
    class: TokenClass,
)
    ensures
        stored(rotated(registry, user_id, access_jti, refresh_jti), user_id, class.label())
            == Some(
            match class {
                TokenClass::Access => access_jti,
                TokenClass::Refresh => refresh_jti,
            },
        ),
        other_user != user_id ==> stored(
            rotated(registry, user_id, access_jti, refresh_jti),
            other_user,
            class.label(),
        ) == stored(registry, other_user, class.label()),
{
    lemma_labels(class);
    let access = TokenClass::Access.label();
    let refresh = TokenClass::Refresh.label();
    let first = published(registry, user_id, access, access_jti);
    let kind = class.label();
    lemma_publish_supersedes(registry, user_id, access, access_jti, other_user, kind, access_jti);
    lemma_publish_supersedes(first, user_id, refresh, refresh_jti, other_user, kind, refresh_jti);
    lemma_publish_supersedes(registry, user_id, access, access_jti, user_id, kind, access_jti);
    lemma_publish_supersedes(first, user_id, refresh, refresh_jti, user_id, kind, refresh_jti);
    lemma_key_injective(access, user_id, refresh, user_id);
}

/// Performing the two writes of a rotation, access first, leaves the store
/// as the rotation of the user with the two new session identifiers.
pub proof fn law_rotation_writes(registry: Map<Seq<char>, Seq<char>>, rotation: Rotation)
    requires
        rotation.publishes_its_tokens(),
        rotation.access.claims.sub@ == rotation.refresh.claims.sub@,
    ensures
        written(written(registry, rotation.publish_access), rotation.publish_refresh) == rotated(
            registry,
            rotation.access.claims.sub@,
            rotation.access.claims.jti@,
            rotation.refresh.claims.jti@,
        ),
{
}

/// A rotation that was abandoned after its first write has put the new access
/// session in force and left the refresh session as it was: the tokens of a
/// pair are published one by one, with no transaction over both.
pub proof fn law_partial_rotation(registry: Map<Seq<char>, Seq<char>>, rotation: Rotation)
    requires
        rotation.publishes_its_tokens(),
        rotation.access.claims.sub@ == rotation.refresh.claims.sub@,
    ensures
        stored(
            written(registry, rotation.publish_access),
            rotation.access.claims.sub@,
            TokenClass::Access.label(),
        ) == Some(rotation.access.claims.jti@),
        stored(
            written(registry, rotation.publish_access),
            rotation.access.claims.sub@,
            TokenClass::Refresh.label(),
        ) == stored(registry, rotation.access.claims.sub@, TokenClass::Refresh.label()),
{
    lemma_labels(TokenClass::Access);
    let user = rotation.access.claims.sub@;
    lemma_publish_supersedes(
        registry,
        user,
        TokenClass::Access.label(),
        rotation.access.claims.jti@,
        user,
        TokenClass::Refresh.label(),
        rotation.access.claims.jti@,
    );
}

/// Single active session: once a user's session has been rotated, a request
/// that bears a token of that user from before the rotation is turned away as
/// stale, though the token still verifies, and a request that bears the new
/// token of the class expected is accepted. This rests on the new session
/// identifier being different from the earlier one.
pub proof fn law_single_active_session(
    registry: Map<Seq<char>, Seq<char>>,
    header: Option<Seq<char>>,
    expected: TokenClass,
    secret: Seq<u8>,
    now: u64,
    claims: ClaimSet,
    access_jti: Seq<char>,
    refresh_jti: Seq<char>,
)
    requires
        presented(header, expected, secret, now) == Ok::<ClaimSet, Rejection>(claims),
    ensures
        ({
            let fresh = match expected {
                TokenClass::Access => access_jti,
                TokenClass::Refresh => refresh_jti,
            };
            let after = rotated(registry, claims.sub, access_jti, refresh_jti);
            &&& claims.jti != fresh ==> authenticated(header, expected, secret, now, after)
                == Err::<Seq<char>, Rejection>(Rejection::StaleOrUnknownSession)
            &&& claims.jti == fresh ==> authenticated(header, expected, secret, now, after)
                == Ok::<Seq<char>, Rejection>(claims.sub)
        }),
{
    law_rotation_publishes(registry, claims.sub, access_jti, refresh_jti, claims.sub, expected);
}

/// Class separation: a token that verifies but is of the other class than the
/// one expected is turned away as such, whatever the registry holds.
pub proof fn law_class_separation(
    registry: Map<Seq<char>, Seq<char>>,
    header: Option<Seq<char>>,
    class: TokenClass,
    expected: TokenClass,
    secret: Seq<u8>,
    now: u64,
    token: Seq<char>,
    claims: ClaimSet,
)
    requires
        bearer(header) == Some(token),
        verified(token, secret, now) == Ok::<ClaimSet, TokenError>(claims),
        claims.token_type == class.label(),
        class != expected,
    ensures
        authenticated(header, expected, secret, now, registry) == Err::<Seq<char>, Rejection>(
            Rejection::WrongTokenClass,
        ),
{
    lemma_labels(class);
}

/// Expiry boundary: a token that verifies at some second verifies at every
/// second up to and including its expiry, and is expired at every later one.
pub proof fn law_expiry_boundary(
    token: Seq<char>,
    secret: Seq<u8>,
    at: u64,
    claims: ClaimSet,
    now: u64,
)
    requires
        verified(token, secret, at) == Ok::<ClaimSet, TokenError>(claims),
    ensures
        now <= claims.exp ==> verified(token, secret, now) == Ok::<ClaimSet, TokenError>(claims),
        now > claims.exp ==> verified(token, secret, now) == Err::<ClaimSet, TokenError>(
            TokenError::Expired,
        ),
{
}

/// A request with a token past its expiry is turned away with the general
/// verdict; one with a token of the class expected that has not expired and
/// is the current session of its user is accepted for that user.
pub proof fn law_guard_expiry(
    registry: Map<Seq<char>, Seq<char>>,
    header: Option<Seq<char>>,
    expected: TokenClass,
    secret: Seq<u8>,
    at: u64,
    token: Seq<char>,
    claims: ClaimSet,
    now: u64,
)
    requires
        bearer(header) == Some(token),
        verified(token, secret, at) == Ok::<ClaimSet, TokenError>(claims),
        claims.token_type == expected.label(),
        is_current(registry, claims.sub, claims.token_type, claims.jti),
    ensures
        now <= claims.exp ==> authenticated(header, expected, secret, now, registry) == Ok::<
            Seq<char>,
            Rejection,
        >(claims.sub),
        now > claims.exp ==> authenticated(header, expected, secret, now, registry) == Err::<
            Seq<char>,
            Rejection,
        >(Rejection::InvalidToken),
{
    law_expiry_boundary(token, secret, at, claims, now);
}

/// Missing and malformed input: without a bearer token the verdict is
/// `MissingToken`; with one that does not verify, for whatever reason, it is
/// `InvalidToken`. Neither depends on the registry.
pub proof fn law_missing_or_invalid(
    registry: Map<Seq<char>, Seq<char>>,
    header: Option<Seq<char>>,
    expected: TokenClass,
    secret: Seq<u8>,
    now: u64,
)
    ensures
        bearer(header) is None ==> authenticated(header, expected, secret, now, registry) == Err::<
            Seq<char>,
            Rejection,
        >(Rejection::MissingToken),
        header is None ==> bearer(header) is None,
        (bearer(header) matches Some(token) && verified(token, secret, now) is Err)
            ==> authenticated(header, expected, secret, now, registry) == Err::<
            Seq<char>,
            Rejection,
        >(Rejection::InvalidToken),
{
}

/// The guard accepts a request exactly for the subject of a token that
/// verifies, is of the class expected and is the current session of its user
/// for that class.
pub proof fn law_accept_iff(
    registry: Map<Seq<char>, Seq<char>>,
    header: Option<Seq<char>>,
    expected: TokenClass,
    secret: Seq<u8>,
    now: u64,
    subject: Seq<char>,
)
    ensures
        authenticated(header, expected, secret, now, registry) == Ok::<Seq<char>, Rejection>(
            subject,
        ) <==> (presented(header, expected, secret, now) matches Ok(claims) && claims.sub
            == subject && is_current(registry, subject, expected.label(), claims.jti)),
{
}

} // verus!
