//! Logging in, registering and refreshing a session.

use crate::auth::jwt::{issued_for, presented, require_token_at, Guard, TokenClass};
use crate::auth::model::RegisterPayload;
use crate::auth::password::{
    argon2_accepts, hash_password, is_password_strong, verify_password, weakness,
};
use crate::auth::utils::{rotated_at, update_jwt, update_jwt_at, Rotation};
use crate::auth::whitelist::RegistryError;
use crate::user::models::{Key, User, UserPrivate};
use crate::user::services::private_of;
use crate::user::utils::StoreError;
use crate::utils::clock::unix_now;
use crate::utils::error::{
    default_message, error_response, ApiError, BAD_REQUEST, CONFLICT, INTERNAL_SERVER_ERROR,
    UNAUTHORIZED,
};
use crate::utils::ident::random_id;
use crate::utils::text::opt_str;
use vstd::prelude::*;
use vstd::string::*;

verus! {

/// A user who has just proved who they are, with the pair of tokens that is
/// theirs once the rotation's two writes are stored.
#[derive(Debug)]
pub struct Session {
    pub user: UserPrivate,
    pub rotation: Rotation,
}

/// The two tokens of a session that is in force.
#[derive(Debug)]
pub struct TokenPair {
    pub access: String,
    pub refresh: String,
}

/// Whether `rotation` is a rotation for the user `uuid` under `secret`.
pub open spec fn rotates(rotation: Rotation, uuid: Seq<char>, secret: Seq<u8>) -> bool {
    &&& issued_for(rotation.access, uuid, TokenClass::Access, secret)
    &&& issued_for(rotation.refresh, uuid, TokenClass::Refresh, secret)
    &&& rotation.publishes_its_tokens()
}

/// Whether `error` is the answer to a fault of the service itself.
pub open spec fn is_internal(error: ApiError) -> bool {
    error.says(INTERNAL_SERVER_ERROR, default_message(INTERNAL_SERVER_ERROR))
}

/// Whether `error` is the answer to wrong credentials.
pub open spec fn is_invalid_credentials(error: ApiError) -> bool {
    error.says(UNAUTHORIZED, "Invalid credentials"@)
}

/// Whether `opened` is what starting the session of `user` at the second
/// `now` with the two session identifiers yields: the user's own view of
/// their record with the rotation of their session, or the answer to a fault
/// of the service where one of the two tokens cannot be signed.
pub open spec fn opened_at(
    opened: Result<Session, ApiError>,
    user: User,
    secret: Seq<u8>,
    now: u64,
    access_jti: Seq<char>,
    refresh_jti: Seq<char>,
) -> bool {
    match opened {
        Ok(session) => session.user == private_of(user) && rotated_at(
            Some(session.rotation),
            user.uuid@,
            secret,
            now,
            access_jti,
            refresh_jti,
        ),
        Err(error) => is_internal(error) && rotated_at(
            None,
            user.uuid@,
            secret,
            now,
            access_jti,
            refresh_jti,
        ),
    }
}

/// Starts the session of `user`, who has proved who they are. It fails only
/// where one of the two tokens cannot be signed.
fn open_session(user: User, secret: &str) -> (opened: Result<Session, ApiError>)
    ensures
        match opened {
            Ok(session) => session.user == private_of(user) && rotates(
                session.rotation,
                user.uuid@,
                secret.spec_bytes(),
            ),
            Err(error) => is_internal(error),
        },
        exists|now: u64, access_jti: Seq<char>, refresh_jti: Seq<char>| #[trigger]
            opened_at(opened, user, secret.spec_bytes(), now, access_jti, refresh_jti),
{
    let found = update_jwt(user.uuid.as_str(), secret);
    let ghost drawn = choose|now: u64, access_jti: Seq<char>, refresh_jti: Seq<char>| #[trigger]
        rotated_at(found, user.uuid@, secret.spec_bytes(), now, access_jti, refresh_jti);
    let rotation = match found {
        Some(rotation) => rotation,
        None => {
            let failed = Err(error_response(INTERNAL_SERVER_ERROR, None));
            assert(opened_at(failed, user, secret.spec_bytes(), drawn.0, drawn.1, drawn.2));
            return failed;
        },
    };
    let opened = Ok(
        Session {
            user: UserPrivate {
                uuid: user.uuid,
                username: user.username,
                keys: user.keys,
                description: user.description,
                profile_picture: user.profile_picture,
                pending_friend_requests: user.pending_friend_requests,
                friends_requests: user.friends_requests,
                friends: user.friends,
            },
            rotation,
        },
    );
    assert(opened_at(opened, user, secret.spec_bytes(), drawn.0, drawn.1, drawn.2));
    opened
}

/// The user whose credentials were presented, from the store's answer to the
/// lookup of the user name. A user name that is not known and a password that
/// is not accepted get the same answer; a stored hash that cannot be read
/// counts as not accepted.
pub fn check_credentials(reply: Result<Option<User>, StoreError>, password: &str) -> (checked:
    Result<User, ApiError>)
    ensures
        match reply {
            Err(_) => checked matches Err(error) && error.says(
                INTERNAL_SERVER_ERROR,
                "Database error"@,
            ),
            Ok(None) => checked matches Err(error) && is_invalid_credentials(error),
            Ok(Some(user)) => if argon2_accepts(password@, user.password_hash@) == Some(true) {
                checked matches Ok(known) && known == user
            } else {
                checked matches Err(error) && is_invalid_credentials(error)
            },
        },
{
    let user = match reply {
        Err(_) => {
            return Err(error_response(INTERNAL_SERVER_ERROR, Some("Database error")));
        },
        Ok(None) => {
            return Err(error_response(UNAUTHORIZED, Some("Invalid credentials")));
        },
        Ok(Some(user)) => user,
    };
    let is_valid = match verify_password(password, user.password_hash.as_str()) {
        Ok(accepted) => accepted,
        Err(_) => false,
    };
    if is_valid {
        Ok(user)
    } else {
        Err(error_response(UNAUTHORIZED, Some("Invalid credentials")))
    }
}

/// Logs a user in, from the store's answer to the lookup of the user name:
/// checks the credentials and starts a session. Once the credentials are
/// accepted it fails only where one of the two tokens cannot be signed.
pub fn login(reply: Result<Option<User>, StoreError>, password: &str, secret: &str) -> (opened:
    Result<Session, ApiError>)
    ensures
        match reply {
            Err(_) => opened matches Err(error) && error.says(
                INTERNAL_SERVER_ERROR,
                "Database error"@,
            ),
            Ok(None) => opened matches Err(error) && is_invalid_credentials(error),
            Ok(Some(user)) => if argon2_accepts(password@, user.password_hash@) == Some(true) {
                &&& match opened {
                    Ok(session) => session.user == private_of(user) && rotates(
                        session.rotation,
                        user.uuid@,
                        secret.spec_bytes(),
                    ),
                    Err(error) => is_internal(error),
                }
                &&& exists|now: u64, access_jti: Seq<char>, refresh_jti: Seq<char>| #[trigger]
                    opened_at(opened, user, secret.spec_bytes(), now, access_jti, refresh_jti)
            } else {
                opened matches Err(error) && is_invalid_credentials(error)
            },
        },
{
    let user = check_credentials(reply, password)?;
    open_session(user, secret)
}

/// Why a registration is refused before anything is hashed, as status and
/// message: the user name is taken, or the password is weak.
pub open spec fn registration_refusal(
    existing: Result<Option<User>, StoreError>,
    password: Seq<char>,
) -> Option<(u16, Seq<char>)> {
    match existing {
        Err(_) => Some((INTERNAL_SERVER_ERROR, "Database error"@)),
        Ok(Some(_)) => Some((CONFLICT, "Username already taken"@)),
        Ok(None) => match weakness(password) {
            Some(message) => Some((BAD_REQUEST, message)),
            None => None,
        },
    }
}

/// Prepares the record of a new user, from the store's answer to the lookup
/// of the user name asked for. The record holds a hash that the password is
/// accepted for, and a fresh random identifier.
pub fn register(existing: Result<Option<User>, StoreError>, payload: RegisterPayload) -> (prepared:
    Result<User, ApiError>)
    ensures
        match registration_refusal(existing, payload.password@) {
            Some(refusal) => prepared matches Err(error) && error.says(refusal.0, refusal.1),
            None => match prepared {
                Ok(user) => {
                    &&& user.is_fresh(
                        payload.username,
                        user.password_hash,
                        Key {
                            ik_pub: payload.ik_pub,
                            spk_pub: payload.spk_pub,
                            opk_pub: payload.opk_pub,
                        },
                    )
                    &&& argon2_accepts(payload.password@, user.password_hash@) == Some(true)
                },
                Err(error) => is_internal(error),
            },
        },
{
    match existing {
        Err(_) => {
            return Err(error_response(INTERNAL_SERVER_ERROR, Some("Database error")));
        },
        Ok(Some(_)) => {
            return Err(error_response(CONFLICT, Some("Username already taken")));
        },
        Ok(None) => {},
    }
    is_password_strong(payload.password.as_str())?;
    let hashed = match hash_password(payload.password.as_str()) {
        Ok(hashed) => hashed,
        Err(_) => { return Err(error_response(INTERNAL_SERVER_ERROR, None)); },
    };
    let keys = Key::new(payload.ik_pub, payload.spk_pub, payload.opk_pub);
    Ok(User::new(payload.username, hashed, keys))
}

/// Starts the session of a user who has just registered, from the store's
/// answer to the write of their record. A record that was not stored gets no
/// session; once it is stored, this fails only where one of the two tokens
/// cannot be signed.
pub fn registered(stored: Result<(), StoreError>, user: User, secret: &str) -> (opened: Result<
    Session,
    ApiError,
>)
    ensures
        match opened {
            Ok(session) => stored is Ok && session.user == private_of(user) && rotates(
                session.rotation,
                user.uuid@,
                secret.spec_bytes(),
            ),
            Err(error) => is_internal(error),
        },
        stored is Err ==> opened is Err,
        stored is Ok ==> (exists|now: u64, access_jti: Seq<char>, refresh_jti: Seq<char>| #[trigger]
            opened_at(opened, user, secret.spec_bytes(), now, access_jti, refresh_jti)),
{
    match stored {
        Err(_) => Err(error_response(INTERNAL_SERVER_ERROR, None)),
        Ok(_) => open_session(user, secret),
    }
}

/// Ends a login, a registration or a refresh once the rotation's writes
/// were tried: the pair of tokens if both were stored, else the answer to a
/// fault of the service. `refresh_written` is `None` where the refresh write
/// was not tried. The tokens of a rotation that failed are not shown.
pub fn session_tokens(
    rotation: Rotation,
    access_written: Result<(), RegistryError>,
    refresh_written: Option<Result<(), RegistryError>>,
) -> (tokens: Result<TokenPair, ApiError>)
    ensures
        match tokens {
            Ok(pair) => access_written is Ok && (refresh_written matches Some(Ok(_)))
                && pair.access@ == rotation.access.token@ && pair.refresh@
                == rotation.refresh.token@,
            Err(error) => !(access_written is Ok && (refresh_written matches Some(Ok(_))))
                && is_internal(error),
        },
{
    match rotation.complete(access_written, refresh_written) {
        Ok(pair) => Ok(TokenPair { access: pair.0, refresh: pair.1 }),
        Err(_) => Err(error_response(INTERNAL_SERVER_ERROR, None)),
    }
}

/// Whether `error` is the general answer to a request that is not authorised.
pub open spec fn is_unauthorized(error: ApiError) -> bool {
    error.says(UNAUTHORIZED, default_message(UNAUTHORIZED))
}

/// Whether `rotated` is what a refresh at the second `now` with the two
/// session identifiers yields: the general answer to a request that is not
/// authorised where the header bears no refresh token that verifies; else the
/// rotation of the session of the token's subject, or the answer to a fault
/// of the service where one of the two new tokens cannot be signed.
pub open spec fn refreshed_at(
    rotated: Result<Rotation, ApiError>,
    header: Option<Seq<char>>,
    secret: Seq<u8>,
    now: u64,
    access_jti: Seq<char>,
    refresh_jti: Seq<char>,
) -> bool {
    &&& now + TokenClass::Refresh.ttl() <= u64::MAX
    &&& match presented(header, TokenClass::Refresh, secret, now) {
        Err(_) => rotated matches Err(error) && is_unauthorized(error),
        Ok(claims) => match rotated {
            Ok(rotation) => rotated_at(
                Some(rotation),
                claims.sub,
                secret,
                now,
                access_jti,
                refresh_jti,
            ),
            Err(error) => is_internal(error) && rotated_at(
                None,
                claims.sub,
                secret,
                now,
                access_jti,
                refresh_jti,
            ),
        },
    }
}

/// Rotates the session named by a refresh token at the second `now`, with the
/// two session identifiers given. The header must bear a refresh token that
/// verifies; whether it is the current one is the guard's to check before.
/// With such a token it fails only where one of the two new tokens cannot be
/// signed.
pub fn refresh_token_at(
    header: Option<&str>,
    secret: &str,
    now: u64,
    access_jti: String,
    refresh_jti: String,
) -> (rotated: Result<Rotation, ApiError>)
    requires
        now + TokenClass::Refresh.ttl() <= u64::MAX,
    ensures
        refreshed_at(
            rotated,
            opt_str(header),
            secret.spec_bytes(),
            now,
            access_jti@,
            refresh_jti@,
        ),
        match presented(opt_str(header), TokenClass::Refresh, secret.spec_bytes(), now) {
            Err(_) => rotated matches Err(error) && is_unauthorized(error),
            Ok(claims) => match rotated {
                Ok(rotation) => rotates(rotation, claims.sub, secret.spec_bytes())
                    && rotation.access.claims.jti@ == access_jti@
                    && rotation.refresh.claims.jti@ == refresh_jti@
                    && rotation.access.claims.exp == now + TokenClass::Access.ttl()
                    && rotation.refresh.claims.exp == now + TokenClass::Refresh.ttl(),
                Err(error) => is_internal(error),
            },
        },
{
    let claims = match require_token_at(header, TokenClass::Refresh, secret, now) {
        Guard::Rejected(_) => { return Err(error_response(UNAUTHORIZED, None)); },
        Guard::Verified { claims, key: _ } => claims,
    };
    match update_jwt_at(claims.sub.as_str(), secret, now, access_jti, refresh_jti) {
        Some(rotation) => Ok(rotation),
        None => Err(error_response(INTERNAL_SERVER_ERROR, None)),
    }
}

/// Rotates the session named by a refresh token, now and with fresh random
/// session identifiers. The result is that of [`refresh_token_at`] for the
/// second the clock gave and the two identifiers that were drawn: a rotation
/// that comes out is for the subject of a refresh token that the header bears
/// and that verified, and an error is one of the two general answers.
pub fn refresh_token(header: Option<&str>, secret: &str) -> (rotated: Result<Rotation, ApiError>)
    ensures
        exists|now: u64, access_jti: Seq<char>, refresh_jti: Seq<char>| #[trigger]
            refreshed_at(
                rotated,
                opt_str(header),
                secret.spec_bytes(),
                now,
                access_jti,
                refresh_jti,
            ),
        match rotated {
            Ok(rotation) => exists|now: u64|
                (#[trigger] presented(
                    opt_str(header),
                    TokenClass::Refresh,
                    secret.spec_bytes(),
                    now,
                ) matches Ok(claims) && rotates(rotation, claims.sub, secret.spec_bytes())),
            Err(error) => is_unauthorized(error) || is_internal(error),
        },
{
    let now = unix_now();
    let access_jti = random_id();
    let refresh_jti = random_id();
    let ghost drawn = (access_jti@, refresh_jti@);
    let rotated = refresh_token_at(header, secret, now as u64, access_jti, refresh_jti);
    assert(refreshed_at(
        rotated,
        opt_str(header),
        secret.spec_bytes(),
        now as u64,
        drawn.0,
        drawn.1,
    ));
    rotated
}

} // verus!
