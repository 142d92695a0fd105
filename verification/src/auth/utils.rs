//! Rotation: a fresh access and refresh token for a user, and the two registry
//! writes that put them in force.

use crate::auth::jwt::{create_jwt, issued_claims, issued_for, signed, Issued, TokenClass};
use crate::auth::whitelist::{publish, published, registry_key, RegistryError, RegistryWrite};
use crate::utils::clock::unix_now;
use crate::utils::ident::random_id;
use vstd::prelude::*;
use vstd::string::*;

verus! {

/// A fresh pair of tokens that is not yet in force. The two writes are to be
/// performed in this order: `publish_access`, then `publish_refresh`. They are
/// independent; the store gives no transaction over both.
#[derive(Debug)]
pub struct Rotation {
    pub access: Issued,
    pub refresh: Issued,
    pub publish_access: RegistryWrite,
    pub publish_refresh: RegistryWrite,
}

/// The store after both writes of a rotation for `user_id`.
pub open spec fn rotated(
    registry: Map<Seq<char>, Seq<char>>,
    user_id: Seq<char>,
    access_jti: Seq<char>,
    refresh_jti: Seq<char>,
) -> Map<Seq<char>, Seq<char>> {
    published(
        published(registry, user_id, TokenClass::Access.label(), access_jti),
        user_id,
        TokenClass::Refresh.label(),
        refresh_jti,
    )
}

impl Rotation {
    /// Whether the two writes publish the session identifiers of the two
    /// tokens under the keys of their user.
    pub open spec fn publishes_its_tokens(self) -> bool {
        &&& self.publish_access.key@ == registry_key(
            TokenClass::Access.label(),
            self.access.claims.sub@,
        )
        &&& self.publish_access.value@ == self.access.claims.jti@
        &&& self.publish_refresh.key@ == registry_key(
            TokenClass::Refresh.label(),
            self.refresh.claims.sub@,
        )
        &&& self.publish_refresh.value@ == self.refresh.claims.jti@
    }

    /// The write to try once the access write has been tried: the refresh
    /// write if the access write was stored, none if it failed. A rotation
    /// whose first write failed is given up.
    pub fn after_access(&self, access_written: &Result<(), RegistryError>) -> (next: Option<
        &RegistryWrite,
    >)
        ensures
            access_written is Ok ==> next == Some(&self.publish_refresh),
            access_written is Err ==> next is None,
    {
        match access_written {
            Ok(_) => Some(&self.publish_refresh),
            Err(_) => None,
        }
    }

    /// Ends a rotation: the pair of tokens, access first, if both writes were
    /// stored. Else the tokens are withheld and the first failure is
    /// returned; the caller starts over. `refresh_written` is `None` where
    /// the refresh write was not tried; where it was left out though the
    /// access write was stored, it counts as a store that did not answer.
    pub fn complete(
        self,
        access_written: Result<(), RegistryError>,
        refresh_written: Option<Result<(), RegistryError>>,
    ) -> (tokens: Result<(String, String), RegistryError>)
        ensures
            match (access_written, refresh_written) {
                (Ok(_), Some(Ok(_))) => tokens matches Ok(pair) && pair.0@ == self.access.token@
                    && pair.1@ == self.refresh.token@,
                (Err(why), _) => tokens matches Err(given) && given == why,
                (Ok(_), Some(Err(why))) => tokens matches Err(given) && given == why,
                (Ok(_), None) => tokens matches Err(given) && given == RegistryError::Unavailable,
            },
    {
        match access_written {
            Err(why) => Err(why),
            Ok(_) => match refresh_written {
                Some(Err(why)) => Err(why),
                None => Err(RegistryError::Unavailable),
                Some(Ok(_)) => Ok((self.access.token, self.refresh.token)),
            },
        }
    }
}

/// Rotates the session of `uuid` at the second `now` with the two session
/// identifiers given: issues an access and a refresh token and names the two
/// writes that publish them.
pub fn update_jwt_at(
    uuid: &str,
    secret: &str,
    now: u64,
    access_jti: String,
    refresh_jti: String,
) -> (rotation: Option<Rotation>)
    requires
        now + TokenClass::Refresh.ttl() <= u64::MAX,
    ensures
        rotation is Some <==> (signed(
            issued_claims(uuid@, 900, TokenClass::Access.label(), now, access_jti@),
            secret.spec_bytes(),
        ) is Some && signed(
            issued_claims(uuid@, 604800, TokenClass::Refresh.label(), now, refresh_jti@),
            secret.spec_bytes(),
        ) is Some),
        rotation matches Some(pair) ==> pair.access.claims@ == issued_claims(
            uuid@,
            900,
            TokenClass::Access.label(),
            now,
            access_jti@,
        ),
        rotation matches Some(pair) ==> pair.refresh.claims@ == issued_claims(
            uuid@,
            604800,
            TokenClass::Refresh.label(),
            now,
            refresh_jti@,
        ),
        rotation matches Some(pair) ==> issued_for(
            pair.access,
            uuid@,
            TokenClass::Access,
            secret.spec_bytes(),
        ),
        rotation matches Some(pair) ==> issued_for(
            pair.refresh,
            uuid@,
            TokenClass::Refresh,
            secret.spec_bytes(),
        ),
        rotation matches Some(pair) ==> pair.publishes_its_tokens(),
{
    let access = match create_jwt(
        uuid,
        secret,
        TokenClass::Access.lifetime_secs(),
        TokenClass::Access.as_str(),
        now,
        access_jti,
    ) {
        Some(made) => made,
        None => { return None; },
    };
    let refresh = match create_jwt(
        uuid,
        secret,
        TokenClass::Refresh.lifetime_secs(),
        TokenClass::Refresh.as_str(),
        now,
        refresh_jti,
    ) {
        Some(made) => made,
        None => { return None; },
    };
    let publish_access = publish(
        access.claims.sub.as_str(),
        TokenClass::Access,
        access.claims.jti.as_str(),
    );
    let publish_refresh = publish(
        refresh.claims.sub.as_str(),
        TokenClass::Refresh,
        refresh.claims.jti.as_str(),
    );
    Some(Rotation { access, refresh, publish_access, publish_refresh })
}

/// Whether `rotation` is what rotating the session of `uuid` at the second
/// `now` with the two session identifiers yields: the two claim sets with
/// their tokens and the writes that publish them, or nothing where one of
/// the two claim sets cannot be signed.
pub open spec fn rotated_at(
    rotation: Option<Rotation>,
    uuid: Seq<char>,
    secret: Seq<u8>,
    now: u64,
    access_jti: Seq<char>,
    refresh_jti: Seq<char>,
) -> bool {
    let access = issued_claims(uuid, 900, TokenClass::Access.label(), now, access_jti);
    let refresh = issued_claims(uuid, 604800, TokenClass::Refresh.label(), now, refresh_jti);
    &&& now + TokenClass::Refresh.ttl() <= u64::MAX
    &&& match rotation {
        Some(pair) => {
            &&& pair.access.claims@ == access
            &&& pair.refresh.claims@ == refresh
            &&& signed(access, secret) == Some(pair.access.token@)
            &&& signed(refresh, secret) == Some(pair.refresh.token@)
            &&& pair.publishes_its_tokens()
        },
        None => signed(access, secret) is None || signed(refresh, secret) is None,
    }
}

/// Rotates the session of `uuid` now, with fresh random session identifiers.
/// Whatever the clock and the random generator gave, the two tokens are for
/// `uuid`, one of each class, and the writes publish their identifiers. The
/// result is that of [`update_jwt_at`] for the second the clock gave and the
/// two identifiers that were drawn: it fails only where one of the two claim
/// sets made of them cannot be signed.
pub fn update_jwt(uuid: &str, secret: &str) -> (rotation: Option<Rotation>)
    ensures
        exists|now: u64, access_jti: Seq<char>, refresh_jti: Seq<char>| #[trigger]
            rotated_at(rotation, uuid@, secret.spec_bytes(), now, access_jti, refresh_jti),
        rotation matches Some(pair) ==> issued_for(
            pair.access,
            uuid@,
            TokenClass::Access,
            secret.spec_bytes(),
        ),
        rotation matches Some(pair) ==> issued_for(
            pair.refresh,
            uuid@,
            TokenClass::Refresh,
            secret.spec_bytes(),
        ),
        rotation matches Some(pair) ==> pair.publishes_its_tokens(),
{
    let now = unix_now();
    let access_jti = random_id();
    let refresh_jti = random_id();
    let ghost drawn = (access_jti@, refresh_jti@);
    let rotation = update_jwt_at(uuid, secret, now as u64, access_jti, refresh_jti);
    assert(rotated_at(rotation, uuid@, secret.spec_bytes(), now as u64, drawn.0, drawn.1));
    rotation
}

} // verus!
