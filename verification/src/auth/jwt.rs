//! Claim sets and the tokens that carry them: issuing, signing and verifying.

use crate::auth::payload::{FieldData, FieldValue, Payload};
use crate::auth::signer::{
    hs256_decode, hs256_encode, hs256_payload, hs256_token, plain, DecodeFailure,
};
use crate::auth::whitelist::{is_jti_valid, registry_key, session_key, stored, RegistryError};
use crate::utils::clock::unix_now;
use crate::utils::error::{default_message, error_response, ApiError, UNAUTHORIZED};
use crate::utils::ident::random_id;
use crate::utils::text::{opt_str, opt_string, same_text, strip_prefix};
use vstd::prelude::*;
use vstd::string::*;

verus! {

/// The two kinds of bearer token a session consists of.
#[derive(Clone, Copy, Debug, PartialEq, Eq, Structural)]
pub enum TokenClass {
    /// Short-lived; presented with ordinary requests.
    Access,
    /// Long-lived; presented only to obtain a new pair.
    Refresh,
}

impl TokenClass {
    /// The name of the class as it stands in a claim set and in a registry key.
    pub open spec fn label(self) -> Seq<char> {
        match self {
            TokenClass::Access => "access"@,
            TokenClass::Refresh => "refresh"@,
        }
    }

    /// Lifetime of a token of this class, in seconds: 15 minutes for an access
    /// token, 7 days for a refresh token.
    pub open spec fn ttl(self) -> nat {
        match self {
            TokenClass::Access => 900,
            TokenClass::Refresh => 604800,
        }
    }

    /// The name of the class.
    pub fn as_str(self) -> (name: &'static str)
        ensures
            name@ == self.label(),
    {
        match self {
            TokenClass::Access => "access",
            TokenClass::Refresh => "refresh",
        }
    }

    /// Lifetime of a token of this class, in seconds.
    pub fn lifetime_secs(self) -> (seconds: u64)
        ensures
            seconds == self.ttl(),
    {
        match self {
            TokenClass::Access => 900,
            TokenClass::Refresh => 604800,
        }
    }

    /// The class that `name` names, if it names one.
    pub fn parse(name: &str) -> (class: Option<TokenClass>)
        ensures
            match class {
                Some(found) => found.label() == name@,
                None => name@ != TokenClass::Access.label() && name@
                    != TokenClass::Refresh.label(),
            },
    {
        if same_text(name, "access") {
            Some(TokenClass::Access)
        } else if same_text(name, "refresh") {
            Some(TokenClass::Refresh)
        } else {
            None
        }
    }
}

/// The payload of a token.
#[derive(Debug)]
pub struct Claims {
    /// The user the token speaks for.
    pub sub: String,
    /// The session identifier: the handle by which the token is revoked.
    pub jti: String,
    /// The second, counted from the Unix epoch, after which the token is void.
    pub exp: u64,
    /// The name of the token's class.
    pub token_type: String,
}

/// Mathematical counterpart of [`Claims`].
pub struct ClaimSet {
    pub sub: Seq<char>,
    pub jti: Seq<char>,
    pub exp: u64,
    pub token_type: Seq<char>,
}

impl View for Claims {
    type V = ClaimSet;

    open spec fn view(&self) -> ClaimSet {
        ClaimSet { sub: self.sub@, jti: self.jti@, exp: self.exp, token_type: self.token_type@ }
    }
}

/// Why a token was not accepted by [`decode_jwt`].
#[derive(Clone, Copy, Debug, PartialEq, Eq, Structural)]
pub enum TokenError {
    /// The text is no token, its payload is no claim set, or it names an
    /// audience.
    Malformed,
    /// The token was not signed with this secret.
    SignatureMismatch,
    /// The token's expiry lies in the past.
    Expired,
}

/// The members of the JSON object that stands for a claim set, in the order
/// in which they are written out.
pub open spec fn claims_entries(claims: ClaimSet) -> Seq<(Seq<char>, FieldData)> {
    seq![
        ("sub"@, FieldData::Text(claims.sub)),
        ("jti"@, FieldData::Text(claims.jti)),
        ("exp"@, FieldData::Number(claims.exp)),
        ("token_type"@, FieldData::Text(claims.token_type)),
    ]
}

/// The JSON object that stands for a claim set, as a map.
pub open spec fn claims_payload(claims: ClaimSet) -> Map<Seq<char>, FieldData> {
    Map::<Seq<char>, FieldData>::empty().insert("sub"@, FieldData::Text(claims.sub)).insert(
        "jti"@,
        FieldData::Text(claims.jti),
    ).insert("exp"@, FieldData::Number(claims.exp)).insert(
        "token_type"@,
        FieldData::Text(claims.token_type),
    )
}

/// The claim set that a JSON object stands for: its members `sub`, `jti` and
/// `token_type` must be strings and `exp` an unsigned integer; other members
/// are passed over.
pub open spec fn payload_claims(payload: Map<Seq<char>, FieldData>) -> Option<ClaimSet> {
    if payload.contains_key("sub"@) && payload.contains_key("jti"@) && payload.contains_key("exp"@)
        && payload.contains_key("token_type"@) {
        match (payload["sub"@], payload["jti"@], payload["exp"@], payload["token_type"@]) {
            (
                FieldData::Text(sub),
                FieldData::Text(jti),
                FieldData::Number(exp),
                FieldData::Text(token_type),
            ) => Some(ClaimSet { sub, jti, exp, token_type }),
            _ => None,
        }
    } else {
        None
    }
}

/// The four member names are pairwise distinct, and none is `aud`.
pub proof fn lemma_claim_names()
    ensures
        "sub"@ != "jti"@,
        "sub"@ != "exp"@,
        "sub"@ != "token_type"@,
        "jti"@ != "exp"@,
        "jti"@ != "token_type"@,
        "exp"@ != "token_type"@,
        "aud"@ != "sub"@,
        "aud"@ != "jti"@,
        "aud"@ != "exp"@,
        "aud"@ != "token_type"@,
{
    reveal_strlit("sub");
    reveal_strlit("jti");
    reveal_strlit("exp");
    reveal_strlit("token_type");
    reveal_strlit("aud");
    assert("aud"@[0] != "sub"@[0]);
    assert("aud"@[0] != "jti"@[0]);
    assert("aud"@[0] != "exp"@[0]);
    assert("aud"@.len() != "token_type"@.len());
    assert("sub"@[0] != "jti"@[0]);
    assert("sub"@[0] != "exp"@[0]);
    assert("jti"@[0] != "exp"@[0]);
    assert("sub"@.len() != "token_type"@.len());
    assert("jti"@.len() != "token_type"@.len());
    assert("exp"@.len() != "token_type"@.len());
}

/// Each member of the object that stands for a claim set is read back as it
/// was written, each is a string or an unsigned integer, and none names an
/// audience.
pub proof fn lemma_payload_round_trip(claims: ClaimSet)
    ensures
        payload_claims(claims_payload(claims)) == Some(claims),
        plain(claims_payload(claims)),
        !claims_payload(claims).contains_key("aud"@),
{
    lemma_claim_names();
}

/// The token for a claim set under a secret; `None` where signing fails.
pub open spec fn signed(claims: ClaimSet, secret: Seq<u8>) -> Option<Seq<char>> {
    hs256_token(claims_entries(claims), secret)
}

/// What verifying `token` under `secret` at the second `now` yields: the claim
/// set it carries, or the reason it is turned down. A token is expired from
/// the first second after its `exp`.
pub open spec fn verified(token: Seq<char>, secret: Seq<u8>, now: u64) -> Result<
    ClaimSet,
    TokenError,
> {
    match hs256_payload(token, secret) {
        Err(DecodeFailure::Format) => Err(TokenError::Malformed),
        Err(DecodeFailure::Signature) => Err(TokenError::SignatureMismatch),
        Ok(payload) => match payload_claims(payload) {
            None => Err(TokenError::Malformed),
            Some(claims) => if claims.exp < now {
                Err(TokenError::Expired)
            } else {
                Ok(claims)
            },
        },
    }
}

/// Signs a claim set. The token that comes out verifies under the same secret
/// to the same claim set at every second up to and including its expiry.
pub fn sign(claims: &Claims, secret: &str) -> (token: Option<String>)
    ensures
        token is Some <==> signed(claims@, secret.spec_bytes()) is Some,
        token matches Some(text) ==> signed(claims@, secret.spec_bytes()) == Some(text@),
        token matches Some(text) ==> (forall|now: u64|
            now <= claims.exp ==> #[trigger] verified(text@, secret.spec_bytes(), now) == Ok::<
                ClaimSet,
                TokenError,
            >(claims@)),
{
    proof {
        lemma_claim_names();
        lemma_payload_round_trip(claims@);
    }
    let subject = Payload::new().with("sub", FieldValue::Text(claims.sub.clone()));
    let session = subject.with("jti", FieldValue::Text(claims.jti.clone()));
    let expiry = session.with("exp", FieldValue::Number(claims.exp));
    let payload = expiry.with("token_type", FieldValue::Text(claims.token_type.clone()));
    assert(payload@ == claims_payload(claims@));
    assert(payload.entries() =~= claims_entries(claims@));
    hs256_encode(&payload, secret.as_bytes())
}

/// Reads the claim set out of a payload.
pub fn claims_from_payload(payload: &Payload) -> (claims: Option<Claims>)
    ensures
        match claims {
            Some(found) => payload_claims(payload@) == Some(found@),
            None => payload_claims(payload@) is None,
        },
{
    let sub = payload.text("sub");
    let jti = payload.text("jti");
    let exp = payload.number("exp");
    let token_type = payload.text("token_type");
    match (sub, jti, exp, token_type) {
        (Some(sub), Some(jti), Some(exp), Some(token_type)) => Some(
            Claims { sub, jti, exp, token_type },
        ),
        _ => None,
    }
}

/// Verifies `token` under `secret` at the second `now`.
pub fn decode_jwt_at(token: &str, secret: &str, now: u64) -> (claims: Result<Claims, TokenError>)
    ensures
        match claims {
            Ok(found) => verified(token@, secret.spec_bytes(), now) == Ok::<ClaimSet, TokenError>(
                found@,
            ),
            Err(why) => verified(token@, secret.spec_bytes(), now) == Err::<ClaimSet, TokenError>(
                why,
            ),
        },
{
    match hs256_decode(token, secret.as_bytes()) {
        Err(DecodeFailure::Format) => Err(TokenError::Malformed),
        Err(DecodeFailure::Signature) => Err(TokenError::SignatureMismatch),
        Ok(payload) => match claims_from_payload(&payload) {
            None => Err(TokenError::Malformed),
            Some(found) => if found.exp < now {
                Err(TokenError::Expired)
            } else {
                Ok(found)
            },
        },
    }
}

/// A token together with the claim set it carries.
#[derive(Debug)]
pub struct Issued {
    pub token: String,
    pub claims: Claims,
}

/// The claim set of a token issued at the second `now` to `user_id`, with the
/// session identifier `jti`, to last `expiration_secs` seconds.
pub open spec fn issued_claims(
    user_id: Seq<char>,
    expiration_secs: u64,
    token_type: Seq<char>,
    now: u64,
    jti: Seq<char>,
) -> ClaimSet {
    ClaimSet { sub: user_id, jti, exp: (now + expiration_secs) as u64, token_type }
}

/// Issues a token at the second `now` with the session identifier `jti`: the
/// claim set is built and signed. The token verifies under the same secret to
/// that claim set at every second up to and including its expiry.
pub fn create_jwt(
    user_id: &str,
    secret: &str,
    expiration_secs: u64,
    token_type: &str,
    now: u64,
    jti: String,
) -> (issued: Option<Issued>)
    requires
        now + expiration_secs <= u64::MAX,
    ensures
        issued is Some <==> signed(
            issued_claims(user_id@, expiration_secs, token_type@, now, jti@),
            secret.spec_bytes(),
        ) is Some,
        issued matches Some(made) ==> made.claims@ == issued_claims(
            user_id@,
            expiration_secs,
            token_type@,
            now,
            jti@,
        ),
        issued matches Some(made) ==> signed(made.claims@, secret.spec_bytes()) == Some(
            made.token@,
        ),
        issued matches Some(made) ==> (forall|at: u64|
            at <= now + expiration_secs ==> #[trigger] verified(
                made.token@,
                secret.spec_bytes(),
                at,
            ) == Ok::<ClaimSet, TokenError>(made.claims@)),
{
    let claims = Claims {
        sub: user_id.to_owned(),
        jti,
        exp: now + expiration_secs,
        token_type: token_type.to_owned(),
    };
    match sign(&claims, secret) {
        Some(token) => Some(Issued { token, claims }),
        None => None,
    }
}

/// What holds of a token issued to `user_id` for `class` under `secret`,
/// whatever the clock and the random generator gave.
pub open spec fn issued_for(
    made: Issued,
    user_id: Seq<char>,
    class: TokenClass,
    secret: Seq<u8>,
) -> bool {
    &&& made.claims.sub@ == user_id
    &&& made.claims.token_type@ == class.label()
    &&& made.claims.exp >= class.ttl()
    &&& signed(made.claims@, secret) == Some(made.token@)
    &&& forall|at: u64|
        at <= made.claims.exp ==> #[trigger] verified(made.token@, secret, at) == Ok::<
            ClaimSet,
            TokenError,
        >(made.claims@)
}

/// Whether `issued` is what issuing a token of `class` to `user_id` at the
/// second `now` with the session identifier `jti` yields: the claim set that
/// expires one lifetime of the class after `now`, with its token, or nothing
/// where that claim set cannot be signed.
pub open spec fn issued_at(
    issued: Option<Issued>,
    user_id: Seq<char>,
    class: TokenClass,
    secret: Seq<u8>,
    now: u64,
    jti: Seq<char>,
) -> bool {
    let claims = issued_claims(user_id, class.ttl() as u64, class.label(), now, jti);
    &&& now + class.ttl() <= u64::MAX
    &&& match issued {
        Some(made) => made.claims@ == claims && signed(claims, secret) == Some(made.token@),
        None => signed(claims, secret) is None,
    }
}

/// Issues a token of `class` to `user_id` now, with a fresh random session
/// identifier. The result is that of [`create_jwt`] for the second the clock
/// gave and the identifier that was drawn: it fails only where the claim set
/// made of them cannot be signed.
pub fn issue(user_id: &str, secret: &str, class: TokenClass) -> (issued: Option<Issued>)
    ensures
        issued matches Some(made) ==> issued_for(made, user_id@, class, secret.spec_bytes()),
        exists|now: u64, jti: Seq<char>| #[trigger]
            issued_at(issued, user_id@, class, secret.spec_bytes(), now, jti),
{
    let now = unix_now();
    let jti = random_id();
    let ghost drawn = jti@;
    let issued = create_jwt(
        user_id,
        secret,
        class.lifetime_secs(),
        class.as_str(),
        now as u64,
        jti,
    );
    assert(issued_at(issued, user_id@, class, secret.spec_bytes(), now as u64, drawn));
    issued
}

/// Issues an access token to `user_id` now: it lasts 15 minutes. It fails
/// only where its claim set cannot be signed.
pub fn create_access_token(user_id: &str, secret: &str) -> (issued: Option<Issued>)
    ensures
        issued matches Some(made) ==> issued_for(
            made,
            user_id@,
            TokenClass::Access,
            secret.spec_bytes(),
        ),
        exists|now: u64, jti: Seq<char>| #[trigger]
            issued_at(issued, user_id@, TokenClass::Access, secret.spec_bytes(), now, jti),
{
    issue(user_id, secret, TokenClass::Access)
}

/// Issues a refresh token to `user_id` now: it lasts 7 days. It fails only
/// where its claim set cannot be signed.
pub fn create_refresh_token(user_id: &str, secret: &str) -> (issued: Option<Issued>)
    ensures
        issued matches Some(made) ==> issued_for(
            made,
            user_id@,
            TokenClass::Refresh,
            secret.spec_bytes(),
        ),
        exists|now: u64, jti: Seq<char>| #[trigger]
            issued_at(issued, user_id@, TokenClass::Refresh, secret.spec_bytes(), now, jti),
{
    issue(user_id, secret, TokenClass::Refresh)
}

/// Verifies `token` under `secret` now. Whatever the clock gave: a token that
/// is malformed or wrongly signed is turned down as such, and any other token
/// either yields its claim set or is expired.
pub fn decode_jwt(token: &str, secret: &str) -> (claims: Result<Claims, TokenError>)
    ensures
        match verified(token@, secret.spec_bytes(), 0) {
            Err(why) => claims matches Err(given) && given == why,
            Ok(carried) => match claims {
                Ok(found) => found@ == carried,
                Err(why) => why == TokenError::Expired,
            },
        },
{
    let now = unix_now();
    decode_jwt_at(token, secret, now as u64)
}

/// Why a request was turned away by the guard.
#[derive(Clone, Copy, Debug, PartialEq, Eq, Structural)]
pub enum Rejection {
    /// No bearer token was presented.
    MissingToken,
    /// The token did not verify: malformed, wrongly signed or expired. The
    /// three are not told apart.
    InvalidToken,
    /// The token is of the other class.
    WrongTokenClass,
    /// The token is not the current session of its user, or the registry did
    /// not answer.
    StaleOrUnknownSession,
}

/// The token in an `Authorization` header value: what follows `Bearer `.
pub open spec fn bearer(header: Option<Seq<char>>) -> Option<Seq<char>> {
    match header {
        Some(value) => if "Bearer "@.is_prefix_of(value) {
            Some(value.subrange("Bearer "@.len() as int, value.len() as int))
        } else {
            None
        },
        None => None,
    }
}

/// Takes the bearer token out of an `Authorization` header value.
pub fn bearer_token(header: Option<&str>) -> (token: Option<String>)
    ensures
        match token {
            Some(text) => bearer(opt_str(header)) == Some(text@),
            None => bearer(opt_str(header)) is None,
        },
{
    match header {
        Some(value) => {
            let rest = strip_prefix(value, "Bearer ");
            proof {
                if let Some(tail) = &rest {
                    assert(value@.subrange("Bearer "@.len() as int, value@.len() as int)
                        =~= tail@);
                    assert(("Bearer "@ + tail@).subrange(0, "Bearer "@.len() as int)
                        =~= "Bearer "@);
                }
            }
            rest
        },
        None => None,
    }
}

/// The guard before it has asked the registry: the claim set of the token
/// presented, if the token verifies at the second `now` and is of the class
/// `expected`.
pub open spec fn presented(
    header: Option<Seq<char>>,
    expected: TokenClass,
    secret: Seq<u8>,
    now: u64,
) -> Result<ClaimSet, Rejection> {
    match bearer(header) {
        None => Err(Rejection::MissingToken),
        Some(token) => match verified(token, secret, now) {
            Err(_) => Err(Rejection::InvalidToken),
            Ok(claims) => if claims.token_type == expected.label() {
                Ok(claims)
            } else {
                Err(Rejection::WrongTokenClass)
            },
        },
    }
}

/// The guard's verdict on a verified claim set, given what the registry holds
/// under the user's key: the subject, if the stored session identifier is the
/// token's.
pub open spec fn settled(claims: ClaimSet, read: Option<Seq<char>>) -> Result<
    Seq<char>,
    Rejection,
> {
    if read == Some(claims.jti) {
        Ok(claims.sub)
    } else {
        Err(Rejection::StaleOrUnknownSession)
    }
}

/// The guard as a whole: the subject that a request is accepted for, or the
/// reason it is turned away, given the header value, the class expected, the
/// secret, the second `now` and what the registry holds.
pub open spec fn authenticated(
    header: Option<Seq<char>>,
    expected: TokenClass,
    secret: Seq<u8>,
    now: u64,
    registry: Map<Seq<char>, Seq<char>>,
) -> Result<Seq<char>, Rejection> {
    match presented(header, expected, secret, now) {
        Err(why) => Err(why),
        Ok(claims) => settled(claims, stored(registry, claims.sub, claims.token_type)),
    }
}

/// Where the guard stands once it has looked at the request alone. It starts
/// with no token, takes the bearer token out of the header, verifies it and
/// checks its class; only then does it need the registry, whose answer
/// [`settle`] turns into acceptance or rejection.
#[derive(Debug)]
pub enum Guard {
    /// The request is turned away; the registry is not asked.
    Rejected(Rejection),
    /// The token verified and is of the right class. The registry is to be
    /// read under `key`, and what it holds handed to [`settle`].
    Verified { claims: Claims, key: String },
}

/// First half of the guard, at the second `now`: extracts the bearer token,
/// verifies it and checks its class.
pub fn require_token_at(
    header: Option<&str>,
    expected: TokenClass,
    secret: &str,
    now: u64,
) -> (guard: Guard)
    ensures
        match guard {
            Guard::Rejected(why) => presented(
                opt_str(header),
                expected,
                secret.spec_bytes(),
                now,
            ) == Err::<ClaimSet, Rejection>(why),
            Guard::Verified { claims, key } => presented(
                opt_str(header),
                expected,
                secret.spec_bytes(),
                now,
            ) == Ok::<ClaimSet, Rejection>(claims@) && key@ == registry_key(
                claims.token_type@,
                claims.sub@,
            ),
        },
{
    let token = match bearer_token(header) {
        Some(token) => token,
        None => { return Guard::Rejected(Rejection::MissingToken); },
    };
    let claims = match decode_jwt_at(token.as_str(), secret, now) {
        Ok(claims) => claims,
        Err(_) => { return Guard::Rejected(Rejection::InvalidToken); },
    };
    if !same_text(claims.token_type.as_str(), expected.as_str()) {
        return Guard::Rejected(Rejection::WrongTokenClass);
    }
    let key = session_key(claims.sub.as_str(), expected);
    Guard::Verified { claims, key }
}

/// Second half of the guard: judges what the registry answered. A read that
/// failed, a missing entry and an entry for another session all turn the
/// request away.
pub fn settle(claims: &Claims, reply: &Result<Option<String>, RegistryError>) -> (verdict: Result<
    String,
    Rejection,
>)
    ensures
        reply matches Ok(read) ==> (match verdict {
            Ok(subject) => settled(claims@, opt_string(*read)) == Ok::<
                Seq<char>,
                Rejection,
            >(subject@),
            Err(why) => settled(claims@, opt_string(*read)) == Err::<
                Seq<char>,
                Rejection,
            >(why),
        }),
        reply is Err ==> verdict == Err::<String, Rejection>(Rejection::StaleOrUnknownSession),
{
    match reply {
        Ok(read) => if is_jti_valid(read, claims.jti.as_str()) {
            Ok(claims.sub.clone())
        } else {
            Err(Rejection::StaleOrUnknownSession)
        },
        Err(_) => Err(Rejection::StaleOrUnknownSession),
    }
}

/// First half of the guard for routes that take an access token, now.
pub fn require_access_token(header: Option<&str>, secret: &str) -> (guard: Guard)
    ensures
        guard_holds(guard, opt_str(header), TokenClass::Access, secret.spec_bytes()),
{
    let now = unix_now();
    require_token_at(header, TokenClass::Access, secret, now as u64)
}

/// First half of the guard for routes that take a refresh token, now.
pub fn require_refresh_token(header: Option<&str>, secret: &str) -> (guard: Guard)
    ensures
        guard_holds(guard, opt_str(header), TokenClass::Refresh, secret.spec_bytes()),
{
    let now = unix_now();
    require_token_at(header, TokenClass::Refresh, secret, now as u64)
}

/// What holds of the guard's first half whatever the clock gave: its outcome
/// is that of some second.
pub open spec fn guard_holds(
    guard: Guard,
    header: Option<Seq<char>>,
    expected: TokenClass,
    secret: Seq<u8>,
) -> bool {
    exists|now: u64|
        match guard {
            Guard::Rejected(why) => #[trigger] presented(header, expected, secret, now) == Err::<
                ClaimSet,
                Rejection,
            >(why),
            Guard::Verified { claims, key } => presented(header, expected, secret, now) == Ok::<
                ClaimSet,
                Rejection,
            >(claims@) && key@ == registry_key(claims.token_type@, claims.sub@),
        }
}

/// The answer to a request that the guard turned away. Only a missing token
/// is told apart; a token that is invalid, of the wrong class or stale gets
/// the same general answer, so that nothing is learnt of why it failed.
pub fn rejection_response(why: Rejection) -> (error: ApiError)
    ensures
        error.status == UNAUTHORIZED,
        error.message@ == (match why {
            Rejection::MissingToken => "Missing token"@,
            _ => default_message(UNAUTHORIZED),
        }),
{
    match why {
        Rejection::MissingToken => error_response(UNAUTHORIZED, Some("Missing token")),
        _ => error_response(UNAUTHORIZED, None),
    }
}

} // verus!
