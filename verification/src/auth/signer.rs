//! Signing and checking compact tokens with a shared secret (HMAC-SHA256).
//!
//! The cryptography and the JSON encoding are `jsonwebtoken`'s. What it
//! returns is named here and not spelled out: nothing in this crate proves
//! anything of the two named results beyond what the two wrappers state.

use crate::auth::payload::{Field, FieldData, FieldValue, Payload};
use vstd::prelude::*;

verus! {

/// Why a token was not read.
#[derive(Clone, Copy, Debug, PartialEq, Eq, Structural)]
pub enum DecodeFailure {
    /// The text is no well-formed token for this scheme.
    Format,
    /// The text is well formed, but was not signed with this secret.
    Signature,
}

/// The token that `jsonwebtoken::encode` builds under the default header from
/// a secret and a JSON object with these members in this order; `None` where
/// it reports an error.
pub uninterp spec fn hs256_token(entries: Seq<(Seq<char>, FieldData)>, secret: Seq<u8>) -> Option<
    Seq<char>,
>;

/// What `jsonwebtoken::decode` reads from a token under a secret, with the
/// signature checked, no audience expected, and the checks on expiry and on
/// required claims switched off. A token that names an audience is refused
/// as ill-formed: nobody is expected to be named.
pub uninterp spec fn hs256_payload(token: Seq<char>, secret: Seq<u8>) -> Result<
    Map<Seq<char>, FieldData>,
    DecodeFailure,
>;

/// Whether every member of `payload` is a string or an unsigned integer.
pub open spec fn plain(payload: Map<Seq<char>, FieldData>) -> bool {
    forall|name: Seq<char>| payload.contains_key(name) ==> !(#[trigger] payload[name] is Other)
}

/// Calls `jsonwebtoken::encode` with the default header (HS256) and the
/// secret as HMAC key. Trusted: the result is the named token, and that token
/// reads back under the same secret as the payload it was made from. The
/// payload must name no audience, or reading it back would be refused.
#[verifier::external_body]
pub(crate) fn hs256_encode(payload: &Payload, secret: &[u8]) -> (token: Option<String>)
    requires
        plain(payload@),
        !payload@.contains_key("aud"@),
    ensures
        token is Some <==> hs256_token(payload.entries(), secret@) is Some,
        token matches Some(text) ==> hs256_token(payload.entries(), secret@) == Some(text@),
        token matches Some(text) ==> (hs256_payload(text@, secret@) matches Ok(read) && read
            == payload@),
{
    let object: serde_json::Map<String, serde_json::Value> = payload.fields.iter().map(
        |field| (field.name.clone(), match &field.value {
            FieldValue::Text(text) => serde_json::Value::from(text.as_str()),
            FieldValue::Number(number) => serde_json::Value::from(*number),
            FieldValue::Other => serde_json::Value::Null,
        }),
    ).collect();
    let key = jsonwebtoken::EncodingKey::from_secret(secret);
    jsonwebtoken::encode(&jsonwebtoken::Header::default(), &object, &key).ok()
}

/// Calls `jsonwebtoken::decode` for HS256 with the secret as HMAC key, no
/// audience expected, and the checks on expiry and on required claims
/// switched off. Trusted: the result is the named payload; a signature that
/// does not match is told apart from every other failure.
#[verifier::external_body]
pub(crate) fn hs256_decode(token: &str, secret: &[u8]) -> (payload: Result<
    Payload,
    DecodeFailure,
>)
    ensures
        payload matches Ok(object) ==> (hs256_payload(token@, secret@) matches Ok(read) && read
            == object@),
        payload matches Err(failure) ==> (hs256_payload(token@, secret@) matches Err(why) && why
            == failure),
{
    let mut checks = jsonwebtoken::Validation::new(jsonwebtoken::Algorithm::HS256);
    checks.validate_exp = false;
    checks.required_spec_claims.clear();
    let key = jsonwebtoken::DecodingKey::from_secret(secret);
    match jsonwebtoken::decode::<serde_json::Map<String, serde_json::Value>>(token, &key, &checks) {
        Ok(data) => Ok(Payload { fields: data.claims.into_iter().map(|(name, value)|
            Field::read(name, value.as_str().map(str::to_owned), value.as_u64())).collect() }),
        Err(error) => match error.kind() {
            jsonwebtoken::errors::ErrorKind::InvalidSignature => Err(DecodeFailure::Signature),
            _ => Err(DecodeFailure::Format),
        },
    }
}

} // verus!
