use std::collections::HashMap;

use lucchat_api::auth::jwt::{
    bearer_token, create_access_token, create_jwt, create_refresh_token, decode_jwt,
    decode_jwt_at, require_access_token, require_refresh_token, require_token_at, settle, sign,
    Claims, Guard, Rejection, TokenClass, TokenError,
};
use lucchat_api::auth::utils::{update_jwt, update_jwt_at, Rotation};
use lucchat_api::auth::whitelist::{
    is_jti_valid, jti_key, publish, session_key, set_valid_jti, RegistryError, RegistryWrite,
    REGISTRY_TIMEOUT_SECS,
};

const SECRET: &str = "an-example-signing-secret";
const NOW: u64 = 1_700_000_000;

fn apply(store: &mut HashMap<String, String>, write: &RegistryWrite) -> Result<(), RegistryError> {
    store.insert(write.key.clone(), write.value.clone());
    Ok(())
}

fn rotate(
    store: &mut HashMap<String, String>,
    user: &str,
    now: u64,
    access_jti: &str,
    refresh_jti: &str,
) -> (String, String) {
    let rotation = update_jwt_at(user, SECRET, now, access_jti.to_string(), refresh_jti.to_string())
        .expect("signing with a shared secret succeeds");
    let first = apply(store, &rotation.publish_access);
    let second = rotation.after_access(&first).map(|next| apply(store, next));
    rotation.complete(first, second).expect("both writes were stored")
}

fn authenticate(
    store: &HashMap<String, String>,
    header: Option<&str>,
    expected: TokenClass,
    now: u64,
) -> Result<String, Rejection> {
    match require_token_at(header, expected, SECRET, now) {
        Guard::Rejected(why) => Err(why),
        Guard::Verified { claims, key } => settle(&claims, &Ok(store.get(&key).cloned())),
    }
}

fn bearer(token: &str) -> String {
    format!("Bearer {token}")
}

#[test]
fn token_class_names_and_lifetimes() {
    assert_eq!(TokenClass::Access.as_str(), "access");
    assert_eq!(TokenClass::Refresh.as_str(), "refresh");
    assert_eq!(TokenClass::Access.lifetime_secs(), 900);
    assert_eq!(TokenClass::Refresh.lifetime_secs(), 604_800);
}

#[test]
fn issued_claims_hold_subject_identifier_expiry_and_class() {
    let issued = create_jwt("u1", SECRET, 900, "access", NOW, "j1".to_string()).unwrap();
    assert_eq!(issued.claims.sub, "u1");
    assert_eq!(issued.claims.jti, "j1");
    assert_eq!(issued.claims.exp, NOW + 900);
    assert_eq!(issued.claims.token_type, "access");
    let refresh = create_jwt("u1", SECRET, 604_800, "refresh", NOW, "k1".to_string()).unwrap();
    assert_eq!(refresh.claims.exp, NOW + 604_800);
    assert_eq!(refresh.claims.token_type, "refresh");
}

#[test]
fn token_is_compact_three_part_text() {
    let issued = create_jwt("u1", SECRET, 900, "access", NOW, "j1".to_string()).unwrap();
    assert_eq!(issued.token.split('.').count(), 3);
    assert_ne!(issued.token, "u1");
    assert!(issued.token.starts_with("eyJ"));
}

#[test]
fn signing_is_deterministic_in_claims_and_secret() {
    let first = create_jwt("u1", SECRET, 900, "access", NOW, "j1".to_string()).unwrap();
    let again = create_jwt("u1", SECRET, 900, "access", NOW, "j1".to_string()).unwrap();
    let other = create_jwt("u1", SECRET, 900, "access", NOW, "j2".to_string()).unwrap();
    let other_secret = create_jwt("u1", "another", 900, "access", NOW, "j1".to_string()).unwrap();
    assert_eq!(first.token, again.token);
    assert_ne!(first.token, other.token);
    assert_ne!(first.token, other_secret.token);
}

#[test]
fn round_trip_returns_the_claims_that_were_signed() {
    for (user, jti, class) in [
        ("u1", "j1", TokenClass::Access),
        ("user with spaces", "k-2", TokenClass::Refresh),
        ("\u{00e9}l\u{00e8}ve \"quoted\" \\ \n", "", TokenClass::Access),
    ] {
        let issued =
            create_jwt(user, SECRET, class.lifetime_secs(), class.as_str(), NOW, jti.to_string())
                .unwrap();
        let claims = decode_jwt_at(&issued.token, SECRET, NOW).unwrap();
        assert_eq!(claims.sub, user);
        assert_eq!(claims.jti, jti);
        assert_eq!(claims.exp, NOW + class.lifetime_secs());
        assert_eq!(claims.token_type, class.as_str());
    }
}

#[test]
fn round_trip_of_a_claim_set_signed_directly() {
    let claims = Claims {
        sub: "u9".to_string(),
        jti: "j9".to_string(),
        exp: u64::MAX,
        token_type: "refresh".to_string(),
    };
    let token = sign(&claims, "").unwrap();
    let read = decode_jwt_at(&token, "", u64::MAX).unwrap();
    assert_eq!(read.sub, "u9");
    assert_eq!(read.jti, "j9");
    assert_eq!(read.exp, u64::MAX);
    assert_eq!(read.token_type, "refresh");
}

#[test]
fn expiry_boundary() {
    let issued = create_jwt("u1", SECRET, 900, "access", NOW, "j1".to_string()).unwrap();
    let exp = NOW + 900;
    assert!(decode_jwt_at(&issued.token, SECRET, exp - 1).is_ok());
    assert!(decode_jwt_at(&issued.token, SECRET, exp).is_ok());
    assert_eq!(decode_jwt_at(&issued.token, SECRET, exp + 1).unwrap_err(), TokenError::Expired);
    assert_eq!(decode_jwt_at(&issued.token, SECRET, u64::MAX).unwrap_err(), TokenError::Expired);
}

#[test]
fn expired_token_is_rejected_by_the_guard_and_accepted_one_second_before() {
    let mut store = HashMap::new();
    let (access, _) = rotate(&mut store, "u1", NOW, "j1", "k1");
    let header = bearer(&access);
    let exp = NOW + 900;
    assert_eq!(
        authenticate(&store, Some(&header), TokenClass::Access, exp - 1),
        Ok("u1".to_string())
    );
    assert_eq!(
        authenticate(&store, Some(&header), TokenClass::Access, exp + 1),
        Err(Rejection::InvalidToken)
    );
}

#[test]
fn wrong_secret_is_a_signature_mismatch() {
    let issued = create_jwt("u1", SECRET, 900, "access", NOW, "j1".to_string()).unwrap();
    assert_eq!(
        decode_jwt_at(&issued.token, "not the secret", NOW).unwrap_err(),
        TokenError::SignatureMismatch
    );
}

#[test]
fn tampered_payload_is_a_signature_mismatch() {
    let issued = create_jwt("u1", SECRET, 900, "access", NOW, "j1".to_string()).unwrap();
    let forged = create_jwt("u2", "forger", 900, "access", NOW, "j1".to_string()).unwrap();
    let parts: Vec<&str> = issued.token.split('.').collect();
    let forged_parts: Vec<&str> = forged.token.split('.').collect();
    let spliced = format!("{}.{}.{}", parts[0], forged_parts[1], parts[2]);
    assert_eq!(
        decode_jwt_at(&spliced, SECRET, NOW).unwrap_err(),
        TokenError::SignatureMismatch
    );
}

#[test]
fn text_that_is_no_token_is_malformed() {
    for text in ["", "abc", "a.b", "a.b.c.d", "not a token at all", "..", "e30.e30."] {
        assert_eq!(decode_jwt_at(text, SECRET, NOW).unwrap_err(), TokenError::Malformed, "{text}");
    }
}

#[test]
fn payload_that_is_no_claim_set_is_malformed() {
    let object = serde_json::Map::from_iter([
        ("sub".to_string(), serde_json::Value::from("u1")),
        ("exp".to_string(), serde_json::Value::from(NOW + 900)),
    ]);
    let key = jsonwebtoken::EncodingKey::from_secret(SECRET.as_bytes());
    let token = jsonwebtoken::encode(&jsonwebtoken::Header::default(), &object, &key).unwrap();
    assert_eq!(decode_jwt_at(&token, SECRET, NOW).unwrap_err(), TokenError::Malformed);
}

#[test]
fn claim_of_the_wrong_kind_is_malformed() {
    let object = serde_json::Map::from_iter([
        ("sub".to_string(), serde_json::Value::from("u1")),
        ("jti".to_string(), serde_json::Value::from(7u64)),
        ("exp".to_string(), serde_json::Value::from(NOW + 900)),
        ("token_type".to_string(), serde_json::Value::from("access")),
    ]);
    let key = jsonwebtoken::EncodingKey::from_secret(SECRET.as_bytes());
    let token = jsonwebtoken::encode(&jsonwebtoken::Header::default(), &object, &key).unwrap();
    assert_eq!(decode_jwt_at(&token, SECRET, NOW).unwrap_err(), TokenError::Malformed);
    let negative = serde_json::Map::from_iter([
        ("sub".to_string(), serde_json::Value::from("u1")),
        ("jti".to_string(), serde_json::Value::from("j1")),
        ("exp".to_string(), serde_json::Value::from(-5i64)),
        ("token_type".to_string(), serde_json::Value::from("access")),
    ]);
    let token = jsonwebtoken::encode(&jsonwebtoken::Header::default(), &negative, &key).unwrap();
    assert_eq!(decode_jwt_at(&token, SECRET, NOW).unwrap_err(), TokenError::Malformed);
}

#[test]
fn extra_members_of_the_payload_are_passed_over() {
    let object = serde_json::Map::from_iter([
        ("sub".to_string(), serde_json::Value::from("u1")),
        ("jti".to_string(), serde_json::Value::from("j1")),
        ("exp".to_string(), serde_json::Value::from(NOW + 900)),
        ("token_type".to_string(), serde_json::Value::from("access")),
        ("iss".to_string(), serde_json::Value::from("someone")),
        ("nbf".to_string(), serde_json::Value::from(u64::MAX)),
        ("nested".to_string(), serde_json::Value::Array(vec![serde_json::Value::Null])),
    ]);
    let key = jsonwebtoken::EncodingKey::from_secret(SECRET.as_bytes());
    let token = jsonwebtoken::encode(&jsonwebtoken::Header::default(), &object, &key).unwrap();
    let claims = decode_jwt_at(&token, SECRET, NOW).unwrap();
    assert_eq!(claims.sub, "u1");
    assert_eq!(claims.jti, "j1");
}

#[test]
fn tokens_interoperate_with_the_signing_scheme() {
    let issued = create_jwt("u1", SECRET, 900, "access", NOW, "j1".to_string()).unwrap();
    let mut checks = jsonwebtoken::Validation::new(jsonwebtoken::Algorithm::HS256);
    checks.validate_exp = false;
    let key = jsonwebtoken::DecodingKey::from_secret(SECRET.as_bytes());
    let data = jsonwebtoken::decode::<serde_json::Value>(&issued.token, &key, &checks).unwrap();
    assert_eq!(data.header.alg, jsonwebtoken::Algorithm::HS256);
    assert_eq!(data.claims["sub"], "u1");
    assert_eq!(data.claims["jti"], "j1");
    assert_eq!(data.claims["exp"], NOW + 900);
    assert_eq!(data.claims["token_type"], "access");
    assert_eq!(data.claims.as_object().unwrap().len(), 4);
}

#[test]
fn token_signed_with_another_algorithm_is_malformed() {
    let object = serde_json::Map::from_iter([
        ("sub".to_string(), serde_json::Value::from("u1")),
        ("jti".to_string(), serde_json::Value::from("j1")),
        ("exp".to_string(), serde_json::Value::from(NOW + 900)),
        ("token_type".to_string(), serde_json::Value::from("access")),
    ]);
    let key = jsonwebtoken::EncodingKey::from_secret(SECRET.as_bytes());
    let header = jsonwebtoken::Header::new(jsonwebtoken::Algorithm::HS512);
    let token = jsonwebtoken::encode(&header, &object, &key).unwrap();
    assert_eq!(decode_jwt_at(&token, SECRET, NOW).unwrap_err(), TokenError::Malformed);
}

#[test]
fn bearer_value_is_what_follows_the_prefix() {
    assert_eq!(bearer_token(Some("Bearer abc.def.ghi")), Some("abc.def.ghi".to_string()));
    assert_eq!(bearer_token(Some("Bearer ")), Some(String::new()));
    assert_eq!(bearer_token(Some("Bearer  x")), Some(" x".to_string()));
    assert_eq!(bearer_token(Some("bearer abc")), None);
    assert_eq!(bearer_token(Some("Bearer")), None);
    assert_eq!(bearer_token(Some("Basic abc")), None);
    assert_eq!(bearer_token(Some("")), None);
    assert_eq!(bearer_token(None), None);
}

#[test]
fn absent_header_is_missing_token() {
    let store = HashMap::new();
    assert_eq!(
        authenticate(&store, None, TokenClass::Access, NOW),
        Err(Rejection::MissingToken)
    );
    assert_eq!(
        authenticate(&store, Some("Basic dXNlcjpwdw=="), TokenClass::Refresh, NOW),
        Err(Rejection::MissingToken)
    );
}

#[test]
fn invalid_token_yields_the_general_verdict() {
    let store = HashMap::new();
    for value in ["Bearer ", "Bearer garbage", "Bearer a.b.c", "Bearer \u{1F600}"] {
        assert_eq!(
            authenticate(&store, Some(value), TokenClass::Access, NOW),
            Err(Rejection::InvalidToken)
        );
    }
    let issued = create_jwt("u1", "other secret", 900, "access", NOW, "j1".to_string()).unwrap();
    assert_eq!(
        authenticate(&store, Some(&bearer(&issued.token)), TokenClass::Access, NOW),
        Err(Rejection::InvalidToken)
    );
}

#[test]
fn class_separation() {
    let mut store = HashMap::new();
    let (access, refresh) = rotate(&mut store, "u1", NOW, "j1", "k1");
    assert_eq!(
        authenticate(&store, Some(&bearer(&access)), TokenClass::Refresh, NOW),
        Err(Rejection::WrongTokenClass)
    );
    assert_eq!(
        authenticate(&store, Some(&bearer(&refresh)), TokenClass::Access, NOW),
        Err(Rejection::WrongTokenClass)
    );
    assert_eq!(
        authenticate(&store, Some(&bearer(&access)), TokenClass::Access, NOW),
        Ok("u1".to_string())
    );
    assert_eq!(
        authenticate(&store, Some(&bearer(&refresh)), TokenClass::Refresh, NOW),
        Ok("u1".to_string())
    );
}

#[test]
fn token_of_an_unknown_class_is_of_the_wrong_class() {
    let store = HashMap::new();
    let issued = create_jwt("u1", SECRET, 900, "admin", NOW, "j1".to_string()).unwrap();
    assert_eq!(
        authenticate(&store, Some(&bearer(&issued.token)), TokenClass::Access, NOW),
        Err(Rejection::WrongTokenClass)
    );
}

#[test]
fn refresh_after_login_supersedes_the_first_pair() {
    let mut store = HashMap::new();
    let (a1, r1) = rotate(&mut store, "u1", NOW, "j1", "k1");
    assert_eq!(store.get("access_jti:u1").map(String::as_str), Some("j1"));
    assert_eq!(store.get("refresh_jti:u1").map(String::as_str), Some("k1"));
    assert_eq!(store.len(), 2);
    assert_eq!(
        authenticate(&store, Some(&bearer(&r1)), TokenClass::Refresh, NOW + 60),
        Ok("u1".to_string())
    );

    let (a2, r2) = rotate(&mut store, "u1", NOW + 60, "j2", "k2");
    assert_eq!(store.get("access_jti:u1").map(String::as_str), Some("j2"));
    assert_eq!(store.get("refresh_jti:u1").map(String::as_str), Some("k2"));
    assert_eq!(store.len(), 2);

    assert!(decode_jwt_at(&a1, SECRET, NOW + 61).is_ok());
    assert_eq!(
        authenticate(&store, Some(&bearer(&a1)), TokenClass::Access, NOW + 61),
        Err(Rejection::StaleOrUnknownSession)
    );
    assert_eq!(
        authenticate(&store, Some(&bearer(&r1)), TokenClass::Refresh, NOW + 61),
        Err(Rejection::StaleOrUnknownSession)
    );
    assert_eq!(
        authenticate(&store, Some(&bearer(&a2)), TokenClass::Access, NOW + 61),
        Ok("u1".to_string())
    );
    assert_eq!(
        authenticate(&store, Some(&bearer(&r2)), TokenClass::Refresh, NOW + 61),
        Ok("u1".to_string())
    );
}

#[test]
fn rotation_of_one_user_leaves_the_others_alone() {
    let mut store = HashMap::new();
    let (a1, _) = rotate(&mut store, "u1", NOW, "j1", "k1");
    let (b1, _) = rotate(&mut store, "u2", NOW, "j1", "k1");
    let _ = rotate(&mut store, "u2", NOW, "j2", "k2");
    assert_eq!(
        authenticate(&store, Some(&bearer(&a1)), TokenClass::Access, NOW),
        Ok("u1".to_string())
    );
    assert_eq!(
        authenticate(&store, Some(&bearer(&b1)), TokenClass::Access, NOW),
        Err(Rejection::StaleOrUnknownSession)
    );
}

#[test]
fn unknown_session_and_unavailable_registry_fail_closed() {
    let store = HashMap::new();
    let issued = create_jwt("u1", SECRET, 900, "access", NOW, "j1".to_string()).unwrap();
    let header = bearer(&issued.token);
    assert_eq!(
        authenticate(&store, Some(&header), TokenClass::Access, NOW),
        Err(Rejection::StaleOrUnknownSession)
    );
    match require_token_at(Some(&header), TokenClass::Access, SECRET, NOW) {
        Guard::Verified { claims, key } => {
            assert_eq!(key, "access_jti:u1");
            assert_eq!(
                settle(&claims, &Err(RegistryError::Unavailable)),
                Err(Rejection::StaleOrUnknownSession)
            );
            assert_eq!(settle(&claims, &Ok(None)), Err(Rejection::StaleOrUnknownSession));
            assert_eq!(
                settle(&claims, &Ok(Some("j1 ".to_string()))),
                Err(Rejection::StaleOrUnknownSession)
            );
            assert_eq!(settle(&claims, &Ok(Some("j1".to_string()))), Ok("u1".to_string()));
        }
        Guard::Rejected(why) => panic!("rejected: {why:?}"),
    }
}

#[test]
fn rotation_names_its_two_writes_in_order() {
    let rotation =
        update_jwt_at("u1", SECRET, NOW, "j1".to_string(), "k1".to_string()).unwrap();
    assert_eq!(rotation.publish_access.key, "access_jti:u1");
    assert_eq!(rotation.publish_access.value, "j1");
    assert_eq!(rotation.publish_refresh.key, "refresh_jti:u1");
    assert_eq!(rotation.publish_refresh.value, "k1");
    assert_eq!(rotation.access.claims.exp, NOW + 900);
    assert_eq!(rotation.refresh.claims.exp, NOW + 604_800);
    assert_eq!(rotation.access.claims.token_type, "access");
    assert_eq!(rotation.refresh.claims.token_type, "refresh");
}

fn sample_rotation() -> Rotation {
    update_jwt_at("u1", SECRET, NOW, "j1".to_string(), "k1".to_string()).unwrap()
}

#[test]
fn failed_write_withholds_the_tokens() {
    let access = sample_rotation().access.token.clone();
    let refresh = sample_rotation().refresh.token.clone();
    assert_eq!(sample_rotation().complete(Ok(()), Some(Ok(()))), Ok((access, refresh)));
    assert_eq!(
        sample_rotation().complete(Err(RegistryError::Unavailable), None),
        Err(RegistryError::Unavailable)
    );
    assert_eq!(
        sample_rotation().complete(Err(RegistryError::InvalidTokenType), Some(Ok(()))),
        Err(RegistryError::InvalidTokenType)
    );
    assert_eq!(
        sample_rotation().complete(Ok(()), Some(Err(RegistryError::InvalidTokenType))),
        Err(RegistryError::InvalidTokenType)
    );
    assert_eq!(
        sample_rotation().complete(
            Err(RegistryError::InvalidTokenType),
            Some(Err(RegistryError::Unavailable))
        ),
        Err(RegistryError::InvalidTokenType)
    );
    assert_eq!(sample_rotation().complete(Ok(()), None), Err(RegistryError::Unavailable));
}

#[test]
fn refresh_write_is_tried_only_after_the_access_write_was_stored() {
    let rotation = sample_rotation();
    let next = rotation.after_access(&Ok(())).expect("the refresh write comes next");
    assert_eq!((next.key.as_str(), next.value.as_str()), ("refresh_jti:u1", "k1"));
    assert!(rotation.after_access(&Err(RegistryError::Unavailable)).is_none());
    assert!(rotation.after_access(&Err(RegistryError::InvalidTokenType)).is_none());
}

#[test]
fn abandoned_rotation_leaves_the_old_refresh_token_current() {
    let mut store = HashMap::new();
    let (a1, r1) = rotate(&mut store, "u1", NOW, "j1", "k1");
    let second =
        update_jwt_at("u1", SECRET, NOW, "j2".to_string(), "k2".to_string()).unwrap();
    apply(&mut store, &second.publish_access).unwrap();
    assert_eq!(
        authenticate(&store, Some(&bearer(&a1)), TokenClass::Access, NOW),
        Err(Rejection::StaleOrUnknownSession)
    );
    assert_eq!(
        authenticate(&store, Some(&bearer(&r1)), TokenClass::Refresh, NOW),
        Ok("u1".to_string())
    );
    assert_eq!(
        authenticate(&store, Some(&bearer(&second.refresh.token)), TokenClass::Refresh, NOW),
        Err(Rejection::StaleOrUnknownSession)
    );
}

#[test]
fn registry_key_format() {
    assert_eq!(jti_key("u1", "access"), Ok("access_jti:u1".to_string()));
    assert_eq!(jti_key("u1", "refresh"), Ok("refresh_jti:u1".to_string()));
    assert_eq!(jti_key("", "access"), Ok("access_jti:".to_string()));
    assert_eq!(jti_key("a:b", "refresh"), Ok("refresh_jti:a:b".to_string()));
}

#[test]
fn unknown_token_type_is_refused_by_the_registry() {
    for token_type in ["", "Access", "access ", "id", "refresh_jti"] {
        assert_eq!(jti_key("u1", token_type), Err(RegistryError::InvalidTokenType));
        assert_eq!(
            set_valid_jti("u1", "j1", token_type).unwrap_err(),
            RegistryError::InvalidTokenType
        );
    }
}

#[test]
fn publish_overwrites_unconditionally() {
    let mut store = HashMap::new();
    let first = set_valid_jti("u1", "j1", "access").unwrap();
    let second = set_valid_jti("u1", "j2", "access").unwrap();
    assert_eq!(first.key, second.key);
    apply(&mut store, &first).unwrap();
    apply(&mut store, &second).unwrap();
    assert_eq!(store.len(), 1);
    assert!(is_jti_valid(&store.get(&first.key).cloned(), "j2"));
    assert!(!is_jti_valid(&store.get(&first.key).cloned(), "j1"));
}

#[test]
fn stored_value_must_equal_the_identifier_exactly() {
    assert!(is_jti_valid(&Some("j1".to_string()), "j1"));
    assert!(!is_jti_valid(&Some("J1".to_string()), "j1"));
    assert!(!is_jti_valid(&Some("j1".to_string()), "j"));
    assert!(!is_jti_valid(&Some(String::new()), "j1"));
    assert!(is_jti_valid(&Some(String::new()), ""));
    assert!(!is_jti_valid(&None, "j1"));
    assert!(!is_jti_valid(&None, ""));
}

#[test]
fn tokens_issued_now_verify_now() {
    let access = create_access_token("u1", SECRET).unwrap();
    let refresh = create_refresh_token("u1", SECRET).unwrap();
    assert_eq!(access.claims.sub, "u1");
    assert_eq!(access.claims.token_type, "access");
    assert_eq!(refresh.claims.token_type, "refresh");
    assert_eq!(refresh.claims.exp - access.claims.exp, 604_800 - 900);
    assert_ne!(access.claims.jti, refresh.claims.jti);
    assert_eq!(access.claims.jti.len(), 36);
    let read = decode_jwt(&access.token, SECRET).unwrap();
    assert_eq!(read.jti, access.claims.jti);
    assert_eq!(read.exp, access.claims.exp);
    assert_eq!(decode_jwt("junk", SECRET).unwrap_err(), TokenError::Malformed);
}

#[test]
fn session_rotated_now_is_accepted_now() {
    let mut store = HashMap::new();
    let rotation = update_jwt("u7", SECRET).unwrap();
    let another = update_jwt("u7", SECRET).unwrap();
    assert_ne!(rotation.access.claims.jti, another.access.claims.jti);
    assert_ne!(rotation.refresh.claims.jti, another.refresh.claims.jti);
    apply(&mut store, &rotation.publish_access).unwrap();
    apply(&mut store, &rotation.publish_refresh).unwrap();
    let header = bearer(&rotation.access.token);
    match require_access_token(Some(&header), SECRET) {
        Guard::Verified { claims, key } => {
            assert_eq!(key, "access_jti:u7");
            assert_eq!(settle(&claims, &Ok(store.get(&key).cloned())), Ok("u7".to_string()));
        }
        Guard::Rejected(why) => panic!("rejected: {why:?}"),
    }
    match require_refresh_token(Some(&header), SECRET) {
        Guard::Rejected(why) => assert_eq!(why, Rejection::WrongTokenClass),
        Guard::Verified { .. } => panic!("an access token passed for a refresh token"),
    }
    match require_access_token(None, SECRET) {
        Guard::Rejected(why) => assert_eq!(why, Rejection::MissingToken),
        Guard::Verified { .. } => panic!("accepted without a token"),
    }
}

/// The bytes that a text in the URL-safe base64 alphabet without padding
/// stands for.
fn base64url(text: &str) -> Vec<u8> {
    let alphabet = "ABCDEFGHIJKLMNOPQRSTUVWXYZabcdefghijklmnopqrstuvwxyz0123456789-_";
    let mut bytes = Vec::new();
    let mut buffer: u32 = 0;
    let mut bits = 0;
    for c in text.chars() {
        let digit = alphabet.find(c).expect("a character of the alphabet") as u32;
        buffer = (buffer << 6) | digit;
        bits += 6;
        if bits >= 8 {
            bits -= 8;
            bytes.push((buffer >> bits) as u8);
            buffer &= (1 << bits) - 1;
        }
    }
    bytes
}

#[test]
fn claim_members_are_written_in_a_fixed_order() {
    let issued = create_jwt("u1", SECRET, 900, "access", NOW, "j1".to_string()).unwrap();
    let parts: Vec<&str> = issued.token.split('.').collect();
    assert_eq!(
        String::from_utf8(base64url(parts[0])).unwrap(),
        r#"{"typ":"JWT","alg":"HS256"}"#
    );
    assert_eq!(
        String::from_utf8(base64url(parts[1])).unwrap(),
        r#"{"sub":"u1","jti":"j1","exp":1700000900,"token_type":"access"}"#
    );
    let mut object = serde_json::Map::new();
    object.insert("sub".to_string(), serde_json::Value::from("u1"));
    object.insert("jti".to_string(), serde_json::Value::from("j1"));
    object.insert("exp".to_string(), serde_json::Value::from(NOW + 900));
    object.insert("token_type".to_string(), serde_json::Value::from("access"));
    let key = jsonwebtoken::EncodingKey::from_secret(SECRET.as_bytes());
    let expected = jsonwebtoken::encode(&jsonwebtoken::Header::default(), &object, &key).unwrap();
    assert_eq!(issued.token, expected);
}

#[test]
fn token_that_names_an_audience_is_malformed() {
    let key = jsonwebtoken::EncodingKey::from_secret(SECRET.as_bytes());
    for audience in [
        serde_json::Value::from("someone"),
        serde_json::Value::Array(vec![serde_json::Value::from("one")]),
    ] {
        let object = serde_json::Map::from_iter([
            ("sub".to_string(), serde_json::Value::from("u1")),
            ("jti".to_string(), serde_json::Value::from("j1")),
            ("exp".to_string(), serde_json::Value::from(NOW + 900)),
            ("token_type".to_string(), serde_json::Value::from("access")),
            ("aud".to_string(), audience),
        ]);
        let token =
            jsonwebtoken::encode(&jsonwebtoken::Header::default(), &object, &key).unwrap();
        assert_eq!(decode_jwt_at(&token, SECRET, NOW).unwrap_err(), TokenError::Malformed);
        let store = HashMap::new();
        assert_eq!(
            authenticate(&store, Some(&bearer(&token)), TokenClass::Access, NOW),
            Err(Rejection::InvalidToken)
        );
    }
}

#[test]
fn class_names_are_parsed_exactly() {
    assert_eq!(TokenClass::parse("access"), Some(TokenClass::Access));
    assert_eq!(TokenClass::parse("refresh"), Some(TokenClass::Refresh));
    for name in ["", "Access", "REFRESH", "access ", " refresh", "acces", "refreshh"] {
        assert_eq!(TokenClass::parse(name), None, "{name}");
    }
}

#[test]
fn key_and_write_for_a_class() {
    assert_eq!(session_key("u1", TokenClass::Access), "access_jti:u1");
    assert_eq!(session_key("u1", TokenClass::Refresh), "refresh_jti:u1");
    assert_eq!(session_key("", TokenClass::Refresh), "refresh_jti:");
    let write = publish("u1", TokenClass::Refresh, "k1");
    assert_eq!((write.key.as_str(), write.value.as_str()), ("refresh_jti:u1", "k1"));
    let same = set_valid_jti("u1", "k1", "refresh").unwrap();
    assert_eq!((same.key, same.value), (write.key, write.value));
    assert_eq!(REGISTRY_TIMEOUT_SECS, 5);
}

#[test]
fn interleaved_rotations_leave_a_torn_pair() {
    let mut store = HashMap::new();
    let first = update_jwt_at("u1", SECRET, NOW, "j1".to_string(), "k1".to_string()).unwrap();
    let second = update_jwt_at("u1", SECRET, NOW, "j2".to_string(), "k2".to_string()).unwrap();
    apply(&mut store, &first.publish_access).unwrap();
    apply(&mut store, &second.publish_access).unwrap();
    apply(&mut store, &second.publish_refresh).unwrap();
    apply(&mut store, &first.publish_refresh).unwrap();
    assert_eq!(store.get("access_jti:u1").map(String::as_str), Some("j2"));
    assert_eq!(store.get("refresh_jti:u1").map(String::as_str), Some("k1"));
    assert_eq!(
        authenticate(&store, Some(&bearer(&second.access.token)), TokenClass::Access, NOW),
        Ok("u1".to_string())
    );
    assert_eq!(
        authenticate(&store, Some(&bearer(&first.refresh.token)), TokenClass::Refresh, NOW),
        Ok("u1".to_string())
    );
    assert_eq!(
        authenticate(&store, Some(&bearer(&first.access.token)), TokenClass::Access, NOW),
        Err(Rejection::StaleOrUnknownSession)
    );
    assert_eq!(
        authenticate(&store, Some(&bearer(&second.refresh.token)), TokenClass::Refresh, NOW),
        Err(Rejection::StaleOrUnknownSession)
    );
}
