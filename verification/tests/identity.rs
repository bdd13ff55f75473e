use base64::prelude::BASE64_URL_SAFE_NO_PAD;
use base64::Engine;

use bex_auth::error::AuthError;
use bex_auth::identity::{
    id_from_digest, stable_u64, user_id_from_claims, user_id_from_id_token, ClaimValue, Claims,
};

fn id_token(payload: &[u8]) -> String {
    format!("aaa.{}.bbb", BASE64_URL_SAFE_NO_PAD.encode(payload))
}

fn claims(
    user_id: Option<ClaimValue>,
    zed_user_id: Option<ClaimValue>,
    sub: Option<ClaimValue>,
) -> Claims {
    Claims { user_id, zed_user_id, sub }
}

fn content(value: &str) -> Option<ClaimValue> {
    Some(ClaimValue::Text(value.to_string()))
}

#[test]
fn prefers_explicit_numeric_user_id_claim() {
    let token = id_token(br#"{"sub":"a-uuid","user_id":7}"#);
    assert_eq!(user_id_from_id_token(&token).unwrap(), 7);
}

#[test]
fn derives_stable_nonzero_u64_from_uuid_sub() {
    let token = id_token(br#"{"sub":"f25579e9-97ce-436a-805d-771975cb8fd2"}"#);
    let first = user_id_from_id_token(&token).unwrap();
    let second = user_id_from_id_token(&token).unwrap();
    assert_eq!(first, second, "derivation must be deterministic");
    assert_ne!(first, 0);
}

#[test]
fn distinct_subjects_derive_distinct_ids() {
    let a = user_id_from_id_token(&id_token(br#"{"sub":"alice"}"#)).unwrap();
    let b = user_id_from_id_token(&id_token(br#"{"sub":"bob"}"#)).unwrap();
    assert_ne!(a, b);
}

#[test]
fn errors_without_sub() {
    assert!(user_id_from_id_token(&id_token(br#"{"name":"x"}"#)).is_err());
}

#[test]
fn hashed_ids_are_the_opening_bytes_of_the_digest_made_odd() {
    assert_eq!(stable_u64(""), 0xe3b0c44298fc1c15);
    assert_eq!(stable_u64("abc"), 0xba7816bf8f01cfeb);
    assert_eq!(stable_u64("alice"), 0x2bd806c97f0e00af);
    assert_eq!(stable_u64("bob"), 0x81b637d8fcd2c6db);
    assert_eq!(stable_u64("h\u{e9}"), 0x7dfbe0eab96510b1);
    let token = id_token(br#"{"sub":"f25579e9-97ce-436a-805d-771975cb8fd2"}"#);
    assert_eq!(user_id_from_id_token(&token).unwrap(), 0x053a3106b8c3400b);
}

#[test]
fn digest_ids_read_eight_bytes_big_endian() {
    assert_eq!(id_from_digest(&[1, 2, 3, 4, 5, 6, 7, 8]), 0x0102030405060709);
    assert_eq!(id_from_digest(&[0, 0, 0, 0, 0, 0, 0, 0, 255]), 1);
    assert_eq!(id_from_digest(&[255; 32]), u64::MAX);
}

#[test]
fn user_id_goes_before_zed_user_id() {
    let token = id_token(br#"{"zed_user_id":8,"user_id":7,"sub":"alice"}"#);
    assert_eq!(user_id_from_id_token(&token).unwrap(), 7);
    let token = id_token(br#"{"zed_user_id":8,"sub":"alice"}"#);
    assert_eq!(user_id_from_id_token(&token).unwrap(), 8);
}

#[test]
fn numbers_may_be_written_as_strings() {
    let token = id_token(br#"{"user_id":"42"}"#);
    assert_eq!(user_id_from_id_token(&token).unwrap(), 42);
    let token = id_token(br#"{"user_id":"18446744073709551615"}"#);
    assert_eq!(user_id_from_id_token(&token).unwrap(), u64::MAX);
    let token = id_token(br#"{"user_id":18446744073709551615}"#);
    assert_eq!(user_id_from_id_token(&token).unwrap(), u64::MAX);
}

#[test]
fn claims_that_are_no_numbers_are_passed_over() {
    for payload in [
        r#"{"user_id":-1,"zed_user_id":9,"sub":"alice"}"#,
        r#"{"user_id":1.5,"zed_user_id":9,"sub":"alice"}"#,
        r#"{"user_id":"x","zed_user_id":9,"sub":"alice"}"#,
        r#"{"user_id":"","zed_user_id":9,"sub":"alice"}"#,
        r#"{"user_id":null,"zed_user_id":9,"sub":"alice"}"#,
        r#"{"user_id":[7],"zed_user_id":9,"sub":"alice"}"#,
        r#"{"user_id":"18446744073709551616","zed_user_id":9,"sub":"alice"}"#,
    ] {
        assert_eq!(user_id_from_id_token(&id_token(payload.as_bytes())).unwrap(), 9, "{payload}");
    }
    let token = id_token(br#"{"user_id":true,"zed_user_id":{},"sub":"alice"}"#);
    assert_eq!(user_id_from_id_token(&token).unwrap(), 0x2bd806c97f0e00af);
}

#[test]
fn claimed_zero_is_handed_on() {
    let token = id_token(br#"{"user_id":0,"sub":"alice"}"#);
    assert_eq!(user_id_from_id_token(&token).unwrap(), 0);
}

#[test]
fn only_the_payload_segment_counts() {
    let payload = BASE64_URL_SAFE_NO_PAD.encode(br#"{"sub":"alice"}"#);
    for token in [
        format!("aaa.{payload}.bbb"),
        format!(".{payload}"),
        format!("x.{payload}.y.z"),
        format!("\u{e9}\u{e9}.{payload}."),
    ] {
        assert_eq!(user_id_from_id_token(&token).unwrap(), 0x2bd806c97f0e00af, "{token}");
    }
}

#[test]
fn token_without_payload_is_malformed() {
    assert!(matches!(user_id_from_id_token(""), Err(AuthError::MalformedIdToken)));
    assert!(matches!(user_id_from_id_token("abc"), Err(AuthError::MalformedIdToken)));
}

#[test]
fn payload_has_to_be_unpadded_base64url() {
    assert!(matches!(
        user_id_from_id_token("a.e30=.b"),
        Err(AuthError::UndecodablePayload(_))
    ));
    assert!(matches!(user_id_from_id_token("a.+/.b"), Err(AuthError::UndecodablePayload(_))));
    let encoded = BASE64_URL_SAFE_NO_PAD.encode(r#"{"sub":"x???>>>"}"#);
    assert!(encoded.contains('_') && encoded.contains('-'), "{encoded}");
    assert_eq!(
        user_id_from_id_token(&format!("a.{encoded}.b")).unwrap(),
        stable_u64("x???>>>")
    );
}

#[test]
fn payload_has_to_be_json() {
    assert!(matches!(
        user_id_from_id_token(&id_token(b"not json")),
        Err(AuthError::UnparsedClaims(_))
    ));
    assert!(matches!(user_id_from_id_token("a..b"), Err(AuthError::UnparsedClaims(_))));
    assert!(matches!(
        user_id_from_id_token(&id_token(&[0xff, 0xfe])),
        Err(AuthError::UnparsedClaims(_))
    ));
}

#[test]
fn subject_has_to_be_a_string() {
    for payload in [r#"{"sub":7}"#, r#"{"sub":null}"#, "[]", "7", r#""sub""#] {
        assert!(
            matches!(
                user_id_from_id_token(&id_token(payload.as_bytes())),
                Err(AuthError::MissingSubject)
            ),
            "{payload}"
        );
    }
}

#[test]
fn claims_decide_without_a_token() {
    let number = Some(ClaimValue::Number(Some(7)));
    let other = Some(ClaimValue::Number(Some(8)));
    let alice: u64 = 0x2bd806c97f0e00af;
    let id = |c: Claims| user_id_from_claims(&c).unwrap();
    assert_eq!(id(claims(number.clone(), other.clone(), content("alice"))), 7);
    assert_eq!(id(claims(content("+5"), other.clone(), None)), 5);
    assert_eq!(id(claims(None, other.clone(), content("alice"))), 8);
    assert_eq!(id(claims(Some(ClaimValue::Other), other, None)), 8);
    assert_eq!(id(claims(Some(ClaimValue::Number(None)), None, content("alice"))), alice);
    assert_eq!(id(claims(None, content("-3"), content("alice"))), alice);
    assert!(matches!(
        user_id_from_claims(&claims(None, None, Some(ClaimValue::Number(Some(7))))),
        Err(AuthError::MissingSubject)
    ));
    assert!(matches!(
        user_id_from_claims(&claims(None, None, None)),
        Err(AuthError::MissingSubject)
    ));
}
