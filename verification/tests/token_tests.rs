use backend::digest::sha256;
use backend::jwt::{
    claims_payload, encode_claims, make_access_token, make_jwt, make_refresh_token, now_secs,
    JwtError, ACCESS_TTL, REFRESH_TTL,
};
use backend::models::Claims;
use jsonwebtoken::{decode, DecodingKey, Validation};

fn decode_value(token: &str, secret: &str) -> serde_json::Value {
    decode::<serde_json::Value>(token, &DecodingKey::from_secret(secret.as_bytes()), &Validation::default())
        .unwrap()
        .claims
}

#[test]
fn ttl_constants() {
    assert_eq!(ACCESS_TTL, 900);
    assert_eq!(REFRESH_TTL, 604800);
}

#[test]
fn sha256_known_vectors() {
    assert_eq!(sha256("abc"), "ba7816bf8f01cfea414140de5dae2223b00361a396177a9cb410ff61f20015ad");
    assert_eq!(sha256(""), "e3b0c44298fc1c149afbf4c8996fb92427ae41e4649b934ca495991b7852b855");
}

#[test]
fn sha256_is_lower_hex_of_length_64() {
    let d = sha256("refresh-token-value");
    assert_eq!(d.len(), 64);
    assert!(d.chars().all(|c| c.is_ascii_digit() || ('a'..='f').contains(&c)));
    assert_eq!(d, sha256("refresh-token-value"));
    assert_ne!(d, sha256("refresh-token-valuf"));
}

#[test]
fn claims_payload_matches_serde_layout() {
    let c = Claims { sub: "alice".to_string(), exp: 1700000000, token_type: "access".to_string() };
    assert_eq!(claims_payload(&c), r#"{"sub":"alice","exp":1700000000,"token_type":"access"}"#);
}

#[test]
fn claims_payload_escapes_like_serde_json() {
    let sub = "a\"b\\c\nd\te\u{1}f\u{8}\u{c}\r\u{1f}\u{7f}é";
    let c = Claims { sub: sub.to_string(), exp: 0, token_type: "refresh".to_string() };
    let expected = format!(
        "{{\"sub\":{},\"exp\":0,\"token_type\":\"refresh\"}}",
        serde_json::to_string(sub).unwrap()
    );
    assert_eq!(claims_payload(&c), expected);
    let v: serde_json::Value = serde_json::from_str(&claims_payload(&c)).unwrap();
    assert_eq!(v["sub"], sub);
}

#[test]
fn encode_claims_round_trips_through_decoder() {
    let exp = now_secs().unwrap() as usize + 1000;
    let c = Claims { sub: "bob".to_string(), exp, token_type: "access".to_string() };
    let t = encode_claims(&c, "s3cret").unwrap();
    assert_eq!(t.split('.').count(), 3);
    assert!(t.chars().all(|ch| ch.is_ascii_alphanumeric() || ch == '-' || ch == '_' || ch == '.'));
    let v = decode_value(&t, "s3cret");
    assert_eq!(v["sub"], "bob");
    assert_eq!(v["exp"].as_u64().unwrap() as usize, exp);
    assert_eq!(v["token_type"], "access");
    assert!(decode::<serde_json::Value>(&t, &DecodingKey::from_secret(b"other"), &Validation::default()).is_err());
}

#[test]
fn encode_claims_is_deterministic() {
    let c = Claims { sub: "bob".to_string(), exp: 42, token_type: "refresh".to_string() };
    assert_eq!(encode_claims(&c, "k").unwrap(), encode_claims(&c, "k").unwrap());
    assert_ne!(encode_claims(&c, "k").unwrap(), encode_claims(&c, "k2").unwrap());
}

#[test]
fn now_secs_reads_the_clock() {
    let n = now_secs().unwrap();
    assert!(n > 1_600_000_000);
}

#[test]
fn access_token_claims() {
    let before = now_secs().unwrap();
    let t = make_access_token("carol", "secret").unwrap();
    let after = now_secs().unwrap();
    let v = decode_value(&t, "secret");
    assert_eq!(v["sub"], "carol");
    assert_eq!(v["token_type"], "access");
    let exp = v["exp"].as_u64().unwrap();
    assert!(before + ACCESS_TTL <= exp && exp <= after + ACCESS_TTL);
}

#[test]
fn refresh_token_claims() {
    let before = now_secs().unwrap();
    let t = make_refresh_token("dave", "secret").unwrap();
    let after = now_secs().unwrap();
    let v = decode_value(&t, "secret");
    assert_eq!(v["sub"], "dave");
    assert_eq!(v["token_type"], "refresh");
    let exp = v["exp"].as_u64().unwrap();
    assert!(before + REFRESH_TTL <= exp && exp <= after + REFRESH_TTL);
}

#[test]
fn make_jwt_overflowing_expiry_is_time_error() {
    assert_eq!(make_jwt("x", u64::MAX, "access", "s"), Err(JwtError::TimeError));
}
