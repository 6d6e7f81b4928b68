use hmac::Mac;
use z2p_auth::signing::{query_string, sign, sign_hex, verify, QueryParams, SignatureError};
use z2p_auth::startup::HmacSecret;

fn key() -> HmacSecret {
    HmacSecret("Jefe".to_string())
}

#[test]
fn query_string_is_percent_encoded() {
    assert_eq!(query_string("Authentication failed"), "error=Authentication%20failed");
    assert_eq!(query_string("a&b=c~d"), "error=a%26b%3Dc~d");
}

#[test]
fn tag_is_hmac_sha256_of_query_string() {
    let mut mac = hmac::Hmac::<sha2::Sha256>::new_from_slice(b"Jefe").unwrap();
    mac.update(b"error=what%20do%20ya%20want");
    let expected = mac.finalize().into_bytes().to_vec();
    assert_eq!(sign("what do ya want", &key()), expected);
    assert_eq!(sign_hex("what do ya want", &key()), hex::encode(&expected));
}

#[test]
fn signed_message_verifies() {
    for m in ["", "Authentication failed", "ünïcode & more"] {
        let tag = sign(m, &key());
        assert_eq!(tag.len(), 32);
        assert_eq!(verify(m, &tag, &key()), Ok(()));
        let q = QueryParams { error: m.to_string(), tag: sign_hex(m, &key()) };
        assert_eq!(q.verify(&key()), Ok(m.to_string()));
    }
}

#[test]
fn uppercase_hex_tag_verifies() {
    let m = "Authentication failed";
    let q = QueryParams { error: m.to_string(), tag: sign_hex(m, &key()).to_uppercase() };
    assert_eq!(q.verify(&key()), Ok(m.to_string()));
}

#[test]
fn flipped_tag_bit_is_invalid() {
    let m = "Authentication failed";
    let tag = sign(m, &key());
    for i in 0..tag.len() {
        for bit in 0..8 {
            let mut t = tag.clone();
            t[i] ^= 1u8 << bit;
            assert_eq!(verify(m, &t, &key()), Err(SignatureError::Invalid));
        }
    }
}

#[test]
fn changed_message_byte_is_invalid() {
    let m = "Authentication failed";
    let tag = sign(m, &key());
    let bytes = m.as_bytes();
    for i in 0..bytes.len() {
        let mut changed = bytes.to_vec();
        changed[i] ^= 0x01;
        let changed = String::from_utf8(changed).unwrap();
        assert_eq!(verify(&changed, &tag, &key()), Err(SignatureError::Invalid));
    }
}

#[test]
fn short_or_empty_tag_is_invalid() {
    let m = "Authentication failed";
    let tag = sign(m, &key());
    assert_eq!(verify(m, &tag[..31], &key()), Err(SignatureError::Invalid));
    assert_eq!(verify(m, &[], &key()), Err(SignatureError::Invalid));
}

#[test]
fn non_hex_tag_is_malformed() {
    for tag in ["zz", "abc", "0g", "garbage-hex"] {
        let q = QueryParams { error: "hack".to_string(), tag: tag.to_string() };
        assert_eq!(q.verify(&key()), Err(SignatureError::Malformed));
    }
    let q = QueryParams { error: "hack".to_string(), tag: "00".repeat(32) };
    assert_eq!(q.verify(&key()), Err(SignatureError::Invalid));
}
