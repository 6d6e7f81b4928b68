use hmac::Mac;
use vstd::prelude::*;
use vstd::string::*;
use crate::startup::HmacSecret;

verus! {

/// Why a tagged error message was refused.
#[derive(Debug, Clone, Copy, PartialEq, Eq, Structural)]
pub enum SignatureError {
    /// The tag is not a hex string.
    Malformed,
    /// The tag is not the HMAC of the message under the secret.
    Invalid,
}

/// The error message and its hex-encoded tag, as received in the query of `GET /login`.
pub struct QueryParams {
    pub error: String,
    pub tag: String,
}

/// ASCII alphanumerics and `-`, `.`, `_`, `~` travel as they are.
pub open spec fn is_unreserved(b: u8) -> bool {
    (48 <= b <= 57) || (65 <= b <= 90) || (97 <= b <= 122) || b == 45 || b == 46 || b == 95 || b == 126
}

pub open spec fn upper_hex_digit(n: int) -> char {
    seq!['0', '1', '2', '3', '4', '5', '6', '7', '8', '9', 'A', 'B', 'C', 'D', 'E', 'F'][n]
}

pub open spec fn percent_encoded_byte(b: u8) -> Seq<char> {
    if is_unreserved(b) {
        seq![b as char]
    } else {
        seq!['%', upper_hex_digit(b as int / 16), upper_hex_digit(b as int % 16)]
    }
}

pub open spec fn percent_encoding(bytes: Seq<u8>) -> Seq<char>
    decreases bytes.len(),
{
    if bytes.len() == 0 {
        Seq::empty()
    } else {
        percent_encoding(bytes.drop_last()) + percent_encoded_byte(bytes.last())
    }
}

/// The percent-encoding of a string's UTF-8 bytes.
pub open spec fn url_encoded(s: Seq<char>) -> Seq<char> {
    percent_encoding(vstd::utf8::encode_utf8(s))
}

/// The HMAC-SHA256 of the message's UTF-8 bytes under the key's UTF-8 bytes.
pub uninterp spec fn hmac_sha256(key: Seq<char>, message: Seq<char>) -> Seq<u8>;

pub open spec fn is_hex_digit(c: char) -> bool {
    ('0' <= c && c <= '9') || ('a' <= c && c <= 'f') || ('A' <= c && c <= 'F')
}

pub open spec fn hex_value(c: char) -> int {
    if '0' <= c && c <= '9' {
        c as int - '0' as int
    } else if 'a' <= c && c <= 'f' {
        c as int - 'a' as int + 10
    } else {
        c as int - 'A' as int + 10
    }
}

pub open spec fn lower_hex_digit(n: int) -> char {
    seq!['0', '1', '2', '3', '4', '5', '6', '7', '8', '9', 'a', 'b', 'c', 'd', 'e', 'f'][n]
}

/// Lowercase hex: two digits per byte, high nibble first.
pub open spec fn hex_encoding(bytes: Seq<u8>) -> Seq<char> {
    Seq::new(
        2 * bytes.len(),
        |i: int|
            if i % 2 == 0 {
                lower_hex_digit(bytes[i / 2] as int / 16)
            } else {
                lower_hex_digit(bytes[i / 2] as int % 16)
            },
    )
}

/// A string decodes as hex when it has an even number of digits and nothing else.
pub open spec fn hex_decodes(s: Seq<char>) -> bool {
    s.len() % 2 == 0 && forall|i: int| 0 <= i < s.len() ==> is_hex_digit(#[trigger] s[i])
}

pub open spec fn hex_decoding(s: Seq<char>) -> Seq<u8> {
    Seq::new(s.len() / 2, |i: int| (16 * hex_value(s[2 * i]) + hex_value(s[2 * i + 1])) as u8)
}

pub open spec fn error_prefix() -> Seq<char> {
    seq!['e', 'r', 'r', 'o', 'r', '=']
}

/// The signed text: the query string exactly as it travels, `error=<percent-encoded message>`.
pub open spec fn query_string_of(message: Seq<char>) -> Seq<char> {
    error_prefix() + url_encoded(message)
}

/// The tag that belongs to a message under a key.
pub open spec fn signature_of(message: Seq<char>, key: Seq<char>) -> Seq<u8> {
    hmac_sha256(key, query_string_of(message))
}

/// The verdict on a message and a raw tag.
pub open spec fn tag_verdict(message: Seq<char>, tag: Seq<u8>, key: Seq<char>) -> Result<(), SignatureError> {
    if tag == signature_of(message, key) {
        Ok(())
    } else {
        Err(SignatureError::Invalid)
    }
}

/// The verdict on a message and a hex-encoded tag.
pub open spec fn query_verdict(message: Seq<char>, tag: Seq<char>, key: Seq<char>) -> Result<(), SignatureError> {
    if !hex_decodes(tag) {
        Err(SignatureError::Malformed)
    } else {
        tag_verdict(message, hex_decoding(tag), key)
    }
}

/// Relies on urlencoding::Encoded's Display, which writes every UTF-8 byte but ASCII
/// alphanumerics and `-`, `.`, `_`, `~` as `%` and two uppercase hex digits.
#[verifier::external_body]
fn url_encode(s: &str) -> (r: String)
    ensures
        r@ == percent_encoding(vstd::utf8::encode_utf8(s@)),
{
    urlencoding::Encoded::new(s).to_string()
}

/// Relies on hmac::Hmac<sha2::Sha256>: `new_from_slice` takes a key of any length, and
/// `finalize` gives the 32-byte tag of what `update` was fed.
#[verifier::external_body]
fn hmac_sha256_tag(key: &str, message: &str) -> (r: Vec<u8>)
    ensures
        r@ == hmac_sha256(key@, message@),
{
    let mut mac = hmac::Hmac::<sha2::Sha256>::new_from_slice(key.as_bytes()).unwrap();
    mac.update(message.as_bytes());
    mac.finalize().into_bytes().to_vec()
}

/// Relies on digest's Mac::verify_slice for hmac::Hmac<sha2::Sha256>: it succeeds exactly
/// when the tag equals the computed HMAC, compared in constant time.
#[verifier::external_body]
fn hmac_sha256_verify(key: &str, message: &str, tag: &[u8]) -> (r: bool)
    ensures
        r == (tag@ == hmac_sha256(key@, message@)),
{
    let mut mac = hmac::Hmac::<sha2::Sha256>::new_from_slice(key.as_bytes()).unwrap();
    mac.update(message.as_bytes());
    mac.verify_slice(tag).is_ok()
}

/// Relies on hex::encode: two lowercase digits for each byte, high nibble first.
#[verifier::external_body]
fn hex_encode(bytes: &[u8]) -> (r: String)
    ensures
        r@ == hex_encoding(bytes@),
{
    hex::encode(bytes)
}

/// Relies on hex::decode: it accepts an even number of upper- or lowercase digits and
/// fails on anything else.
#[verifier::external_body]
fn hex_decode(s: &str) -> (r: Option<Vec<u8>>)
    ensures
        r is Some <==> hex_decodes(s@),
        r is Some ==> r->0@ == hex_decoding(s@),
{
    hex::decode(s).ok()
}

proof fn lemma_lower_hex_digit(n: int)
    requires
        0 <= n < 16,
    ensures
        is_hex_digit(lower_hex_digit(n)),
        hex_value(lower_hex_digit(n)) == n,
{
    let digits = seq!['0', '1', '2', '3', '4', '5', '6', '7', '8', '9', 'a', 'b', 'c', 'd', 'e', 'f'];
    assert(lower_hex_digit(n) == digits[n]);
}

/// Hex decoding undoes hex encoding.
pub proof fn lemma_hex_round_trip(bytes: Seq<u8>)
    ensures
        hex_decodes(hex_encoding(bytes)),
        hex_decoding(hex_encoding(bytes)) == bytes,
{
    let s = hex_encoding(bytes);
    assert forall|i: int| 0 <= i < s.len() implies is_hex_digit(#[trigger] s[i]) by {
        let b = bytes[i / 2] as int;
        lemma_lower_hex_digit(b / 16);
        lemma_lower_hex_digit(b % 16);
    }
    assert(s.len() % 2 == 0);
    let d = hex_decoding(s);
    assert forall|j: int| 0 <= j < bytes.len() implies #[trigger] d[j] == bytes[j] by {
        let b = bytes[j] as int;
        lemma_lower_hex_digit(b / 16);
        lemma_lower_hex_digit(b % 16);
        assert((2 * j) / 2 == j && (2 * j + 1) / 2 == j && (2 * j) % 2 == 0 && (2 * j + 1) % 2 == 1);
        assert(s[2 * j] == lower_hex_digit(b / 16));
        assert(s[2 * j + 1] == lower_hex_digit(b % 16));
        assert(16 * (b / 16) + b % 16 == b);
    }
    assert(d =~= bytes);
}

/// A message signed under a key verifies under that key, both with the raw tag and with the
/// hex-encoded tag that travels in the URL.
pub proof fn lemma_sign_verify_round_trip(message: Seq<char>, key: Seq<char>)
    ensures
        tag_verdict(message, signature_of(message, key), key) == Ok::<(), SignatureError>(()),
        query_verdict(message, hex_encoding(signature_of(message, key)), key) == Ok::<(), SignatureError>(()),
{
    lemma_hex_round_trip(signature_of(message, key));
}

/// Flipping any one bit of a valid tag makes verification fail with `Invalid`.
pub proof fn lemma_flipped_tag_bit_rejected(message: Seq<char>, key: Seq<char>, i: int, bit: u8)
    requires
        0 <= i < signature_of(message, key).len(),
        bit < 8,
    ensures
        ({
            let tag = signature_of(message, key);
            tag_verdict(message, tag.update(i, tag[i] ^ (1u8 << bit)), key) == Err::<(), SignatureError>(SignatureError::Invalid)
        }),
{
    let tag = signature_of(message, key);
    let x = tag[i];
    assert(x ^ (1u8 << bit) != x) by (bit_vector)
        requires
            bit < 8,
    ;
    let flipped = tag.update(i, x ^ (1u8 << bit));
    assert(flipped[i] != tag[i]);
}

/// A tag is accepted for a message only if it is that message's own signature; any other
/// byte string, a tampered copy of another message's tag included, gives `Invalid`.
pub proof fn lemma_foreign_tag_rejected(message: Seq<char>, tag: Seq<u8>, key: Seq<char>)
    requires
        tag != signature_of(message, key),
    ensures
        tag_verdict(message, tag, key) == Err::<(), SignatureError>(SignatureError::Invalid),
{
}

/// The query string that carries a message: `error=<percent-encoded message>`.
pub fn query_string(message: &str) -> (r: String)
    ensures
        r@ == query_string_of(message@),
{
    let mut q = String::from_str("error=");
    proof {
        reveal_strlit("error=");
    }
    let encoded = url_encode(message);
    q.append(encoded.as_str());
    q
}

/// The tag of a message under the secret.
pub fn sign(message: &str, secret: &HmacSecret) -> (tag: Vec<u8>)
    ensures
        tag@ == signature_of(message@, secret.0@),
{
    let q = query_string(message);
    hmac_sha256_tag(secret.0.as_str(), q.as_str())
}

/// The tag of a message under the secret, hex-encoded for a URL.
pub fn sign_hex(message: &str, secret: &HmacSecret) -> (tag: String)
    ensures
        tag@ == hex_encoding(signature_of(message@, secret.0@)),
{
    let t = sign(message, secret);
    hex_encode(t.as_slice())
}

/// Checks a raw tag against a message.
pub fn verify(message: &str, tag: &[u8], secret: &HmacSecret) -> (r: Result<(), SignatureError>)
    ensures
        r == tag_verdict(message@, tag@, secret.0@),
{
    let q = query_string(message);
    if hmac_sha256_verify(secret.0.as_str(), q.as_str(), tag) {
        Ok(())
    } else {
        Err(SignatureError::Invalid)
    }
}

impl QueryParams {
    /// Hands back the error message only when the tag decodes and authenticates it.
    pub fn verify(self, secret: &HmacSecret) -> (r: Result<String, SignatureError>)
        ensures
            r is Ok <==> query_verdict(self.error@, self.tag@, secret.0@) is Ok,
            r is Ok ==> r->Ok_0@ == self.error@,
            r is Err ==> query_verdict(self.error@, self.tag@, secret.0@) == Err::<(), SignatureError>(r->Err_0),
    {
        let tag = match hex_decode(self.tag.as_str()) {
            None => {
                return Err(SignatureError::Malformed);
            },
            Some(t) => t,
        };
        match verify(self.error.as_str(), tag.as_slice(), secret) {
            Ok(()) => Ok(self.error),
            Err(e) => Err(e),
        }
    }
}

} // verus!
