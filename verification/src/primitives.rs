//! The calls this library makes into other crates and into the parts of std
//! that have no specification in vstd. Each function here is trusted: Verus
//! believes its contract and does not read its body. The contracts state what
//! the called crate's source and documentation show.

use argon2::{Argon2, PasswordHash, PasswordVerifier};
use rand::Rng;
use sha2::{Digest, Sha256};
use totp_rs::{Algorithm, Secret, TOTP};
use crate::totp::TotpAlgorithm;
use vstd::prelude::*;
use vstd::arithmetic::power2::pow2;
use vstd::utf8::{decode_utf8, encode_utf8, valid_utf8};
use crate::text::hex_bytes;

verus! {

// ---------------------------------------------------------------------------
// sha2 / hex
// ---------------------------------------------------------------------------

/// The SHA-256 digest of `data`.
pub uninterp spec fn sha256_digest(data: Seq<u8>) -> Seq<u8>;

/// `sha2::Sha256` (new, update, finalize): the digest of `data`, which is a
/// function of `data` alone and is 32 bytes long (the output size of SHA-256).
#[verifier::external_body]
pub(crate) fn sha256(data: &[u8]) -> (res: Vec<u8>)
    ensures
        res@ == sha256_digest(data@),
        res@.len() == 32,
{
    let mut hasher = Sha256::new();
    hasher.update(data);
    hasher.finalize().to_vec()
}

/// `hex::encode`: two lowercase hexadecimal digits per byte, in order.
#[verifier::external_body]
pub(crate) fn hex_encode(data: &[u8]) -> (res: String)
    ensures
        res@ == hex_bytes(data@),
{
    hex::encode(data)
}

// ---------------------------------------------------------------------------
// argon2
// ---------------------------------------------------------------------------

/// Whether the text is a password hash in the PHC string format that
/// `password_hash` can read.
pub uninterp spec fn phc_parses(stored: Seq<char>) -> bool;

/// Whether the Argon2 hasher accepts `password` against the PHC string `stored`.
pub uninterp spec fn argon2_accepts(stored: Seq<char>, password: Seq<u8>) -> bool;

/// `password_hash::PasswordHash::new`: whether `stored` parses as a PHC
/// string. The result depends on the text alone.
#[verifier::external_body]
pub(crate) fn phc_hash_is_valid(stored: &str) -> (res: bool)
    ensures
        res == phc_parses(stored@),
{
    PasswordHash::new(stored).is_ok()
}

/// `argon2::Argon2::default().verify_password`: whether `password` hashes,
/// with the parameters and salt that `stored` records, to the hash that
/// `stored` records. The result depends on the two arguments alone. `stored`
/// must parse (the parse is repeated here and would panic otherwise).
#[verifier::external_body]
pub(crate) fn argon2_verify(stored: &str, password: &[u8]) -> (res: bool)
    requires
        phc_parses(stored@),
    ensures
        res == argon2_accepts(stored@, password@),
{
    let hash = PasswordHash::new(stored).unwrap();
    Argon2::default().verify_password(password, &hash).is_ok()
}

// ---------------------------------------------------------------------------
// rand
// ---------------------------------------------------------------------------

/// `rand::rng().random_range(lo..=hi)`: a random number in the inclusive
/// range (which `random_range` refuses to be empty). Nothing more is stated:
/// the value is chosen at random.
#[verifier::external_body]
pub(crate) fn random_in(lo: u64, hi: u64) -> (res: u64)
    requires
        lo <= hi,
    ensures
        lo <= res <= hi,
{
    rand::rng().random_range(lo..=hi)
}

// ---------------------------------------------------------------------------
// std::time
// ---------------------------------------------------------------------------

/// `SystemTime::now().duration_since(UNIX_EPOCH)` in nanoseconds; `None`
/// when the clock reads before 1970 (the `SystemTimeError`). The value
/// depends on the clock, so nothing more is stated of it.
#[verifier::external_body]
pub(crate) fn nanos_since_epoch() -> (res: Option<u128>) {
    std::time::SystemTime::now().duration_since(std::time::SystemTime::UNIX_EPOCH).ok().map(
        |d| d.as_nanos(),
    )
}

// ---------------------------------------------------------------------------
// std::str
// ---------------------------------------------------------------------------

/// The Unicode lowercase form of `s`, as `str::to_lowercase` computes it
/// (with the context rules it applies, such as the Greek final sigma).
pub uninterp spec fn lowercase(s: Seq<char>) -> Seq<char>;

/// `str::to_lowercase`: the lowercase form of `s`, a function of `s` alone.
#[verifier::external_body]
pub(crate) fn to_lowercase(s: &str) -> (res: String)
    ensures
        res@ == lowercase(s@),
{
    s.to_lowercase()
}

// ---------------------------------------------------------------------------
// serde_json
// ---------------------------------------------------------------------------

/// What serde_json reads from a text: `None` when it is not JSON,
/// `Some(None)` when it is not an object whose values are all strings, else
/// its entries in the order serde_json yields them.
pub uninterp spec fn json_string_entries(text: Seq<char>) -> Option<Option<Seq<(Seq<char>, Seq<char>)>>>;

/// `serde_json::from_str::<serde_json::Value>`, then the object's entries
/// read as strings (`Value::as_object`, `Value::as_str`). The result is a
/// function of the text alone.
#[verifier::external_body]
pub(crate) fn parse_json_string_entries(text: &str) -> (res: Option<Option<Vec<(String, String)>>>)
    ensures
        json_string_entries(text@) == match res {
            None => None,
            Some(None) => Some(None),
            Some(Some(v)) => Some(Some(v@.map_values(|p: (String, String)| (p.0@, p.1@)))),
        },
{
    match serde_json::from_str::<serde_json::Value>(text) {
        Err(_) => None,
        Ok(value) => Some(value.as_object().and_then(|object| {
            object.iter().map(|(k, v)| v.as_str().map(|s| (k.clone(), s.to_string()))).collect()
        })),
    }
}

// ---------------------------------------------------------------------------
// urlencoding
// ---------------------------------------------------------------------------

/// The value of an ASCII hexadecimal digit (either case).
pub open spec fn hex_value(b: u8) -> Option<nat> {
    if 48 <= b <= 57 {
        Some((b - 48) as nat)
    } else if 65 <= b <= 70 {
        Some((b - 55) as nat)
    } else if 97 <= b <= 102 {
        Some((b - 87) as nat)
    } else {
        None
    }
}

/// Percent-decoding of bytes: `%` followed by two hexadecimal digits becomes
/// the byte they spell; every other byte, `+` included, stays as it is.
pub open spec fn percent_decode(b: Seq<u8>) -> Seq<u8>
    decreases b.len(),
{
    if b.len() == 0 {
        seq![]
    } else if b[0] == 37 && b.len() >= 3 && hex_value(b[1]) is Some && hex_value(b[2]) is Some {
        seq![(hex_value(b[1])->0 * 16 + hex_value(b[2])->0) as u8] + percent_decode(b.skip(3))
    } else {
        seq![b[0]] + percent_decode(b.skip(1))
    }
}

/// What `urlencoding::decode` yields for `s`: the percent-decoded bytes read
/// as UTF-8, or `None` when they are not valid UTF-8.
pub open spec fn url_decoded(s: Seq<char>) -> Option<Seq<char>> {
    let bytes = percent_decode(encode_utf8(s));
    if valid_utf8(bytes) {
        Some(decode_utf8(bytes))
    } else {
        None
    }
}

/// `urlencoding::decode`: percent-decodes the UTF-8 bytes of `s`; `None`
/// when the decoded bytes are not valid UTF-8 (the crate's `FromUtf8Error`).
#[verifier::external_body]
pub(crate) fn url_decode(s: &str) -> (res: Option<String>)
    ensures
        res is Some <==> url_decoded(s@) is Some,
        res matches Some(t) ==> url_decoded(s@) == Some(t@),
{
    urlencoding::decode(s).ok().map(|t| t.into_owned())
}

// ---------------------------------------------------------------------------
// totp-rs
// ---------------------------------------------------------------------------

/// Bit `i` of `b`, counting from the most significant bit of the first byte;
/// 0 past the end.
pub open spec fn bit_at(b: Seq<u8>, i: int) -> nat {
    if 0 <= i < 8 * b.len() {
        ((b[i / 8] as nat) / pow2((7 - i % 8) as nat)) % 2
    } else {
        0
    }
}

/// The value of the `j`-th group of five bits.
pub open spec fn base32_group(b: Seq<u8>, j: int) -> nat {
    16 * bit_at(b, 5 * j) + 8 * bit_at(b, 5 * j + 1) + 4 * bit_at(b, 5 * j + 2) + 2 * bit_at(
        b,
        5 * j + 3,
    ) + bit_at(b, 5 * j + 4)
}

/// The RFC 4648 base32 alphabet: `A`..`Z`, then `2`..`7`.
pub open spec fn base32_char(v: nat) -> char {
    if v < 26 {
        (65 + v) as char
    } else {
        (24 + v) as char
    }
}

/// RFC 4648 base32 without padding: one character per five bits, the last
/// group filled with zero bits.
pub open spec fn base32_text(b: Seq<u8>) -> Seq<char> {
    Seq::new(((8 * b.len() + 4) / 5) as nat, |j: int| base32_char(base32_group(b, j)))
}

/// The token that TOTP with the given hash, number of digits and step (in
/// seconds) yields for `secret` at the Unix time `time` (in seconds).
pub uninterp spec fn totp_token_at(
    algorithm: TotpAlgorithm,
    digits: usize,
    step: u64,
    secret: Seq<u8>,
    time: u64,
) -> Seq<char>;

/// The base64 PNG of the QR code for the `otpauth` URL of a TOTP with the
/// given hash, number of digits, step, secret, issuer and account name;
/// `None` when the URL does not fit in a QR code or the PNG cannot be
/// written.
pub uninterp spec fn totp_qr(
    algorithm: TotpAlgorithm,
    digits: usize,
    step: u64,
    secret: Seq<u8>,
    issuer: Seq<char>,
    account_name: Seq<char>,
) -> Option<Seq<char>>;

/// `totp_rs::Algorithm`, the hash a TOTP uses.
#[verifier::external_type_specification]
#[verifier::external_body]
pub struct ExTotpAlgorithm(Algorithm);

/// The crate's `Algorithm` for a hash of this library, variant for variant.
#[verifier::external_body]
fn algorithm_of(algorithm: TotpAlgorithm) -> Algorithm {
    match algorithm {
        TotpAlgorithm::Sha1 => Algorithm::SHA1,
        TotpAlgorithm::Sha256 => Algorithm::SHA256,
        TotpAlgorithm::Sha512 => Algorithm::SHA512,
    }
}

/// `totp_rs::Secret::default()`: 20 random bytes (a `Secret::Raw`, as the
/// crate's `generate_secret` builds it). Nothing is stated of their values.
#[verifier::external_body]
pub(crate) fn totp_random_secret() -> (res: Vec<u8>)
    ensures
        res@.len() == 20,
{
    match Secret::default() {
        Secret::Raw(bytes) => bytes,
        Secret::Encoded(text) => text.into_bytes(),
    }
}

/// `Secret::Raw(secret).to_string()`: each byte as two lowercase hexadecimal
/// digits (the crate's `Display` writes `{:02x}` per byte).
#[verifier::external_body]
pub(crate) fn totp_secret_text(secret: &[u8]) -> (res: String)
    ensures
        res@ == hex_bytes(secret@),
{
    Secret::Raw(secret.to_vec()).to_string()
}

/// `TOTP::get_secret_base32` of a TOTP built from these parameters: the
/// secret in RFC 4648 base32 without padding (the other parameters do not
/// enter it).
#[verifier::external_body]
pub(crate) fn totp_secret_base32(
    algorithm: TotpAlgorithm,
    digits: usize,
    skew: u8,
    step: u64,
    secret: &[u8],
    issuer: &str,
    account_name: &str,
) -> (res: String)
    ensures
        res@ == base32_text(secret@),
{
    TOTP::new_unchecked(
        algorithm_of(algorithm),
        digits,
        skew,
        step,
        secret.to_vec(),
        Some(issuer.to_string()),
        account_name.to_string(),
    ).get_secret_base32()
}

/// `TOTP::new(..).get_qr_base64()`: the QR code of the TOTP's URL. `new`
/// refuses digits outside 6..=8, a secret under 16 bytes, and an issuer or
/// account name that holds `:`; those inputs are left out. The result
/// depends on the hash, digits, step, secret, issuer and account name alone
/// (the skew does not enter the URL).
#[verifier::external_body]
pub(crate) fn totp_qr_base64(
    algorithm: TotpAlgorithm,
    digits: usize,
    skew: u8,
    step: u64,
    secret: &[u8],
    issuer: &str,
    account_name: &str,
) -> (res: Option<String>)
    requires
        6 <= digits <= 8,
        secret@.len() >= 16,
        !issuer@.contains(':'),
        !account_name@.contains(':'),
    ensures
        res is Some <==> totp_qr(algorithm, digits, step, secret@, issuer@, account_name@) is Some,
        res matches Some(q) ==> totp_qr(algorithm, digits, step, secret@, issuer@, account_name@) == Some(q@),
{
    TOTP::new(
        algorithm_of(algorithm),
        digits,
        skew,
        step,
        secret.to_vec(),
        Some(issuer.to_string()),
        account_name.to_string(),
    ).unwrap().get_qr_base64().ok()
}

/// `TOTP::new(..).generate(time)`: the token for `time`. `new` refuses
/// digits outside 6..=8, a secret under 16 bytes and an issuer with `:`;
/// those inputs are left out, as is a step of 0 (a division by zero). The
/// token is the HOTP value modulo 10^digits written with `digits` digits,
/// leading zeros kept. The result depends on the hash, digits, step, secret
/// and time alone.
#[verifier::external_body]
pub(crate) fn totp_generate(
    algorithm: TotpAlgorithm,
    digits: usize,
    skew: u8,
    step: u64,
    secret: &[u8],
    issuer: &str,
    time: u64,
) -> (res: String)
    requires
        6 <= digits <= 8,
        step > 0,
        secret@.len() >= 16,
        !issuer@.contains(':'),
    ensures
        res@ == totp_token_at(algorithm, digits, step, secret@, time),
        res@.len() == digits,
        forall|i: int| 0 <= i < digits ==> '0' <= #[trigger] res@[i] <= '9',
{
    TOTP::new(
        algorithm_of(algorithm),
        digits,
        skew,
        step,
        secret.to_vec(),
        Some(issuer.to_string()),
        String::new(),
    ).unwrap().generate(time)
}

} // verus!
