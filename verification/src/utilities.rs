use vstd::prelude::*;
use vstd::utf8::encode_utf8;
use crate::primitives::{hex_encode, sha256, sha256_digest};
use crate::state::AppState;
use crate::text::hex_bytes;

verus! {

/// The display name of a service: the name that the services table gives
/// it, or the service id itself when the table has none.
pub open spec fn service_display_name(state: &AppState, service: Seq<char>) -> Seq<char> {
    if state.services@.contains_key(service) {
        state.services@[service]@
    } else {
        service
    }
}

/// The display name of `service`.
pub fn name_parser(state: &AppState, service: &str) -> (res: String)
    ensures
        res@ == service_display_name(state, service@),
{
    match state.services.get(service) {
        Some(name) => name.clone(),
        None => String::from_str(service),
    }
}

/// `SystemTime::now().duration_since(UNIX_EPOCH)` in whole seconds: the
/// current Unix time; `None` when the clock reads before 1970 (the
/// `SystemTimeError`). The value depends on the clock, so nothing more is
/// stated of it.
#[verifier::external_body]
pub fn unix_time() -> (res: Option<u64>) {
    std::time::SystemTime::now().duration_since(std::time::SystemTime::UNIX_EPOCH).ok().map(
        |duration| duration.as_secs(),
    )
}

/// The lowercase hexadecimal SHA-256 digest of the UTF-8 bytes of a text.
pub open spec fn text_hash(s: Seq<char>) -> Seq<char> {
    hex_bytes(sha256_digest(encode_utf8(s)))
}

/// The lowercase hexadecimal SHA-256 digest of the UTF-8 bytes of `string`.
pub fn generate_hash(string: String) -> (res: String)
    ensures
        res@ == text_hash(string@),
        res@ == hex_bytes(sha256_digest(encode_utf8(string@))),
        res@.len() == 64,
{
    let digest = sha256(string.as_str().as_bytes());
    let res = hex_encode(digest.as_slice());
    proof {
        lemma_hex_bytes_len(digest@);
    }
    res
}

/// The hash of a text is the digest of its UTF-8 bytes exactly as they are:
/// two texts with the same hash have the same digest, and a text's hash is
/// the hexadecimal form of the digest of its own bytes, whatever its case.
pub proof fn law_hash_is_digest_of_the_text_as_is(s: Seq<char>, t: Seq<char>)
    ensures
        text_hash(s) == hex_bytes(sha256_digest(encode_utf8(s))),
        encode_utf8(s) == encode_utf8(t) ==> text_hash(s) == text_hash(t),
{
}

/// Two characters per byte.
pub proof fn lemma_hex_bytes_len(b: Seq<u8>)
    ensures
        hex_bytes(b).len() == 2 * b.len(),
    decreases b.len(),
{
    if b.len() > 0 {
        lemma_hex_bytes_len(b.drop_last());
    }
}

} // verus!
