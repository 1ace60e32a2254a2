use vstd::prelude::*;
use vstd::utf8::encode_utf8;
use crate::primitives::{
    base32_text, totp_generate, totp_qr, totp_qr_base64, totp_random_secret,
    totp_secret_base32, totp_secret_text, totp_token_at,
};
use crate::text::{hex_bytes, same_text};
use crate::utilities::unix_time;

verus! {

/// The hash function of a TOTP.
#[derive(Debug, Clone, Copy, PartialEq, Eq, Structural)]
pub enum TotpAlgorithm {
    Sha1,
    Sha256,
    Sha512,
}

/// Digits of a one-time password.
pub const TOTP_DIGITS: usize = 6;

/// Steps before and after the current one that `TOTP::check` would accept.
pub const TOTP_SKEW: u8 = 1;

/// Seconds a one-time password stays current.
pub const TOTP_STEP: u64 = 30;

/// Issuer name written into every one-time-password setup.
pub const TOTP_ISSUER: &'static str = "Strawberry ID";

/// What a user needs to set up an authenticator app.
pub struct StrawberryIdTotp {
    /// The secret in base32, for typing into an app by hand.
    pub secret_base32: String,
    /// The secret as it is stored: its bytes in lowercase hexadecimal.
    pub secret: String,
    /// A base64 PNG of the QR code of the `otpauth` URL.
    pub qr_code: String,
}

/// The token of this service's TOTP (SHA-1, six digits, 30-second step)
/// for the key `secret` at Unix time `time`.
pub open spec fn token_at(secret: Seq<u8>, time: u64) -> Seq<char> {
    totp_token_at(TotpAlgorithm::Sha1, TOTP_DIGITS, TOTP_STEP, secret, time)
}

/// The setup for a given secret: the three texts derived from it, or nothing
/// when no QR code can be drawn for it.
pub open spec fn setup_matches(secret: Seq<u8>, account_name: Seq<char>, res: Option<StrawberryIdTotp>) -> bool {
    let qr = totp_qr(TotpAlgorithm::Sha1, TOTP_DIGITS, TOTP_STEP, secret, TOTP_ISSUER@, account_name);
    match res {
        Some(t) => {
            &&& qr == Some(t.qr_code@)
            &&& t.secret@ == hex_bytes(secret)
            &&& t.secret_base32@ == base32_text(secret)
        },
        None => qr is None,
    }
}

/// The issuer name holds no `:`, which the TOTP crate refuses.
proof fn lemma_issuer_has_no_colon()
    ensures
        !TOTP_ISSUER@.contains(':'),
{
    reveal_strlit("Strawberry ID");
    assert(TOTP_ISSUER@ =~= seq!['S', 't', 'r', 'a', 'w', 'b', 'e', 'r', 'r', 'y', ' ', 'I', 'D']);
}

impl StrawberryIdTotp {
    /// The setup of a SHA-1, six-digit, 30-second TOTP for `account_name`
    /// with the given secret (at least 16 bytes); `None` when no QR code can
    /// be drawn for its URL.
    pub fn setup_with_secret(secret: Vec<u8>, account_name: &str) -> (res: Option<Self>)
        requires
            secret@.len() >= 16,
            !account_name@.contains(':'),
        ensures
            setup_matches(secret@, account_name@, res),
    {
        proof {
            lemma_issuer_has_no_colon();
        }
        match totp_qr_base64(
            TotpAlgorithm::Sha1,
            TOTP_DIGITS,
            TOTP_SKEW,
            TOTP_STEP,
            secret.as_slice(),
            TOTP_ISSUER,
            account_name,
        ) {
            Some(qr_code) => {
                let secret_base32 = totp_secret_base32(
                    TotpAlgorithm::Sha1,
                    TOTP_DIGITS,
                    TOTP_SKEW,
                    TOTP_STEP,
                    secret.as_slice(),
                    TOTP_ISSUER,
                    account_name,
                );
                let text = totp_secret_text(secret.as_slice());
                Some(StrawberryIdTotp { secret_base32, secret: text, qr_code })
            },
            None => None,
        }
    }

    /// The setup for `account_name` with a fresh random 20-byte secret.
    /// An account name with `:` is refused by the TOTP crate and is left out.
    pub fn setup(account_name: &str) -> (res: Option<Self>)
        requires
            !account_name@.contains(':'),
        ensures
            exists|secret: Seq<u8>| secret.len() == 20 && #[trigger] setup_matches(secret, account_name@, res),
    {
        let secret = totp_random_secret();
        let ghost bytes = secret@;
        let res = Self::setup_with_secret(secret, account_name);
        assert(setup_matches(bytes, account_name@, res));
        res
    }

    /// Whether `code` is the token of the stored `secret` (whose UTF-8 bytes
    /// are the key) at Unix time `time`. Tokens have six decimal digits, so
    /// any other code is refused.
    pub fn check_at(secret: &str, code: &str, time: u64) -> (res: bool)
        requires
            encode_utf8(secret@).len() >= 16,
        ensures
            res == (token_at(encode_utf8(secret@), time) == code@),
            res ==> code@.len() == 6 && forall|i: int| 0 <= i < 6 ==> '0' <= #[trigger] code@[i] <= '9',
            code@.len() != 6 ==> !res,
    {
        proof {
            lemma_issuer_has_no_colon();
        }
        let token = totp_generate(
            TotpAlgorithm::Sha1,
            TOTP_DIGITS,
            TOTP_SKEW,
            TOTP_STEP,
            secret.as_bytes(),
            TOTP_ISSUER,
            time,
        );
        same_text(token.as_str(), code)
    }

    /// Whether `code` is the token of the stored `secret` now; `None` when
    /// the clock reads before 1970. The key is the UTF-8 bytes of `secret`,
    /// which must be at least 16 bytes long (shorter keys are refused by the
    /// TOTP crate).
    pub fn check(secret: &str, code: &str) -> (res: Option<bool>)
        requires
            encode_utf8(secret@).len() >= 16,
        ensures
            res matches Some(ok) ==> exists|time: u64| ok == (token_at(encode_utf8(secret@), time) == code@),
            res == Some(true) ==> code@.len() == 6 && forall|i: int| 0 <= i < 6 ==> '0' <= #[trigger] code@[i] <= '9',
    {
        match unix_time() {
            Some(now) => Some(Self::check_at(secret, code, now)),
            None => None,
        }
    }
}

} // verus!
