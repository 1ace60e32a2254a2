use vstd::prelude::*;
use crate::consts::{CODE_EXPIRED, INVALID_CODE, INVALID_TOKEN, INVALID_USERNAME, NO_CREDENTIALS, WRONG_CODE_TYPE_WEB};
use crate::object::{CodeType, UserData};
use crate::params::AuthParams;
use crate::consts::PLACEHOLDER;
use crate::system_core::{in_code_range, range_full, CallbackOutcome, Core, IssueError, CODE_LIFETIME};
use crate::text::{decimal, decimal_string, hex_bytes, is_blank, is_blank_text, same_text};
use crate::primitives::sha256_digest;
use vstd::utf8::encode_utf8;
use crate::utilities::{generate_hash, text_hash};

verus! {

/// The result of a token check.
pub enum AuthOutcome {
    /// User name or token missing.
    NoCredentials,
    /// No such user.
    InvalidUsername,
    /// The token is not the hash of the user's stored password.
    InvalidToken,
    /// The token belongs to the user.
    Valid,
}

/// Whether a token check names both a user and a token (neither blank).
pub fn auth_has_credentials(params: &AuthParams) -> (res: bool)
    ensures
        res == (!is_blank_text(params.username@) && !is_blank_text(params.token@)),
{
    !(is_blank(params.username.as_str()) || is_blank(params.token.as_str()))
}

/// The verdict on a token for the user the database found: a user's token
/// is the hexadecimal SHA-256 digest of the stored password hash.
pub open spec fn auth_verdict(user: Option<UserData>, token: Seq<char>) -> AuthOutcome {
    match user {
        None => AuthOutcome::InvalidUsername,
        Some(u) => if token == text_hash(u.password@) {
            AuthOutcome::Valid
        } else {
            AuthOutcome::InvalidToken
        },
    }
}

/// A user's token is accepted exactly when it is the lowercase hexadecimal
/// SHA-256 digest of the UTF-8 bytes of the stored password hash, taken as
/// stored; any other token is refused as invalid, and no user means an
/// invalid username.
pub proof fn law_token_is_digest_of_stored_hash(user: Option<UserData>, token: Seq<char>)
    ensures
        user is None ==> auth_verdict(user, token) is InvalidUsername,
        user matches Some(u) ==> (auth_verdict(user, token) is Valid <==> token == hex_bytes(
            sha256_digest(encode_utf8(u.password@)),
        )),
        user matches Some(u) ==> (auth_verdict(user, token) is InvalidToken <==> token != hex_bytes(
            sha256_digest(encode_utf8(u.password@)),
        )),
{
}

/// Checks a token against the user the database found (see `auth_verdict`).
pub fn auth_check(user: Option<&UserData>, token: &str) -> (res: AuthOutcome)
    ensures
        res == auth_verdict(
            match user {
                Some(u) => Some(*u),
                None => None,
            },
            token@,
        ),
        user is None ==> res is InvalidUsername,
        user matches Some(u) ==> (res is Valid <==> token@ == hex_bytes(
            sha256_digest(encode_utf8(u.password@)),
        )),
        user matches Some(u) ==> (res is InvalidToken <==> token@ != hex_bytes(
            sha256_digest(encode_utf8(u.password@)),
        )),
{
    match user {
        None => AuthOutcome::InvalidUsername,
        Some(u) => {
            let stored_token = generate_hash(u.password.clone());
            if same_text(token, stored_token.as_str()) {
                AuthOutcome::Valid
            } else {
                AuthOutcome::InvalidToken
            }
        },
    }
}

/// The token that `generate_hash` makes of a user's stored password is
/// accepted for that user, and no other token is.
pub proof fn law_password_hash_is_the_token(user: UserData, token: Seq<char>)
    ensures
        auth_verdict(Some(user), text_hash(user.password@)) == AuthOutcome::Valid,
        token != text_hash(user.password@) ==> auth_verdict(Some(user), token) == AuthOutcome::InvalidToken,
{
}

impl AuthOutcome {
    /// The answer for a failed check; `None` for a valid token.
    pub fn error_text(&self) -> (res: Option<&'static str>)
        ensures
            match *self {
                AuthOutcome::NoCredentials => res == Some(NO_CREDENTIALS),
                AuthOutcome::InvalidUsername => res == Some(INVALID_USERNAME),
                AuthOutcome::InvalidToken => res == Some(INVALID_TOKEN),
                AuthOutcome::Valid => res is None,
            },
    {
        match self {
            AuthOutcome::NoCredentials => Some(NO_CREDENTIALS),
            AuthOutcome::InvalidUsername => Some(INVALID_USERNAME),
            AuthOutcome::InvalidToken => Some(INVALID_TOKEN),
            AuthOutcome::Valid => None,
        }
    }
}

impl CallbackOutcome {
    /// The answer for a refused website code; `None` for a valid one.
    pub fn error_text(&self) -> (res: Option<&'static str>)
        ensures
            match *self {
                CallbackOutcome::InvalidCode => res == Some(INVALID_CODE),
                CallbackOutcome::CodeExpired => res == Some(CODE_EXPIRED),
                CallbackOutcome::WrongCodeType => res == Some(WRONG_CODE_TYPE_WEB),
                CallbackOutcome::Valid { .. } => res is None,
            },
    {
        match self {
            CallbackOutcome::InvalidCode => Some(INVALID_CODE),
            CallbackOutcome::CodeExpired => Some(CODE_EXPIRED),
            CallbackOutcome::WrongCodeType => Some(WRONG_CODE_TYPE_WEB),
            CallbackOutcome::Valid { .. } => None,
        }
    }
}

/// Hands out a new OAuth code, not yet bound to any user (it names the
/// placeholder account), and returns it in decimal. Nothing changes on an
/// error: every OAuth code of the range is taken, or the clock reads before
/// 1970.
pub fn api_code_request(core: &mut Core) -> (res: Result<String, IssueError>)
    requires
        old(core).wf(),
    ensures
        final(core).wf(),
        final(core).codes@ == old(core).codes@,
        final(core).service_codes@ == old(core).service_codes@,
        final(core).uuid_codes@ == old(core).uuid_codes@,
        match res {
            Ok(text) => exists|c: u64| {
                &&& text@ == decimal(c as nat)
                &&& in_code_range(c as int)
                &&& !old(core).oauth_codes@.contains_key(c)
                &&& #[trigger] final(core).oauth_codes@.contains_key(c)
                &&& final(core).oauth_codes@ == old(core).oauth_codes@.insert(c, final(core).oauth_codes@[c])
                &&& final(core).oauth_codes@[c]@.len() == 1
                &&& final(core).oauth_codes@[c]@[0].0@ == PLACEHOLDER@
                &&& final(core).oauth_codes@[c]@[0].1.is_empty()
                &&& final(core).oauth_codes@[c]@[0].2 >= CODE_LIFETIME
                &&& final(core).oauth_codes@[c]@[0].3 == CodeType::OAuth
            },
            Err(_) => final(core).oauth_codes@ == old(core).oauth_codes@,
        },
        res == Err::<String, IssueError>(IssueError::CodesExhausted) ==> range_full(old(core).oauth_codes@),
        range_full(old(core).oauth_codes@) ==> res is Err,
        !range_full(old(core).oauth_codes@) ==> res is Ok || res == Err::<String, IssueError>(IssueError::ClockBeforeEpoch),
{
    match core.generate_code_ext(CodeType::OAuth) {
        Ok(code) => {
            let text = decimal_string(code);
            assert(core.oauth_codes@.contains_key(code));
            Ok(text)
        },
        Err(e) => Err(e),
    }
}

} // verus!
