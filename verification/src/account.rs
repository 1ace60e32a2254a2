use vstd::prelude::*;
use vstd::utf8::encode_utf8;
use crate::config::VarsRouterConfig;
use crate::locale::Messages;
use crate::object::{collected_fields, collected_params, LoginMeta};
use crate::params::LoginParams;
use crate::state::AppState;
use crate::totp::{token_at, StrawberryIdTotp};

verus! {

/// What a one-time-password setup attempt on the account page leads to.
pub struct TotpSetupOutcome {
    /// The code matched the stored secret.
    pub accepted: bool,
    /// The value to store as the user's `totp_enabled` flag.
    pub totp_enabled: &'static str,
    /// The notice the account page shows.
    pub action: &'static str,
}

/// The flag and notice for an accepted or refused setup code.
pub open spec fn setup_texts(accepted: bool, enabled: Seq<char>, action: Seq<char>) -> bool {
    if accepted {
        enabled == "true"@ && action == "setup_totp_success"@
    } else {
        enabled == "false"@ && action == "setup_totp_failed"@
    }
}

/// The flag stored after a setup attempt is "true" exactly when the code was
/// accepted (and "false" otherwise), and the success notice is shown exactly
/// when it was accepted.
pub proof fn law_setup_flag_is_acceptance(accepted: bool, enabled: Seq<char>, action: Seq<char>)
    requires
        setup_texts(accepted, enabled, action),
    ensures
        enabled == "true"@ <==> accepted,
        enabled == "false"@ <==> !accepted,
        action == "setup_totp_success"@ <==> accepted,
{
    reveal_strlit("true");
    reveal_strlit("false");
    reveal_strlit("setup_totp_success");
    reveal_strlit("setup_totp_failed");
    assert("true"@ != "false"@) by {
        assert("true"@[0] != "false"@[0]);
    }
    assert("setup_totp_success"@ != "setup_totp_failed"@) by {
        assert("setup_totp_success"@[11] != "setup_totp_failed"@[11]);
    }
}

/// Checks the code that confirms a one-time-password setup against the
/// user's stored secret (at least 16 bytes, as the TOTP crate requires):
/// an accepted code switches one-time passwords on, a refused one off.
/// `None` when the clock reads before 1970.
pub fn setup_totp_outcome(secret: &str, code: &str) -> (res: Option<TotpSetupOutcome>)
    requires
        encode_utf8(secret@).len() >= 16,
    ensures
        res matches Some(o) ==> {
            &&& setup_texts(o.accepted, o.totp_enabled@, o.action@)
            &&& o.accepted ==> o.totp_enabled@ == "true"@ && o.action@ == "setup_totp_success"@
            &&& !o.accepted ==> o.totp_enabled@ == "false"@ && o.action@ == "setup_totp_failed"@
            &&& exists|time: u64| o.accepted == (token_at(encode_utf8(secret@), time) == code@)
            &&& code@.len() != 6 ==> !o.accepted
        },
{
    match StrawberryIdTotp::check(secret, code) {
        Some(true) => Some(TotpSetupOutcome { accepted: true, totp_enabled: "true", action: "setup_totp_success" }),
        Some(false) => Some(TotpSetupOutcome { accepted: false, totp_enabled: "false", action: "setup_totp_failed" }),
        None => None,
    }
}

/// The login page's meta data after a wrong one-time password: what
/// `LoginMeta::collect` computes, marked as an error with the language's
/// "wrong code" message.
pub fn wrong_totp_meta(
    params: &mut LoginParams,
    lang: &str,
    state: &AppState,
    vars: &VarsRouterConfig,
    strings: &Messages,
) -> (meta: LoginMeta)
    ensures
        collected_params(*old(params), *final(params), lang@),
        meta.error,
        meta.info_message == strings.wrong_totp_code,
        collected_fields(meta, *old(params), *final(params), lang@, state, vars),
{
    let mut meta = LoginMeta::collect(params, lang, state, vars);
    meta.info_message = strings.wrong_totp_code.clone();
    meta.error = true;
    meta
}

} // verus!
