use vstd::prelude::*;
use crate::config::VarsRouterConfig;
use crate::object::OAuthMeta;
use crate::state::AppState;
use crate::system_core::{in_code_range, Core};
use crate::text::{lemma_decimal_len, pow10, concat2, contains_string, contains_text, decimal, decimal_len, decimal_string, replace, replace_all};
use crate::utilities::{name_parser, service_display_name};
use crate::routes::lang_path;

verus! {

broadcast use vstd::std_specs::hash::group_hash_axioms;

/// What a submitted OAuth code turned out to be.
pub enum OAuthCodeStatus {
    /// Zero, or not ten digits long.
    Malformed,
    /// Well formed, but no such code is pending.
    Unknown,
    /// A pending code.
    Pending,
}

/// A code the OAuth form accepts: not zero, and ten decimal digits long.
pub open spec fn well_formed_oauth_code(code: u64) -> bool {
    code != 0 && decimal(code as nat).len() == 10
}

/// Whether `code` is not zero and has ten decimal digits.
pub fn oauth_code_well_formed(code: u64) -> (res: bool)
    ensures
        res == well_formed_oauth_code(code),
{
    !(code == 0 || decimal_len(code) != 10)
}

/// Every code the generator hands out passes the OAuth form's format
/// check: codes of the range have exactly ten digits.
pub proof fn law_issued_codes_well_formed(code: u64)
    requires
        in_code_range(code as int),
    ensures
        well_formed_oauth_code(code),
{
    assert(pow10(10) == 10_000_000_000nat && pow10(9) == 1_000_000_000nat) by {
        reveal_with_fuel(pow10, 11);
    }
    lemma_decimal_len(code as nat, 10);
    lemma_decimal_len(code as nat, 9);
}

impl Core {
    /// Whether `code` is a pending OAuth code.
    pub fn has_oauth_code(&self, code: u64) -> (res: bool)
        ensures
            res == self.oauth_codes@.contains_key(code),
    {
        self.oauth_codes.contains_key(&code)
    }

    /// What a code submitted on the OAuth form is.
    pub fn oauth_code_status(&self, code: u64) -> (res: OAuthCodeStatus)
        ensures
            !well_formed_oauth_code(code) ==> res is Malformed,
            well_formed_oauth_code(code) && !self.oauth_codes@.contains_key(code) ==> res is Unknown,
            well_formed_oauth_code(code) && self.oauth_codes@.contains_key(code) ==> res is Pending,
    {
        if !oauth_code_well_formed(code) {
            OAuthCodeStatus::Malformed
        } else if self.has_oauth_code(code) {
            OAuthCodeStatus::Pending
        } else {
            OAuthCodeStatus::Unknown
        }
    }
}

/// The OAuth pages' meta data for `service`: its id and display name,
/// whether it is a trusted service (its id as given, not lowercased, in the
/// trusted list), the page animation, and no error or message.
pub fn oauth_meta(state: &AppState, vars: &VarsRouterConfig, service: &str, animation: &str) -> (meta: OAuthMeta)
    ensures
        meta.service@ == service@,
        meta.service_name@ == service_display_name(state, service@),
        meta.trusted == contains_text(vars.trusted_services@, service@),
        meta.animation@ == animation@,
        !meta.error,
        meta.info_message@.len() == 0,
{
    OAuthMeta {
        error: false,
        info_message: String::new(),
        trusted: contains_string(&vars.trusted_services, service),
        service_name: name_parser(state, service),
        service: String::from_str(service),
        animation: String::from_str(animation),
    }
}

/// Where an OAuth page sends a visitor who is not logged in:
/// `/v2/<lang>/login?service=<service>&oauth=true`.
pub fn oauth_login_redirect(lang: &str, service: &str) -> (res: String)
    ensures
        res@ == "/v2/"@ + lang@ + "/login?service="@ + service@ + "&oauth=true"@,
{
    let mut res = lang_path(lang, "/login?service=");
    res.append(service);
    res.append("&oauth=true");
    res
}

/// Where the OAuth dialog sends a visitor who is not logged in: the login
/// page, which is to come back to the dialog with `code` afterwards.
pub fn oauth_dialog_login_redirect(lang: &str, service: &str, code: u64) -> (res: String)
    ensures
        res@ == "/v2/"@ + lang@ + "/login?service="@ + service@ + "&oauth=true"@ + "&code="@ + decimal(code as nat),
{
    let mut res = oauth_login_redirect(lang, service);
    res.append("&code=");
    let digits = decimal_string(code);
    res.append(digits.as_str());
    res
}

/// A message with `%s` replaced by the service's name.
pub fn fill_service_name(template: &str, service_name: &str) -> (res: String)
    ensures
        res@ == replace_all(template@, "%s"@, service_name@),
{
    proof {
        reveal_strlit("%s");
    }
    replace(template, "%s", service_name)
}

/// The dialog's question: `%1` replaced by the service's name, then `%2` by
/// the underlined code.
pub fn dialog_prompt(template: &str, service_name: &str, code: u64) -> (res: String)
    ensures
        res@ == replace_all(
            replace_all(template@, "%1"@, service_name@),
            "%2"@,
            "<u>"@ + decimal(code as nat) + "</u>"@,
        ),
{
    proof {
        reveal_strlit("%1");
        reveal_strlit("%2");
    }
    let named = replace(template, "%1", service_name);
    let digits = decimal_string(code);
    let mut underlined = concat2("<u>", digits.as_str());
    underlined.append("</u>");
    replace(named.as_str(), "%2", underlined.as_str())
}

} // verus!
