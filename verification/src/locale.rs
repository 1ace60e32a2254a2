use vstd::prelude::*;
use crate::text::{chars_of, has_prefix, starts_with};

verus! {

/// The localized strings of one language, one field per message.
pub struct Messages {
    pub login: String,
    pub login_to_sid: String,
    pub login_to_sid_subtitle: String,
    pub login_to: String,
    pub register: String,
    pub new_account: String,
    pub logout: String,
    pub close: String,
    pub password: String,
    pub email_username: String,
    pub username: String,
    pub email: String,
    pub email_optional: String,
    pub name_optional: String,
    pub code: String,
    pub str_continue: String,
    pub back: String,
    pub allow: String,
    pub goto_root: String,
    pub create_account_short: String,
    pub developer_documentation: String,
    pub my_profile: String,
    pub totp_required: String,
    pub totp_code: String,
    pub submit: String,
    pub wrong_totp_code: String,
    pub strawberry_id_title: String,
    pub strawberry_id_subtitle: String,
    pub strawberry_id_subtitle_2: String,
    pub already_have_id: String,
    pub benefits_id: String,
    pub works_everywhere_title: String,
    pub works_everywhere_description: String,
    pub simple_use_title: String,
    pub simple_use_description: String,
    pub scaling_title: String,
    pub scaling_description: String,
    pub convinced: String,
    pub privacy_notice: String,
    pub privacy_policy: String,
    pub terms_of_service: String,
    pub settings: String,
    pub my_products: String,
    pub cloud_engine: String,
    pub create_account: String,
    pub create_account_2: String,
    pub have_account: String,
    pub have_account_2: String,
    pub login_error: String,
    pub login_success: String,
    pub wrong_username_or_password: String,
    pub wrong_username: String,
    pub wrong_password: String,
    pub account_disabled: String,
    pub redirect_after_login: String,
    pub trusted_domain: String,
    pub not_trusted_domain: String,
    pub service_after_login: String,
    pub trusted_service: String,
    pub not_trusted_service: String,
    pub account_settings_after_login: String,
    pub continue_service_login: String,
    pub show_code: String,
    pub login_code: String,
    pub warning_code_show: String,
    pub account_settings: String,
    pub profile: String,
    pub security: String,
    pub account: String,
    pub notifications: String,
    pub member: String,
    pub security_settings: String,
    pub two_factor_auth: String,
    pub enable_2fa: String,
    pub disable_2fa: String,
    pub setup_totp: String,
    pub totp_setup_success: String,
    pub totp_enabled: String,
    pub totp_disabled: String,
    pub totp_setup_failed: String,
    pub totp_disable_failed: String,
    pub login_required: String,
    pub profile_settings: String,
    pub full_name: String,
    pub bio: String,
    pub cloud_engine_deactivated: String,
    pub continue_code_input: String,
    pub error_no_code: String,
    pub error_invalid_code: String,
    pub code_valid: String,
    pub service_wants_to_login: String,
    pub only_permit_you_know: String,
    pub login_not_possible: String,
    pub login_not_possible_invalid_code: String,
    pub login_success_subtitle: String,
    pub continue_label: String,
    pub welcome_back: String,
    pub user_not_found: String,
    pub connection_error: String,
}

/// A language the pages are offered in.
#[derive(Debug, Clone, Copy, PartialEq, Eq, Structural)]
pub enum Language {
    German,
    English,
}

/// Code of the German language.
pub const LANG_DE: &'static str = "de";

/// Code of the English language.
pub const LANG_EN: &'static str = "en";

/// The language codes the pages exist in (`de` and `en`).
pub open spec fn is_supported_language(lang: Seq<char>) -> bool {
    lang == seq!['d', 'e'] || lang == seq!['e', 'n']
}

/// Whether `lang` is one of the language codes the pages exist in.
pub fn supported_language(lang: &str) -> (res: bool)
    ensures
        res == is_supported_language(lang@),
{
    let cs = chars_of(lang);
    if cs.len() != 2 {
        return false;
    }
    let a = cs[0];
    let b = cs[1];
    assert(cs@ =~= seq![a, b]);
    (a == 'd' && b == 'e') || (a == 'e' && b == 'n')
}

/// The language an `Accept-Language` header asks for: German when it starts
/// with `de`, English when it starts with `en`, none otherwise (also when the
/// header is absent).
pub open spec fn header_language(header: Option<Seq<char>>) -> Option<Language> {
    match header {
        Some(h) => if has_prefix(h, seq!['d', 'e']) {
            Some(Language::German)
        } else if has_prefix(h, seq!['e', 'n']) {
            Some(Language::English)
        } else {
            None
        },
        None => None,
    }
}

impl Language {
    /// The language named by the request's `Accept-Language` header, or
    /// `None` where the request is passed on to the next route.
    pub fn from_header(header: Option<&str>) -> (res: Option<Language>)
        ensures
            res == header_language(
                match header {
                    Some(h) => Some(h@),
                    None => None,
                },
            ),
    {
        match header {
            Some(h) => {
                proof {
                    reveal_strlit("de");
                    reveal_strlit("en");
                    assert("de"@ =~= seq!['d', 'e']);
                    assert("en"@ =~= seq!['e', 'n']);
                }
                if starts_with(h, "de") {
                    Some(Language::German)
                } else if starts_with(h, "en") {
                    Some(Language::English)
                } else {
                    None
                }
            },
            None => None,
        }
    }
}

} // verus!
