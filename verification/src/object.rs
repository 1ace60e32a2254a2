use vstd::prelude::*;
use crate::config::VarsRouterConfig;
use crate::params::LoginParams;
use crate::primitives::{lowercase, to_lowercase};
use crate::state::AppState;
use crate::text::{contains_string, contains_text, decimal_len, is_blank, is_blank_text, replace, replace_all};
use crate::utilities::{name_parser, service_display_name};

verus! {

/// What the login page shows and how it continues after a login.
pub struct LoginMeta {
    /// Error & information
    pub error: bool,
    pub info_message: String,
    /// Flags
    pub redirect_after_login: bool,
    pub service_after_login: bool,
    pub trusted_web: bool,
    pub trusted_service: bool,
    /// Generic strings
    pub service_name: String,
    pub language: String,
    /// Vars
    pub code: u64,
}

/// What the OAuth pages show.
pub struct OAuthMeta {
    /// Error & information
    pub error: bool,
    pub info_message: String,
    /// Flags
    pub trusted: bool,
    /// Generic strings
    pub service_name: String,
    pub service: String,
    pub animation: String,
}

/// What a login code is for.
#[derive(Debug, Clone, Copy, PartialEq, Eq, Structural)]
pub enum CodeType {
    Website,
    OAuth,
    Service,
}

/// The login form.
pub struct LoginForm {
    pub username: String,
    pub password: String,
}

/// A user's record as the database keeps it.
pub struct UserData {
    pub username: String,
    pub password: String,
    pub email: String,
    pub full_name: String,
    pub profile_picture_url: String,
    pub account_enabled: String,
    pub cloud_engine_enabled: String,
    pub strawberry_one: String,
    pub totp_enabled: String,
    pub totp_secret: String,
}

/// The OAuth code form.
pub struct OAuthForm {
    pub code: u64,
}

impl LoginMeta {
    /// Whether every text field is empty and every flag and number is zero.
    pub open spec fn is_empty(&self) -> bool {
        &&& !self.error
        &&& self.info_message@.len() == 0
        &&& !self.redirect_after_login
        &&& !self.service_after_login
        &&& !self.trusted_web
        &&& !self.trusted_service
        &&& self.service_name@.len() == 0
        &&& self.language@.len() == 0
        &&& self.code == 0
    }
}

impl OAuthMeta {
    /// Whether every text field is empty and every flag is false.
    pub open spec fn is_empty(&self) -> bool {
        &&& !self.error
        &&& self.info_message@.len() == 0
        &&& !self.trusted
        &&& self.service_name@.len() == 0
        &&& self.service@.len() == 0
        &&& self.animation@.len() == 0
    }
}

impl UserData {
    /// Whether every field is the empty text.
    pub open spec fn is_empty(&self) -> bool {
        &&& self.username@.len() == 0
        &&& self.password@.len() == 0
        &&& self.email@.len() == 0
        &&& self.full_name@.len() == 0
        &&& self.profile_picture_url@.len() == 0
        &&& self.account_enabled@.len() == 0
        &&& self.cloud_engine_enabled@.len() == 0
        &&& self.strawberry_one@.len() == 0
        &&& self.totp_enabled@.len() == 0
        &&& self.totp_secret@.len() == 0
    }
}

impl Default for LoginMeta {
    fn default() -> (res: Self)
        ensures
            res.is_empty(),
    {
        LoginMeta {
            error: false,
            info_message: String::new(),
            redirect_after_login: false,
            service_after_login: false,
            trusted_web: false,
            trusted_service: false,
            service_name: String::new(),
            language: String::new(),
            code: 0,
        }
    }
}

impl Default for OAuthMeta {
    fn default() -> (res: Self)
        ensures
            res.is_empty(),
    {
        OAuthMeta {
            error: false,
            info_message: String::new(),
            trusted: false,
            service_name: String::new(),
            service: String::new(),
            animation: String::new(),
        }
    }
}

impl Default for CodeType {
    fn default() -> (res: Self)
        ensures
            res == CodeType::Website,
    {
        CodeType::Website
    }
}

impl Default for UserData {
    fn default() -> (res: Self)
        ensures
            res.is_empty(),
    {
        UserData {
            username: String::new(),
            password: String::new(),
            email: String::new(),
            full_name: String::new(),
            profile_picture_url: String::new(),
            account_enabled: String::new(),
            cloud_engine_enabled: String::new(),
            strawberry_one: String::new(),
            totp_enabled: String::new(),
            totp_secret: String::new(),
        }
    }
}

impl UserData {
    /// A field-by-field copy.
    pub fn duplicate(&self) -> (res: Self)
        ensures
            res == *self,
    {
        UserData {
            username: self.username.clone(),
            password: self.password.clone(),
            email: self.email.clone(),
            full_name: self.full_name.clone(),
            profile_picture_url: self.profile_picture_url.clone(),
            account_enabled: self.account_enabled.clone(),
            cloud_engine_enabled: self.cloud_engine_enabled.clone(),
            strawberry_one: self.strawberry_one.clone(),
            totp_enabled: self.totp_enabled.clone(),
            totp_secret: self.totp_secret.clone(),
        }
    }
}

impl LoginMeta {
    /// A field-by-field copy.
    pub fn duplicate(&self) -> (res: Self)
        ensures
            res == *self,
    {
        LoginMeta {
            error: self.error,
            info_message: self.info_message.clone(),
            redirect_after_login: self.redirect_after_login,
            service_after_login: self.service_after_login,
            trusted_web: self.trusted_web,
            trusted_service: self.trusted_service,
            service_name: self.service_name.clone(),
            language: self.language.clone(),
            code: self.code,
        }
    }
}

/// The redirect target with the `http://` and `https://` markers removed.
pub open spec fn strip_scheme(r: Seq<char>) -> Seq<char> {
    replace_all(replace_all(r, "http://"@, ""@), "https://"@, ""@)
}

/// The login parameters as `collect` leaves them: with a redirect target,
/// the target loses its scheme markers, the OAuth flag is cleared and an
/// empty language falls back to the page's language.
pub open spec fn collected_params(old_p: LoginParams, new_p: LoginParams, lang: Seq<char>) -> bool {
    let has_redirect = !is_blank_text(old_p.redirect@);
    &&& new_p.redirect@ == (if has_redirect { strip_scheme(old_p.redirect@) } else { old_p.redirect@ })
    &&& new_p.hl@ == (if has_redirect && is_blank_text(old_p.hl@) { lang } else { old_p.hl@ })
    &&& new_p.oauth == (if has_redirect { false } else { old_p.oauth })
    &&& new_p.service == old_p.service
    &&& new_p.debug == old_p.debug
    &&& new_p.code == old_p.code
}

/// The fields of the login page's meta data other than the error flag and
/// message, as `collect` computes them from the original parameters `p`, the
/// parameters `q` it leaves behind, the page language, the services table
/// and the trusted sites and services.
pub open spec fn collected_fields(
    meta: LoginMeta,
    p: LoginParams,
    q: LoginParams,
    lang: Seq<char>,
    state: &AppState,
    vars: &VarsRouterConfig,
) -> bool {
    let has_redirect = !is_blank_text(p.redirect@);
    let has_service = !is_blank_text(p.service@) && !has_redirect;
    &&& meta.language@ == lang
    &&& meta.code == p.code
    &&& meta.redirect_after_login == has_redirect
    &&& meta.trusted_web == (has_redirect && contains_text(vars.trusted_sites@, lowercase(q.redirect@)))
    &&& meta.service_after_login == (has_service && !p.oauth)
    &&& meta.service_name@ == (if has_service { service_display_name(state, p.service@) } else { seq![] })
    &&& meta.trusted_service == (has_service && contains_text(vars.trusted_services@, lowercase(p.service@)))
}

/// The login page's meta data as `collect` computes it: the fields of
/// `collected_fields`, no error and no message.
pub open spec fn collected_meta(
    meta: LoginMeta,
    p: LoginParams,
    q: LoginParams,
    lang: Seq<char>,
    state: &AppState,
    vars: &VarsRouterConfig,
) -> bool {
    &&& collected_fields(meta, p, q, lang, state, vars)
    &&& !meta.error
    &&& meta.info_message@.len() == 0
}

impl LoginMeta {
    /// The login page's meta data for the page language `lang`; normalizes
    /// `params` on the way (see `collected_params`).
    pub fn collect(params: &mut LoginParams, lang: &str, state: &AppState, vars: &VarsRouterConfig) -> (meta: LoginMeta)
        ensures
            collected_params(*old(params), *final(params), lang@),
            collected_meta(meta, *old(params), *final(params), lang@, state, vars),
    {
        let mut meta = LoginMeta::default();
        meta.code = 0;
        meta.language = String::from_str(lang);
        proof {
            reveal_strlit("http://");
            reveal_strlit("https://");
        }
        if !is_blank(params.redirect.as_str()) {
            meta.redirect_after_login = true;
            params.oauth = false;
            let without_http = replace(params.redirect.as_str(), "http://", "");
            params.redirect = replace(without_http.as_str(), "https://", "");
            if is_blank(params.hl.as_str()) {
                params.hl = String::from_str(lang);
            }
            let lowered = to_lowercase(params.redirect.as_str());
            meta.trusted_web = contains_string(&vars.trusted_sites, lowered.as_str());
        } else {
            meta.redirect_after_login = false;
        }
        if !is_blank(params.service.as_str()) && !meta.redirect_after_login {
            meta.service_after_login = !params.oauth;
            meta.service_name = name_parser(state, params.service.as_str());
            let lowered = to_lowercase(params.service.as_str());
            meta.trusted_service = contains_string(&vars.trusted_services, lowered.as_str());
        } else {
            meta.service_after_login = false;
            assert(meta.service_name@ =~= Seq::<char>::empty());
        }
        let digits = decimal_len(params.code);
        assert(!digits >= 10) by (bit_vector)
            requires
                digits <= 20,
        ;
        if params.code != 0 || !digits < 10 {
            meta.code = params.code;
        }
        meta
    }
}

} // verus!
