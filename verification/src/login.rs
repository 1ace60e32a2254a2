use vstd::prelude::*;
use crate::config::VarsRouterConfig;
use crate::locale::{is_supported_language, supported_language, Messages};
use crate::object::{collected_meta, collected_params, LoginMeta, UserData};
use crate::params::LoginParams;
use crate::primitives::{url_decode, url_decoded};
use crate::state::AppState;
use crate::text::{concat2, decimal, decimal_string, has_prefix, replace, replace_all, same_text, starts_with};
use crate::routes::lang_path;
use crate::object::CodeType;
use crate::system_core::{in_code_range, issue_outcome, Core, IssueError, CODE_LIFETIME};

verus! {

/// The answer to "does this user exist?".
pub struct CheckUserResponse {
    pub user_exists: bool,
    pub user: Option<UserInfo>,
    pub error: Option<String>,
}

/// What the login page shows of a user before the password is asked for.
pub struct UserInfo {
    pub email: String,
    pub display_name: String,
    pub avatar: Option<String>,
}

/// The answer to a login attempt.
pub struct LoginResponse {
    pub success: bool,
    pub totp_required: Option<bool>,
    pub redirect_url: Option<String>,
    pub error: Option<String>,
}

/// The user-name form of the login page.
pub struct CheckUserForm {
    pub username: String,
}

/// The one-time-password form.
pub struct TotpForm {
    pub totp_code: String,
}

/// The login page, or the address of a page that does not exist.
pub enum LoginPage {
    NotFound(String),
    Page { meta: LoginMeta, redirect_after_login: String, service_after_login: String },
}

/// How a login attempt ended.
pub enum LoginOutcome {
    /// No user has that name or e-mail address.
    WrongUsername,
    /// The password does not match.
    WrongPassword,
    /// The account is switched off.
    AccountDisabled,
    /// The password matched; a one-time password is still due.
    TotpRequired,
    /// Logged in; the browser goes on to the address.
    LoggedIn(String),
}

/// What follows a matching password for this user.
pub enum LoginStep {
    AccountDisabled,
    TotpRequired,
    Proceed,
}

/// The login page for `lang`: not found for an unknown language (with
/// `params` left alone); otherwise the meta data that `LoginMeta::collect`
/// computes and the two notices with `%s` filled in.
pub fn login(lang: &str, state: &AppState, vars: &VarsRouterConfig, params: &mut LoginParams) -> (res: LoginPage)
    requires
        is_supported_language(lang@) ==> state.messages@.contains_key(lang@),
    ensures
        match res {
            LoginPage::NotFound(uri) => {
                &&& !is_supported_language(lang@)
                &&& uri@ == "/v2/"@ + lang@ + "/login"@
                &&& *final(params) == *old(params)
            },
            LoginPage::Page { meta, redirect_after_login, service_after_login } => {
                let strings = state.messages@[lang@];
                &&& is_supported_language(lang@)
                &&& collected_params(*old(params), *final(params), lang@)
                &&& collected_meta(meta, *old(params), *final(params), lang@, state, vars)
                &&& redirect_after_login@ == replace_all(strings.redirect_after_login@, "%s"@, final(params).redirect@)
                &&& service_after_login@ == replace_all(strings.service_after_login@, "%s"@, meta.service_name@)
            },
        },
{
    if !supported_language(lang) {
        return LoginPage::NotFound(lang_path(lang, "/login"));
    }
    let meta = LoginMeta::collect(params, lang, state, vars);
    let strings = state.messages.get(lang).unwrap();
    proof {
        reveal_strlit("%s");
    }
    let redirect_after_login = replace(strings.redirect_after_login.as_str(), "%s", params.redirect.as_str());
    let service_after_login = replace(strings.service_after_login.as_str(), "%s", meta.service_name.as_str());
    LoginPage::Page { meta, redirect_after_login, service_after_login }
}

/// What follows a matching password: a disabled account ends the login, an
/// account with one-time passwords asks for one, any other goes on.
pub open spec fn next_login_step(user: UserData) -> LoginStep {
    if user.account_enabled@ == "false"@ {
        LoginStep::AccountDisabled
    } else if user.totp_enabled@ == "true"@ {
        LoginStep::TotpRequired
    } else {
        LoginStep::Proceed
    }
}

/// What follows a matching password for `user`.
pub fn login_step(user: &UserData) -> (res: LoginStep)
    ensures
        res == next_login_step(*user),
        user.account_enabled@ == "false"@ ==> res is AccountDisabled,
        user.account_enabled@ != "false"@ && user.totp_enabled@ == "true"@ ==> res is TotpRequired,
        user.account_enabled@ != "false"@ && user.totp_enabled@ != "true"@ ==> res is Proceed,
{
    if same_text(user.account_enabled.as_str(), "false") {
        LoginStep::AccountDisabled
    } else if same_text(user.totp_enabled.as_str(), "true") {
        LoginStep::TotpRequired
    } else {
        LoginStep::Proceed
    }
}

/// How a password login goes on.
pub enum LoginVerdict {
    /// No user has that name or e-mail address.
    WrongUsername,
    /// The password does not match.
    WrongPassword,
    /// The account is switched off.
    AccountDisabled,
    /// The password matched; a one-time password is still due.
    TotpRequired,
    /// The user is logged in and gets a code.
    IssueCode,
}

/// How a password login goes on, from the password check (`None` when no
/// user was found) and the user's record (read after a matching password).
pub open spec fn login_verdict_of(password_matches: Option<bool>, user: Option<UserData>) -> LoginVerdict {
    match password_matches {
        None => LoginVerdict::WrongUsername,
        Some(false) => LoginVerdict::WrongPassword,
        Some(true) => match next_login_step(user->0) {
            LoginStep::AccountDisabled => LoginVerdict::AccountDisabled,
            LoginStep::TotpRequired => LoginVerdict::TotpRequired,
            LoginStep::Proceed => LoginVerdict::IssueCode,
        },
    }
}

/// How a password login goes on (see `login_verdict_of`). After a matching
/// password the user's record must be at hand.
pub fn login_verdict(password_matches: Option<bool>, user: Option<&UserData>) -> (res: LoginVerdict)
    requires
        password_matches == Some(true) ==> user is Some,
    ensures
        res == login_verdict_of(
            password_matches,
            match user {
                Some(u) => Some(*u),
                None => None,
            },
        ),
        password_matches is None ==> res is WrongUsername,
        password_matches == Some(false) ==> res is WrongPassword,
        password_matches == Some(true) && user.unwrap().account_enabled@ == "false"@ ==> res is AccountDisabled,
        password_matches == Some(true) && user.unwrap().account_enabled@ != "false"@
            && user.unwrap().totp_enabled@ == "true"@ ==> res is TotpRequired,
        password_matches == Some(true) && user.unwrap().account_enabled@ != "false"@
            && user.unwrap().totp_enabled@ != "true"@ ==> res is IssueCode,
{
    match password_matches {
        None => LoginVerdict::WrongUsername,
        Some(false) => LoginVerdict::WrongPassword,
        Some(true) => match login_step(user.unwrap()) {
            LoginStep::AccountDisabled => LoginVerdict::AccountDisabled,
            LoginStep::TotpRequired => LoginVerdict::TotpRequired,
            LoginStep::Proceed => LoginVerdict::IssueCode,
        },
    }
}

/// Only a matching password of an enabled account without one-time
/// passwords leads to a code.
pub proof fn law_only_good_logins_get_a_code(password_matches: Option<bool>, user: Option<UserData>)
    requires
        password_matches == Some(true) ==> user is Some,
    ensures
        login_verdict_of(password_matches, user) is IssueCode <==> (password_matches == Some(true)
            && user->0.account_enabled@ != "false"@ && user->0.totp_enabled@ != "true"@),
{
}

/// A matching password for a disabled account ends in `AccountDisabled`,
/// whether or not the account uses one-time passwords; an enabled account
/// with one-time passwords is asked for one.
pub proof fn law_disabled_account_is_refused(user: UserData)
    ensures
        user.account_enabled@ == "false"@ ==> login_verdict_of(Some(true), Some(user)) is AccountDisabled,
        user.account_enabled@ != "false"@ && user.totp_enabled@ == "true"@ ==> login_verdict_of(
            Some(true),
            Some(user),
        ) is TotpRequired,
{
}

/// The end of a password login: a refused login, or one that still needs a
/// one-time password, changes no code and ends with that outcome; a login
/// that goes on gets a fresh website code for `user`, valid for at least
/// `CODE_LIFETIME` seconds, and the address that `login_target` gives for
/// it. Nothing changes on an error: every website code is taken, or the
/// clock reads before 1970.
pub fn complete_login(
    core: &mut Core,
    verdict: LoginVerdict,
    user: UserData,
    meta: &LoginMeta,
    params: &LoginParams,
    lang: &str,
) -> (res: Result<LoginOutcome, IssueError>)
    requires
        old(core).wf(),
    ensures
        final(core).wf(),
        final(core).oauth_codes@ == old(core).oauth_codes@,
        final(core).service_codes@ == old(core).service_codes@,
        final(core).uuid_codes@ == old(core).uuid_codes@,
        match verdict {
            LoginVerdict::IssueCode => {
                &&& match res {
                    Ok(LoginOutcome::LoggedIn(url)) => exists|c: u64| {
                        &&& in_code_range(c as int)
                        &&& !old(core).codes@.contains_key(c)
                        &&& #[trigger] final(core).codes@.contains_key(c)
                        &&& final(core).codes@.dom() == old(core).codes@.dom().insert(c)
                        &&& final(core).codes@[c]@.len() == 1
                        &&& final(core).codes@[c]@[0].0 == user
                        &&& final(core).codes@[c]@[0].1 >= CODE_LIFETIME
                        &&& final(core).codes@[c]@[0].2 == CodeType::Website
                        &&& url@ == login_target(*meta, *params, lang@, c)
                    },
                    Ok(_) => false,
                    Err(_) => final(core).codes@ == old(core).codes@,
                }
                &&& issue_outcome(old(core).codes@, match res {
                    Ok(_) => Ok::<u64, IssueError>(0u64),
                    Err(e) => Err(e),
                })
            },
            _ => final(core).codes@ == old(core).codes@ && res == Ok::<LoginOutcome, IssueError>(
                match verdict {
                    LoginVerdict::WrongUsername => LoginOutcome::WrongUsername,
                    LoginVerdict::WrongPassword => LoginOutcome::WrongPassword,
                    LoginVerdict::AccountDisabled => LoginOutcome::AccountDisabled,
                    _ => LoginOutcome::TotpRequired,
                },
            ),
        },
{
    match verdict {
        LoginVerdict::WrongUsername => Ok(LoginOutcome::WrongUsername),
        LoginVerdict::WrongPassword => Ok(LoginOutcome::WrongPassword),
        LoginVerdict::AccountDisabled => Ok(LoginOutcome::AccountDisabled),
        LoginVerdict::TotpRequired => Ok(LoginOutcome::TotpRequired),
        LoginVerdict::IssueCode => {
            match core.generate_code(user, CodeType::Website) {
                Ok(code) => {
                    let url = login_redirect_url(meta, params, lang, code);
                    assert(core.codes@.contains_key(code));
                    Ok(LoginOutcome::LoggedIn(url))
                },
                Err(e) => Err(e),
            }
        },
    }
}

/// The callback address of a site: the decoded redirect target (empty when
/// it does not decode), given `https://` when it names no scheme, followed
/// by `/callback?hl=<lang>&code=<code>`.
pub open spec fn site_callback(redirect: Seq<char>, hl: Seq<char>, code: u64) -> Seq<char> {
    let target = match url_decoded(redirect) {
        Some(t) => t,
        None => seq![],
    };
    let tail = "/callback?hl="@ + hl + "&code="@ + decimal(code as nat);
    if has_prefix(target, "http://"@) || has_prefix(target, "https://"@) {
        target + tail
    } else {
        "https://"@ + target + tail
    }
}

/// Where a successful password login leads: to the OAuth dialog when the
/// page carried an OAuth code; to the redirecting site's callback with the
/// new `code`; to the service's OAuth page; or to the account page.
pub open spec fn login_target(meta: LoginMeta, params: LoginParams, lang: Seq<char>, code: u64) -> Seq<char> {
    if meta.code != 0 {
        "/v2/"@ + meta.language@ + "/login/oauth_dialog/"@ + params.service@ + "?code="@ + decimal(meta.code as nat)
    } else if meta.redirect_after_login && params.redirect@.len() > 0 {
        site_callback(params.redirect@, if lang.len() > 0 { lang } else { "en"@ }, code)
    } else if params.oauth && params.service@.len() > 0 {
        "/v2/"@ + meta.language@ + "/login/oauth/"@ + params.service@
    } else {
        "/v2/"@ + meta.language@ + "/account"@
    }
}

/// The address of a site's callback (see `site_callback`).
fn callback_url(redirect: &str, hl: &str, code: u64) -> (res: String)
    ensures
        res@ == site_callback(redirect@, hl@, code),
{
    let target = match url_decode(redirect) {
        Some(t) => t,
        None => String::new(),
    };
    let mut res = if starts_with(target.as_str(), "http://") || starts_with(target.as_str(), "https://") {
        target
    } else {
        concat2("https://", target.as_str())
    };
    res.append("/callback?hl=");
    res.append(hl);
    res.append("&code=");
    let digits = decimal_string(code);
    res.append(digits.as_str());
    res
}

/// Where a successful password login leads (see `login_target`).
pub fn login_redirect_url(meta: &LoginMeta, params: &LoginParams, lang: &str, code: u64) -> (res: String)
    ensures
        res@ == login_target(*meta, *params, lang@, code),
{
    if meta.code != 0 {
        let mut res = lang_path(meta.language.as_str(), "/login/oauth_dialog/");
        res.append(params.service.as_str());
        res.append("?code=");
        let digits = decimal_string(meta.code);
        res.append(digits.as_str());
        res
    } else if meta.redirect_after_login && !params.redirect.as_str().is_empty() {
        let hl: &str = if !lang.is_empty() {
            lang
        } else {
            "en"
        };
        callback_url(params.redirect.as_str(), hl, code)
    } else if params.oauth && !params.service.as_str().is_empty() {
        let mut res = lang_path(meta.language.as_str(), "/login/oauth/");
        res.append(params.service.as_str());
        res
    } else {
        lang_path(meta.language.as_str(), "/account")
    }
}

/// Where a login finished with a one-time password leads: to the
/// redirecting site's callback with the new `code`; to the service's OAuth
/// page; or to the account page.
pub open spec fn totp_target(meta: LoginMeta, params: LoginParams, lang: Seq<char>, code: u64) -> Seq<char> {
    if meta.redirect_after_login {
        "https://"@ + params.redirect@ + "/callback?hl="@ + params.hl@ + "&code="@ + decimal(code as nat)
    } else if params.oauth && !meta.service_after_login {
        "/v2/"@ + lang + "/login/oauth/"@ + params.service@
    } else {
        "/v2/"@ + lang + "/account"@
    }
}

/// After a one-time password, a login that names no redirecting site and is
/// no OAuth login (or one whose service is shown after login) goes to the
/// account page of `lang`; an OAuth login goes to the service's OAuth page; a
/// redirecting login goes to the site's callback with the code.
pub proof fn law_totp_login_targets(meta: LoginMeta, params: LoginParams, lang: Seq<char>, code: u64)
    ensures
        !meta.redirect_after_login && !params.oauth ==> totp_target(meta, params, lang, code) == "/v2/"@
            + lang + "/account"@,
        !meta.redirect_after_login && meta.service_after_login ==> totp_target(meta, params, lang, code)
            == "/v2/"@ + lang + "/account"@,
        !meta.redirect_after_login && params.oauth && !meta.service_after_login ==> totp_target(
            meta,
            params,
            lang,
            code,
        ) == "/v2/"@ + lang + "/login/oauth/"@ + params.service@,
        meta.redirect_after_login ==> totp_target(meta, params, lang, code) == "https://"@ + params.redirect@
            + "/callback?hl="@ + params.hl@ + "&code="@ + decimal(code as nat),
{
}

/// Where a login finished with a one-time password leads (see `totp_target`).
pub fn totp_redirect_url(meta: &LoginMeta, params: &LoginParams, lang: &str, code: u64) -> (res: String)
    ensures
        res@ == totp_target(*meta, *params, lang@, code),
        !meta.redirect_after_login && !(params.oauth && !meta.service_after_login) ==> res@ == "/v2/"@
            + lang@ + "/account"@,
        !meta.redirect_after_login && params.oauth && !meta.service_after_login ==> res@ == "/v2/"@
            + lang@ + "/login/oauth/"@ + params.service@,
        meta.redirect_after_login ==> res@ == "https://"@ + params.redirect@ + "/callback?hl="@
            + params.hl@ + "&code="@ + decimal(code as nat),
{
    if meta.redirect_after_login {
        let mut res = concat2("https://", params.redirect.as_str());
        res.append("/callback?hl=");
        res.append(params.hl.as_str());
        res.append("&code=");
        let digits = decimal_string(code);
        res.append(digits.as_str());
        res
    } else if params.oauth && !meta.service_after_login {
        let mut res = lang_path(lang, "/login/oauth/");
        res.append(params.service.as_str());
        res
    } else {
        lang_path(lang, "/account")
    }
}

/// The answer to a login attempt: success with the address to go on to,
/// a request for a one-time password, or failure with the message of the
/// page's language.
pub fn login_response(outcome: LoginOutcome, strings: &Messages) -> (res: LoginResponse)
    ensures
        match outcome {
            LoginOutcome::LoggedIn(url) => res.success && res.totp_required is None
                && res.redirect_url == Some(url) && res.error is None,
            LoginOutcome::TotpRequired => !res.success && res.totp_required == Some(true)
                && res.redirect_url is None && res.error is None,
            LoginOutcome::WrongUsername => !res.success && res.totp_required is None
                && res.redirect_url is None && res.error == Some(strings.wrong_username),
            LoginOutcome::WrongPassword => !res.success && res.totp_required is None
                && res.redirect_url is None && res.error == Some(strings.wrong_password),
            LoginOutcome::AccountDisabled => !res.success && res.totp_required is None
                && res.redirect_url is None && res.error == Some(strings.account_disabled),
        },
{
    match outcome {
        LoginOutcome::LoggedIn(url) => LoginResponse {
            success: true,
            totp_required: None,
            redirect_url: Some(url),
            error: None,
        },
        LoginOutcome::TotpRequired => LoginResponse {
            success: false,
            totp_required: Some(true),
            redirect_url: None,
            error: None,
        },
        LoginOutcome::WrongUsername => LoginResponse {
            success: false,
            totp_required: None,
            redirect_url: None,
            error: Some(strings.wrong_username.clone()),
        },
        LoginOutcome::WrongPassword => LoginResponse {
            success: false,
            totp_required: None,
            redirect_url: None,
            error: Some(strings.wrong_password.clone()),
        },
        LoginOutcome::AccountDisabled => LoginResponse {
            success: false,
            totp_required: None,
            redirect_url: None,
            error: Some(strings.account_disabled.clone()),
        },
    }
}

/// The answer to "does this user exist?": the user's e-mail address, full
/// name and picture (none when the picture address is empty), or the
/// "wrong username" message when there is no such user.
pub fn check_user_response(user: Option<&UserData>, wrong_username: &str) -> (res: CheckUserResponse)
    ensures
        match user {
            Some(u) => {
                &&& res.user_exists
                &&& res.error is None
                &&& res.user matches Some(info) && (info.email == u.email && info.display_name
                    == u.full_name && (if u.profile_picture_url@.len() == 0 {
                    info.avatar is None
                } else {
                    info.avatar == Some(u.profile_picture_url)
                }))
            },
            None => {
                &&& !res.user_exists
                &&& res.user is None
                &&& res.error matches Some(e) && e@ == wrong_username@
            },
        },
{
    match user {
        Some(u) => {
            let avatar = if u.profile_picture_url.as_str().is_empty() {
                None
            } else {
                Some(u.profile_picture_url.clone())
            };
            CheckUserResponse {
                user_exists: true,
                user: Some(
                    UserInfo { email: u.email.clone(), display_name: u.full_name.clone(), avatar },
                ),
                error: None,
            }
        },
        None => CheckUserResponse {
            user_exists: false,
            user: None,
            error: Some(String::from_str(wrong_username)),
        },
    }
}

} // verus!
