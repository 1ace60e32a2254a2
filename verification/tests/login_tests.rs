use strawberry_id::config::VarsRouterConfig;
use strawberry_id::locale::Messages;
use strawberry_id::login::{
    check_user_response, login, login_redirect_url, login_response, login_step, totp_redirect_url,
    LoginOutcome, LoginPage, LoginStep,
};
use strawberry_id::account::wrong_totp_meta;
use strawberry_id::object::{LoginMeta, UserData};
use strawberry_id::params::LoginParams;
use strawberry_id::state::{services_from_json, AppState, ServicesError};
use strawberry_id::login::{complete_login, login_verdict, LoginVerdict};
use strawberry_id::system_core::Core;

pub fn sample_messages() -> Messages {
    Messages {
        login: "login".to_string(),
        login_to_sid: "login_to_sid".to_string(),
        login_to_sid_subtitle: "login_to_sid_subtitle".to_string(),
        login_to: "login_to".to_string(),
        register: "register".to_string(),
        new_account: "new_account".to_string(),
        logout: "logout".to_string(),
        close: "close".to_string(),
        password: "password".to_string(),
        email_username: "email_username".to_string(),
        username: "username".to_string(),
        email: "email".to_string(),
        email_optional: "email_optional".to_string(),
        name_optional: "name_optional".to_string(),
        code: "code".to_string(),
        str_continue: "str_continue".to_string(),
        back: "back".to_string(),
        allow: "allow".to_string(),
        goto_root: "goto_root".to_string(),
        create_account_short: "create_account_short".to_string(),
        developer_documentation: "developer_documentation".to_string(),
        my_profile: "my_profile".to_string(),
        totp_required: "totp_required".to_string(),
        totp_code: "totp_code".to_string(),
        submit: "submit".to_string(),
        wrong_totp_code: "wrong_totp_code".to_string(),
        strawberry_id_title: "strawberry_id_title".to_string(),
        strawberry_id_subtitle: "strawberry_id_subtitle".to_string(),
        strawberry_id_subtitle_2: "strawberry_id_subtitle_2".to_string(),
        already_have_id: "already_have_id".to_string(),
        benefits_id: "benefits_id".to_string(),
        works_everywhere_title: "works_everywhere_title".to_string(),
        works_everywhere_description: "works_everywhere_description".to_string(),
        simple_use_title: "simple_use_title".to_string(),
        simple_use_description: "simple_use_description".to_string(),
        scaling_title: "scaling_title".to_string(),
        scaling_description: "scaling_description".to_string(),
        convinced: "convinced".to_string(),
        privacy_notice: "privacy_notice".to_string(),
        privacy_policy: "privacy_policy".to_string(),
        terms_of_service: "terms_of_service".to_string(),
        settings: "settings".to_string(),
        my_products: "my_products".to_string(),
        cloud_engine: "cloud_engine".to_string(),
        create_account: "create_account".to_string(),
        create_account_2: "create_account_2".to_string(),
        have_account: "have_account".to_string(),
        have_account_2: "have_account_2".to_string(),
        login_error: "login_error".to_string(),
        login_success: "login_success".to_string(),
        wrong_username_or_password: "wrong_username_or_password".to_string(),
        wrong_username: "wrong_username".to_string(),
        wrong_password: "wrong_password".to_string(),
        account_disabled: "account_disabled".to_string(),
        redirect_after_login: "redirect_after_login".to_string(),
        trusted_domain: "trusted_domain".to_string(),
        not_trusted_domain: "not_trusted_domain".to_string(),
        service_after_login: "service_after_login".to_string(),
        trusted_service: "trusted_service".to_string(),
        not_trusted_service: "not_trusted_service".to_string(),
        account_settings_after_login: "account_settings_after_login".to_string(),
        continue_service_login: "continue_service_login".to_string(),
        show_code: "show_code".to_string(),
        login_code: "login_code".to_string(),
        warning_code_show: "warning_code_show".to_string(),
        account_settings: "account_settings".to_string(),
        profile: "profile".to_string(),
        security: "security".to_string(),
        account: "account".to_string(),
        notifications: "notifications".to_string(),
        member: "member".to_string(),
        security_settings: "security_settings".to_string(),
        two_factor_auth: "two_factor_auth".to_string(),
        enable_2fa: "enable_2fa".to_string(),
        disable_2fa: "disable_2fa".to_string(),
        setup_totp: "setup_totp".to_string(),
        totp_setup_success: "totp_setup_success".to_string(),
        totp_enabled: "totp_enabled".to_string(),
        totp_disabled: "totp_disabled".to_string(),
        totp_setup_failed: "totp_setup_failed".to_string(),
        totp_disable_failed: "totp_disable_failed".to_string(),
        login_required: "login_required".to_string(),
        profile_settings: "profile_settings".to_string(),
        full_name: "full_name".to_string(),
        bio: "bio".to_string(),
        cloud_engine_deactivated: "cloud_engine_deactivated".to_string(),
        continue_code_input: "continue_code_input".to_string(),
        error_no_code: "error_no_code".to_string(),
        error_invalid_code: "error_invalid_code".to_string(),
        code_valid: "code_valid".to_string(),
        service_wants_to_login: "service_wants_to_login".to_string(),
        only_permit_you_know: "only_permit_you_know".to_string(),
        login_not_possible: "login_not_possible".to_string(),
        login_not_possible_invalid_code: "login_not_possible_invalid_code".to_string(),
        login_success_subtitle: "login_success_subtitle".to_string(),
        continue_label: "continue_label".to_string(),
        welcome_back: "welcome_back".to_string(),
        user_not_found: "user_not_found".to_string(),
        connection_error: "connection_error".to_string(),
    }
}

fn state() -> AppState {
    let mut de = sample_messages();
    de.redirect_after_login = "Weiter zu %s".to_string();
    de.service_after_login = "Anmelden bei %s".to_string();
    let mut en = sample_messages();
    en.redirect_after_login = "Continue to %s".to_string();
    en.service_after_login = "Log in to %s".to_string();
    AppState::new(
        vec![("de".to_string(), de), ("en".to_string(), en)],
        vec![("cloud".to_string(), "Strawberry Cloud".to_string())],
    )
}

fn vars() -> VarsRouterConfig {
    VarsRouterConfig {
        static_url_path: "/static".to_string(),
        static_folder: "static".to_string(),
        template_folder: "templates".to_string(),
        trusted_sites: vec!["example.com".to_string()],
        trusted_services: vec!["cloud".to_string()],
        secret_key: "SECRET-REDACTED".to_string(),
    }
}

fn params(redirect: &str, hl: &str, service: &str, oauth: bool, code: u64) -> LoginParams {
    LoginParams {
        redirect: redirect.to_string(),
        hl: hl.to_string(),
        service: service.to_string(),
        oauth,
        debug: false,
        code,
    }
}

#[test]
fn collect_with_redirect_strips_scheme_and_checks_trust() {
    let mut p = params("https://Example.com", "", "cloud", true, 0);
    let meta = LoginMeta::collect(&mut p, "de", &state(), &vars());
    assert_eq!(p.redirect, "Example.com");
    assert_eq!(p.hl, "de");
    assert!(!p.oauth);
    assert!(meta.redirect_after_login);
    assert!(meta.trusted_web);
    assert!(!meta.service_after_login);
    assert_eq!(meta.service_name, "");
    assert!(!meta.trusted_service);
    assert_eq!(meta.language, "de");
    assert_eq!(meta.code, 0);
    assert!(!meta.error);
}

#[test]
fn collect_with_service_names_it() {
    let mut p = params("  ", "en", "Cloud", false, 1234567890);
    let meta = LoginMeta::collect(&mut p, "en", &state(), &vars());
    assert_eq!(p.redirect, "  ");
    assert!(!meta.redirect_after_login);
    assert!(!meta.trusted_web);
    assert!(meta.service_after_login);
    assert_eq!(meta.service_name, "Cloud");
    assert!(meta.trusted_service);
    assert_eq!(meta.code, 1234567890);
}

#[test]
fn collect_with_known_service_and_oauth() {
    let mut p = params("", "", "cloud", true, 0);
    let meta = LoginMeta::collect(&mut p, "en", &state(), &vars());
    assert!(!meta.service_after_login);
    assert_eq!(meta.service_name, "Strawberry Cloud");
    assert!(p.oauth);
    assert_eq!(p.hl, "");
}

#[test]
fn login_page_fills_notices() {
    let mut p = params("http://untrusted.org", "", "", false, 0);
    match login("en", &state(), &vars(), &mut p) {
        LoginPage::Page { meta, redirect_after_login, service_after_login } => {
            assert_eq!(redirect_after_login, "Continue to untrusted.org");
            assert_eq!(service_after_login, "Log in to ");
            assert!(!meta.trusted_web);
        }
        LoginPage::NotFound(_) => panic!("en is supported"),
    }
}

#[test]
fn login_page_for_unknown_language_is_not_found() {
    let mut p = params("http://x", "", "", false, 0);
    match login("fr", &state(), &vars(), &mut p) {
        LoginPage::NotFound(uri) => assert_eq!(uri, "/v2/fr/login"),
        LoginPage::Page { .. } => panic!("fr is not supported"),
    }
    assert_eq!(p.redirect, "http://x");
}

fn meta(language: &str, code: u64, redirect: bool, service: bool) -> LoginMeta {
    LoginMeta {
        language: language.to_string(),
        code,
        redirect_after_login: redirect,
        service_after_login: service,
        ..LoginMeta::default()
    }
}

#[test]
fn login_redirect_prefers_the_oauth_dialog() {
    let url = login_redirect_url(&meta("de", 1234567890, true, false), &params("x.com", "de", "cloud", false, 0), "de", 5555555555);
    assert_eq!(url, "/v2/de/login/oauth_dialog/cloud?code=1234567890");
}

#[test]
fn login_redirect_to_a_site_callback() {
    let url = login_redirect_url(&meta("de", 0, true, false), &params("example.com", "de", "", false, 0), "de", 5555555555);
    assert_eq!(url, "https://example.com/callback?hl=de&code=5555555555");
    let url = login_redirect_url(&meta("en", 0, true, false), &params("https%3A%2F%2Fsite.org", "", "", false, 0), "", 1111111111);
    assert_eq!(url, "https://site.org/callback?hl=en&code=1111111111");
    let url = login_redirect_url(&meta("en", 0, true, false), &params("http%3A%2F%2Flocal%20host", "", "", false, 0), "en", 2222222222);
    assert_eq!(url, "http://local host/callback?hl=en&code=2222222222");
    let url = login_redirect_url(&meta("en", 0, true, false), &params("bad%FF", "", "", false, 0), "en", 2222222222);
    assert_eq!(url, "https:///callback?hl=en&code=2222222222");
}

#[test]
fn login_redirect_to_oauth_or_account() {
    let url = login_redirect_url(&meta("en", 0, false, false), &params("", "", "cloud", true, 0), "en", 1);
    assert_eq!(url, "/v2/en/login/oauth/cloud");
    let url = login_redirect_url(&meta("en", 0, false, false), &params("", "", "", true, 0), "en", 1);
    assert_eq!(url, "/v2/en/account");
    let url = login_redirect_url(&meta("de", 0, true, false), &params("", "", "", false, 0), "de", 1);
    assert_eq!(url, "/v2/de/account");
}

#[test]
fn totp_redirect_targets() {
    let url = totp_redirect_url(&meta("de", 0, true, false), &params("example.com", "de", "", false, 0), "de", 3333333333);
    assert_eq!(url, "https://example.com/callback?hl=de&code=3333333333");
    let url = totp_redirect_url(&meta("de", 0, false, false), &params("", "", "cloud", true, 0), "de", 1);
    assert_eq!(url, "/v2/de/login/oauth/cloud");
    let url = totp_redirect_url(&meta("de", 0, false, true), &params("", "", "cloud", true, 0), "de", 1);
    assert_eq!(url, "/v2/de/account");
}

#[test]
fn login_steps() {
    let mut u = UserData::default();
    assert!(matches!(login_step(&u), LoginStep::Proceed));
    u.totp_enabled = "true".to_string();
    assert!(matches!(login_step(&u), LoginStep::TotpRequired));
    u.account_enabled = "false".to_string();
    assert!(matches!(login_step(&u), LoginStep::AccountDisabled));
}

#[test]
fn login_responses() {
    let strings = sample_messages();
    let r = login_response(LoginOutcome::LoggedIn("/v2/en/account".to_string()), &strings);
    assert!(r.success && r.totp_required.is_none() && r.error.is_none());
    assert_eq!(r.redirect_url.as_deref(), Some("/v2/en/account"));
    let r = login_response(LoginOutcome::TotpRequired, &strings);
    assert!(!r.success && r.totp_required == Some(true));
    let r = login_response(LoginOutcome::WrongUsername, &strings);
    assert_eq!(r.error.as_deref(), Some("wrong_username"));
    let r = login_response(LoginOutcome::WrongPassword, &strings);
    assert_eq!(r.error.as_deref(), Some("wrong_password"));
    let r = login_response(LoginOutcome::AccountDisabled, &strings);
    assert_eq!(r.error.as_deref(), Some("account_disabled"));
}

#[test]
fn check_user_answers() {
    let mut u = UserData::default();
    u.email = "a@b.c".to_string();
    u.full_name = "Alice".to_string();
    let r = check_user_response(Some(&u), "nope");
    assert!(r.user_exists && r.error.is_none());
    let info = r.user.unwrap();
    assert_eq!(info.email, "a@b.c");
    assert_eq!(info.display_name, "Alice");
    assert!(info.avatar.is_none());
    u.profile_picture_url = "https://pic".to_string();
    assert_eq!(check_user_response(Some(&u), "nope").user.unwrap().avatar.as_deref(), Some("https://pic"));
    let r = check_user_response(None, "nope");
    assert!(!r.user_exists && r.user.is_none());
    assert_eq!(r.error.as_deref(), Some("nope"));
}

#[test]
fn wrong_totp_marks_the_error() {
    let mut p = params("", "", "cloud", false, 0);
    let strings = sample_messages();
    let m = wrong_totp_meta(&mut p, "en", &state(), &vars(), &strings);
    assert!(m.error);
    assert_eq!(m.info_message, "wrong_totp_code");
    assert_eq!(m.service_name, "Strawberry Cloud");
}

#[test]
fn state_holds_messages_and_services() {
    let s = state();
    assert_eq!(s.messages.len(), 2);
    assert_eq!(s.messages.get("de").unwrap().login, "login");
    assert_eq!(s.services.get("cloud").map(|x| x.as_str()), Some("Strawberry Cloud"));
    let later = AppState::new(Vec::<(String, Messages)>::new(), vec![("a".to_string(), "1".to_string()), ("a".to_string(), "2".to_string())]);
    assert_eq!(later.services.get("a").map(|x| x.as_str()), Some("2"));
}

#[test]
fn login_verdicts() {
    let mut u = UserData::default();
    assert!(matches!(login_verdict(None, None), LoginVerdict::WrongUsername));
    assert!(matches!(login_verdict(Some(false), None), LoginVerdict::WrongPassword));
    assert!(matches!(login_verdict(Some(true), Some(&u)), LoginVerdict::IssueCode));
    u.totp_enabled = "true".to_string();
    assert!(matches!(login_verdict(Some(true), Some(&u)), LoginVerdict::TotpRequired));
    u.account_enabled = "false".to_string();
    assert!(matches!(login_verdict(Some(true), Some(&u)), LoginVerdict::AccountDisabled));
    assert!(matches!(login_verdict(Some(false), Some(&u)), LoginVerdict::WrongPassword));
}

#[test]
fn complete_login_issues_codes_only_for_good_logins() {
    let mut core = Core::new();
    let m = meta("en", 0, false, false);
    let p = params("", "", "", false, 0);
    for verdict in [LoginVerdict::WrongUsername, LoginVerdict::WrongPassword, LoginVerdict::AccountDisabled, LoginVerdict::TotpRequired] {
        let out = complete_login(&mut core, verdict, UserData::default(), &m, &p, "en").unwrap();
        assert!(!matches!(out, LoginOutcome::LoggedIn(_)));
        assert!(core.codes.is_empty());
    }
    let mut u = UserData::default();
    u.username = "alice".to_string();
    match complete_login(&mut core, LoginVerdict::IssueCode, u, &m, &p, "en").unwrap() {
        LoginOutcome::LoggedIn(url) => assert_eq!(url, "/v2/en/account"),
        _ => panic!("a good login gets a code"),
    }
    assert_eq!(core.codes.len(), 1);
    assert_eq!(core.codes.values().next().unwrap()[0].0.username, "alice");
}

#[test]
fn login_page_needs_only_its_own_language() {
    let state = AppState::new(vec![("en".to_string(), sample_messages())], Vec::new());
    let mut p = params("", "", "", false, 0);
    assert!(matches!(login("en", &state, &vars(), &mut p), LoginPage::Page { .. }));
    assert!(matches!(login("xx", &state, &vars(), &mut p), LoginPage::NotFound(_)));
}

#[test]
fn services_table_from_json() {
    let v = services_from_json(r#"{"cloud": "Strawberry Cloud", "mail": "Mail"}"#).unwrap();
    assert_eq!(v, vec![("cloud".to_string(), "Strawberry Cloud".to_string()), ("mail".to_string(), "Mail".to_string())]);
    assert_eq!(services_from_json("{}").unwrap(), Vec::new());
    assert_eq!(services_from_json("not json").unwrap_err(), ServicesError::NotJson);
    assert_eq!(services_from_json(r#"{"cloud": 1}"#).unwrap_err(), ServicesError::NotAStringObject);
    assert_eq!(services_from_json(r#"["cloud"]"#).unwrap_err(), ServicesError::NotAStringObject);
}

#[test]
fn services_table_is_read_only_from_a_file_that_is_there() {
    assert_eq!(AppState::get_services(None).unwrap_err(), ServicesError::Missing);
    assert_eq!(AppState::get_services(Some("{")).unwrap_err(), ServicesError::NotJson);
    let v = AppState::get_services(Some(r#"{"cloud": "Strawberry Cloud"}"#)).unwrap();
    assert_eq!(v, vec![("cloud".to_string(), "Strawberry Cloud".to_string())]);
    let state = AppState::new(Vec::new(), v);
    assert_eq!(state.services.get("cloud").map(|x| x.as_str()), Some("Strawberry Cloud"));
}
