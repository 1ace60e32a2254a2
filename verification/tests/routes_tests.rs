use strawberry_id::locale::{supported_language, Language};
use strawberry_id::oauth::{
    dialog_prompt, fill_service_name, oauth_code_well_formed, oauth_dialog_login_redirect,
    oauth_login_redirect, OAuthCodeStatus,
};
use strawberry_id::params::LogoutParams;
use strawberry_id::routes::{
    account_no_lang, index_no_lang, lang_path, login_no_lang, login_oauth_lang_redir,
    login_oauth_no_lang, logout, register, register_no_lang, root, root_no_lang, v1_index,
    v1_index_no_lang,
};
use strawberry_id::state::AppState;
use strawberry_id::system_core::Core;
use strawberry_id::object::CodeType;

#[test]
fn header_language() {
    assert_eq!(Language::from_header(Some("de-DE,de;q=0.9")), Some(Language::German));
    assert_eq!(Language::from_header(Some("en-US")), Some(Language::English));
    assert_eq!(Language::from_header(Some("fr-FR")), None);
    assert_eq!(Language::from_header(Some("")), None);
    assert_eq!(Language::from_header(None), None);
}

#[test]
fn supported_languages() {
    assert!(supported_language("de"));
    assert!(supported_language("en"));
    assert!(!supported_language("fr"));
    assert!(!supported_language("deu"));
}

#[test]
fn redirects_without_language() {
    assert_eq!(root_no_lang(Some(Language::German)), "/v2/de");
    assert_eq!(root_no_lang(None), "/v2/en");
    assert_eq!(index_no_lang(Some(Language::English)), "/v2/en");
    assert_eq!(v1_index_no_lang(Some(Language::German)), "/v2/de/login");
    assert_eq!(v1_index_no_lang(None), "/v2/en");
    assert_eq!(login_no_lang(None), "/v2/en/login");
    assert_eq!(login_oauth_no_lang(Some(Language::German)), "/v2/de/login");
    assert_eq!(register_no_lang(Some(Language::English)), "/v2/en/register");
    assert_eq!(account_no_lang(Some(Language::German)), "/v2/de/account");
    assert_eq!(account_no_lang(None), "/v2/en/account");
}

#[test]
fn redirects_with_language_code() {
    assert_eq!(root("de"), "/v2/de");
    assert_eq!(root("xx"), "/v2/en");
    assert_eq!(v1_index("de"), "/v2/de/login");
    assert_eq!(v1_index("en"), "/v2/en/login");
    assert_eq!(login_oauth_lang_redir("fr"), "/v2/en/login");
}

#[test]
fn simple_pages() {
    assert_eq!(register("de"), "[de] Currently not supported");
    assert_eq!(logout(&LogoutParams { hl: "en".to_string() }), "/v2/en");
    assert_eq!(lang_path("fr", "/login"), "/v2/fr/login");
    assert_eq!(lang_path("fr", ""), "/v2/fr");
}

#[test]
fn oauth_code_format() {
    assert!(oauth_code_well_formed(1111111111));
    assert!(oauth_code_well_formed(9999999999));
    assert!(oauth_code_well_formed(1000000000));
    assert!(!oauth_code_well_formed(999999999));
    assert!(!oauth_code_well_formed(10000000000));
    assert!(!oauth_code_well_formed(0));
}

#[test]
fn oauth_code_status() {
    let mut core = Core::new();
    let c = core.issue_code_ext(4_000_000_000, 0, CodeType::OAuth).unwrap();
    assert!(matches!(core.oauth_code_status(c), OAuthCodeStatus::Pending));
    assert!(matches!(core.oauth_code_status(c + 1), OAuthCodeStatus::Unknown));
    assert!(matches!(core.oauth_code_status(12), OAuthCodeStatus::Malformed));
    assert!(core.has_oauth_code(c));
}

#[test]
fn oauth_redirects_and_texts() {
    assert_eq!(oauth_login_redirect("de", "cloud"), "/v2/de/login?service=cloud&oauth=true");
    assert_eq!(
        oauth_dialog_login_redirect("en", "cloud", 1234567890),
        "/v2/en/login?service=cloud&oauth=true&code=1234567890"
    );
    assert_eq!(fill_service_name("Log in to %s", "Cloud"), "Log in to Cloud");
    assert_eq!(
        dialog_prompt("%1 wants your login (%2)", "Cloud", 1234567890),
        "Cloud wants your login (<u>1234567890</u>)"
    );
}

#[test]
fn oauth_meta_fields() {
    let state = AppState::new(Vec::new(), vec![("cloud".to_string(), "Strawberry Cloud".to_string())]);
    let vars = strawberry_id::config::VarsRouterConfig {
        static_url_path: String::new(),
        static_folder: String::new(),
        template_folder: String::new(),
        trusted_sites: vec![],
        trusted_services: vec!["cloud".to_string()],
        secret_key: String::new(),
    };
    let m = strawberry_id::oauth::oauth_meta(&state, &vars, "cloud", "slide-in-login");
    assert_eq!(m.service, "cloud");
    assert_eq!(m.service_name, "Strawberry Cloud");
    assert!(m.trusted);
    assert_eq!(m.animation, "slide-in-login");
    let m = strawberry_id::oauth::oauth_meta(&state, &vars, "Cloud", "none");
    assert_eq!(m.service_name, "Cloud");
    assert!(!m.trusted);
}

#[test]
fn locale_paths() {
    assert_eq!(AppState::locale_path("de"), "src/locales/de_DE.yml");
    assert_eq!(AppState::locale_path("en"), "src/locales/en_US.yml");
    assert_eq!(AppState::locale_path("fr"), "src/locales/.yml");
}
