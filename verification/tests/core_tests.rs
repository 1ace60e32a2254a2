use strawberry_id::object::{CodeType, LoginMeta, UserData};
use strawberry_id::params::LoginParams;
use strawberry_id::system_core::{Account, CallbackOutcome, Core, CODE_LIFETIME};
use strawberry_id::consts::{CODE_MAX, CODE_MIN, CODE_EXPIRED, INVALID_CODE, PLACEHOLDER, WRONG_CODE_TYPE_WEB};

fn user(name: &str) -> UserData {
    let mut u = UserData::default();
    u.username = name.to_string();
    u.email = format!("{name}@example.com");
    u
}

#[test]
fn new_core_is_empty() {
    let core = Core::new();
    assert!(core.codes.is_empty());
    assert!(core.oauth_codes.is_empty());
    assert!(core.service_codes.is_empty());
    assert_eq!(core.uuid_codes.len(), 0);
}

#[test]
fn issue_code_takes_the_candidate_when_free() {
    let mut core = Core::new();
    let c = core.issue_code(5_000_000_000, 1000, user("alice"), CodeType::Website);
    assert_eq!(c, Some(5_000_000_000));
    let entry = &core.codes[&5_000_000_000][0];
    assert_eq!(entry.0.username, "alice");
    assert_eq!(entry.1, 1000 + CODE_LIFETIME);
    assert_eq!(entry.2, CodeType::Website);
}

#[test]
fn issue_code_moves_past_taken_codes() {
    let mut core = Core::new();
    assert_eq!(core.issue_code(5_000_000_000, 0, user("a"), CodeType::Website), Some(5_000_000_000));
    assert_eq!(core.issue_code(5_000_000_001, 0, user("b"), CodeType::Website), Some(5_000_000_001));
    assert_eq!(core.issue_code(5_000_000_000, 0, user("c"), CodeType::Website), Some(5_000_000_002));
    assert_eq!(core.codes[&5_000_000_000][0].0.username, "a");
    assert_eq!(core.codes.len(), 3);
}

#[test]
fn issue_code_wraps_to_the_bottom_of_the_range() {
    let mut core = Core::new();
    assert_eq!(core.issue_code(CODE_MAX, 0, user("a"), CodeType::Website), Some(CODE_MAX));
    assert_eq!(core.issue_code(CODE_MAX, 0, user("b"), CodeType::Website), Some(CODE_MIN));
}

#[test]
fn generate_code_gives_a_fresh_code_in_range() {
    let mut core = Core::new();
    let mut seen = std::collections::HashSet::new();
    for i in 0..50 {
        let c = core.generate_code(user(&format!("u{i}")), CodeType::Website).unwrap();
        assert!((CODE_MIN..=CODE_MAX).contains(&c));
        assert!(seen.insert(c));
        assert!(core.codes[&c][0].1 >= CODE_LIFETIME);
    }
    assert_eq!(core.codes.len(), 50);
}

#[test]
fn valid_code_is_redeemed_once() {
    let mut core = Core::new();
    let c = core.issue_code(2_000_000_000, 100, user("alice"), CodeType::Website).unwrap();
    match core.redeem_code(c, 200) {
        CallbackOutcome::Valid { user, expiration_time, current_time, code_type } => {
            assert_eq!(user.username, "alice");
            assert_eq!(expiration_time, 400);
            assert_eq!(current_time, 200);
            assert_eq!(code_type, CodeType::Website);
        }
        _ => panic!("code should be valid"),
    }
    assert!(core.codes.is_empty());
    let again = core.redeem_code(c, 200);
    assert!(matches!(again, CallbackOutcome::InvalidCode));
    assert_eq!(again.error_text(), Some(INVALID_CODE));
}

#[test]
fn code_valid_up_to_its_expiry_second() {
    let mut core = Core::new();
    let c = core.issue_code(2_000_000_000, 100, user("alice"), CodeType::Website).unwrap();
    assert!(matches!(core.redeem_code(c, 400), CallbackOutcome::Valid { .. }));
}

#[test]
fn expired_code_is_removed() {
    let mut core = Core::new();
    let c = core.issue_code(2_000_000_000, 100, user("alice"), CodeType::Website).unwrap();
    let out = core.redeem_code(c, 401);
    assert!(matches!(out, CallbackOutcome::CodeExpired));
    assert_eq!(out.error_text(), Some(CODE_EXPIRED));
    assert!(core.codes.is_empty());
}

#[test]
fn code_of_another_kind_stays() {
    let mut core = Core::new();
    let c = core.issue_code(2_000_000_000, 100, user("alice"), CodeType::Service).unwrap();
    let out = core.redeem_code(c, 150);
    assert!(matches!(out, CallbackOutcome::WrongCodeType));
    assert_eq!(out.error_text(), Some(WRONG_CODE_TYPE_WEB));
    assert_eq!(core.codes.len(), 1);
    assert!(matches!(core.redeem_code(c, 150), CallbackOutcome::WrongCodeType));
}

#[test]
fn unknown_code_is_invalid() {
    let mut core = Core::new();
    assert!(matches!(core.redeem_code(1234567890, 0), CallbackOutcome::InvalidCode));
}

#[test]
fn website_codes_are_not_issued_by_the_ext_generator() {
    let mut core = Core::new();
    assert_eq!(core.generate_code_ext(CodeType::Website), Ok(0));
    assert_eq!(core.issue_code_ext(3_000_000_000, 0, CodeType::Website), Some(0));
    assert!(core.oauth_codes.is_empty() && core.service_codes.is_empty());
}

#[test]
fn oauth_code_starts_with_the_placeholder_account() {
    let mut core = Core::new();
    let c = core.issue_code_ext(3_000_000_000, 10, CodeType::OAuth).unwrap();
    assert_eq!(c, 3_000_000_000);
    let entry = &core.oauth_codes[&c][0];
    assert_eq!(entry.0, PLACEHOLDER);
    assert_eq!(entry.1.username, "");
    assert_eq!(entry.2, 10 + CODE_LIFETIME);
    assert_eq!(entry.3, CodeType::OAuth);
    assert!(core.codes.is_empty());
}

#[test]
fn service_code_goes_to_the_service_table() {
    let mut core = Core::new();
    let c = core.generate_code_ext(CodeType::Service).unwrap();
    assert!((CODE_MIN..=CODE_MAX).contains(&c));
    assert_eq!(core.service_codes[&c][0].2, CodeType::Service);
    assert!(core.oauth_codes.is_empty());
}

#[test]
fn binding_an_oauth_code_keeps_expiry_and_kind() {
    let mut core = Core::new();
    let c = core.issue_code_ext(3_000_000_000, 10, CodeType::OAuth).unwrap();
    assert!(core.bind_oauth_code(c, "alice".to_string(), user("alice")));
    let entries = &core.oauth_codes[&c];
    assert_eq!(entries.len(), 1);
    assert_eq!(entries[0].0, "alice");
    assert_eq!(entries[0].1.email, "alice@example.com");
    assert_eq!(entries[0].2, 10 + CODE_LIFETIME);
    assert_eq!(entries[0].3, CodeType::OAuth);
    assert!(!core.bind_oauth_code(c + 1, "bob".to_string(), user("bob")));
    assert_eq!(core.oauth_codes.len(), 1);
}

#[test]
fn uuid_code_is_the_sha256_of_the_decimal_code() {
    let mut core = Core::new();
    let uuid = core.generate_uuid_code(&123);
    assert_eq!(uuid, "a665a45920422f9d417e4867efdc4fb8a04a1f3fff1fa07e998e86f7f7a27ae3");
    assert_eq!(core.uuid_codes.get("a665a45920422f9d417e4867efdc4fb8a04a1f3fff1fa07e998e86f7f7a27ae3"), Some(&123));
    assert_eq!(core.generate_uuid_code(&123), uuid);
}

#[test]
fn account_copy_keeps_every_field() {
    let account = Account {
        redirect_addr: "example.com".to_string(),
        lang: "de".to_string(),
        meta: LoginMeta { code: 42, language: "de".to_string(), ..LoginMeta::default() },
        params: LoginParams {
            redirect: "r".to_string(),
            hl: "de".to_string(),
            service: "s".to_string(),
            oauth: true,
            debug: false,
            code: 7,
        },
        redirect_after_login: "a".to_string(),
        service_after_login: "b".to_string(),
    };
    let copy = Account::from_ref(&account);
    assert_eq!(copy.redirect_addr, "example.com");
    assert_eq!(copy.meta.code, 42);
    assert_eq!(copy.meta.language, "de");
    assert_eq!(copy.params.service, "s");
    assert!(copy.params.oauth);
    assert_eq!(copy.service_after_login, "b");
}
