use argon2::password_hash::{PasswordHasher, SaltString};
use argon2::Argon2;
use strawberry_id::account::setup_totp_outcome;
use strawberry_id::api::{api_code_request, auth_check, auth_has_credentials, AuthOutcome};
use strawberry_id::consts::{INVALID_TOKEN, INVALID_USERNAME, NO_CREDENTIALS};
use strawberry_id::object::{CodeType, UserData};
use strawberry_id::params::AuthParams;
use strawberry_id::system_core::{try_verify_password, verify_password, Core};
use strawberry_id::totp::StrawberryIdTotp;
use strawberry_id::utilities::{generate_hash, name_parser, unix_time};
use strawberry_id::uuid::{generate_random_uuid, uuid_from_nanos};
use strawberry_id::state::AppState;
use strawberry_id::consts::PLACEHOLDER;
use strawberry_id::system_core::CODE_LIFETIME;

fn phc(password: &str) -> String {
    let salt = SaltString::from_b64("c29tZXNhbHRzb21lc2FsdA").unwrap();
    Argon2::default().hash_password(password.as_bytes(), &salt).unwrap().to_string()
}

#[test]
fn hash_of_text() {
    assert_eq!(
        generate_hash("abc".to_string()),
        "ba7816bf8f01cfea414140de5dae2223b00361a396177a9cb410ff61f20015ad"
    );
    assert_eq!(generate_hash(String::new()).len(), 64);
}

#[test]
fn password_check() {
    let stored = phc("hunter2");
    assert!(verify_password(stored.clone(), &"hunter2".to_string()));
    assert!(!verify_password(stored.clone(), &"hunter3".to_string()));
    assert_eq!(try_verify_password(stored, &"hunter2".to_string()), Some(true));
    assert_eq!(try_verify_password("not a hash".to_string(), &"x".to_string()), None);
}

#[test]
fn token_check() {
    let blank = AuthParams { username: " ".to_string(), token: "t".to_string() };
    assert!(!auth_has_credentials(&blank));
    assert_eq!(AuthOutcome::NoCredentials.error_text(), Some(NO_CREDENTIALS));
    let full = AuthParams { username: "alice".to_string(), token: "t".to_string() };
    assert!(auth_has_credentials(&full));
    let mut u = UserData::default();
    u.password = "abc".to_string();
    let good = "ba7816bf8f01cfea414140de5dae2223b00361a396177a9cb410ff61f20015ad";
    assert!(matches!(auth_check(Some(&u), good), AuthOutcome::Valid));
    assert_eq!(auth_check(Some(&u), good).error_text(), None);
    let bad = auth_check(Some(&u), "abc");
    assert_eq!(bad.error_text(), Some(INVALID_TOKEN));
    assert_eq!(auth_check(None, good).error_text(), Some(INVALID_USERNAME));
}

#[test]
fn totp_setup_with_known_secret() {
    let secret = b"12345678901234567890".to_vec();
    let t = StrawberryIdTotp::setup_with_secret(secret, "alice").unwrap();
    assert_eq!(t.secret, "3132333435363738393031323334353637383930");
    assert_eq!(t.secret_base32, "GEZDGNBVGY3TQOJQGEZDGNBVGY3TQOJQ");
    assert!(!t.qr_code.is_empty());
}

#[test]
fn totp_setup_with_random_secret() {
    let t = StrawberryIdTotp::setup("bob").unwrap();
    assert_eq!(t.secret.len(), 40);
    assert_eq!(t.secret_base32.len(), 32);
}

#[test]
fn totp_check_against_rfc_vector() {
    // RFC 6238, SHA-1, T = 59: 94287082, of which the last six digits count.
    assert!(StrawberryIdTotp::check_at("12345678901234567890", "287082", 59));
    assert!(!StrawberryIdTotp::check_at("12345678901234567890", "287083", 59));
    assert!(!StrawberryIdTotp::check_at("12345678901234567890", "94287082", 59));
    assert!(StrawberryIdTotp::check_at("12345678901234567890", "081804", 1111111109));
}

#[test]
fn totp_setup_outcome_refuses_malformed_codes() {
    let r = setup_totp_outcome("12345678901234567890", "12").unwrap();
    assert!(!r.accepted);
    assert_eq!(r.totp_enabled, "false");
    assert_eq!(r.action, "setup_totp_failed");
    assert_eq!(StrawberryIdTotp::check("12345678901234567890", "abcdef"), Some(false));
}

#[test]
fn uuid_is_hex_of_the_clock() {
    assert_eq!(uuid_from_nanos(255), "ff");
    assert_eq!(uuid_from_nanos((1u128 << 64) + 16), "10");
    let u = generate_random_uuid().unwrap();
    assert!(!u.is_empty() && u.chars().all(|c| c.is_ascii_hexdigit() && !c.is_ascii_uppercase()));
}

#[test]
fn clock_and_names() {
    assert!(unix_time().unwrap() > 1_600_000_000);
    let state = AppState::new(Vec::new(), vec![("cloud".to_string(), "Strawberry Cloud".to_string())]);
    assert_eq!(name_parser(&state, "cloud"), "Strawberry Cloud");
    assert_eq!(name_parser(&state, "other"), "other");
}

#[test]
fn code_request_returns_a_pending_code() {
    let mut core = Core::new();
    let text = api_code_request(&mut core).unwrap();
    let code: u64 = text.parse().unwrap();
    assert!(core.oauth_codes.contains_key(&code));
    assert_eq!(text.len(), 10);
    let entry = &core.oauth_codes[&code];
    assert_eq!(entry.len(), 1);
    assert_eq!(entry[0].0, PLACEHOLDER);
    assert_eq!(entry[0].1.username, "");
    assert_eq!(entry[0].3, CodeType::OAuth);
    assert!(entry[0].2 >= CODE_LIFETIME);
    assert!(core.codes.is_empty() && core.service_codes.is_empty());
}
