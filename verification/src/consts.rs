use vstd::prelude::*;

verus! {

/// Smallest code that the code generator hands out.
pub const CODE_MIN: u64 = 1111111111;

/// Largest code that the code generator hands out.
pub const CODE_MAX: u64 = 9999999999;

/// Answer to a code that has expired.
pub const CODE_EXPIRED: &'static str = r#"{"data": { "status": "Code expired" }}"#;

/// Answer to a code that does not exist.
pub const INVALID_CODE: &'static str = r#"{"data": { "status": "Invalid code" }}"#;

/// Answer to a request without a login.
pub const NOT_AUTHENTICATED: &'static str = r#"{"data": { "status": "Not authenticated" }}"#;

/// Answer to a code that is not an OAuth code.
pub const WRONG_CODE_TYPE_OAUTH: &'static str = r#"{"data": { "status": "Code type is not for OAuth" }}"#;

/// Answer to a code that is not a website code.
pub const WRONG_CODE_TYPE_WEB: &'static str = r#"{"data": { "status": "Code type is not for Web" }}"#;

/// Answer to a token check without user name or token.
pub const NO_CREDENTIALS: &'static str = r#"{"data": { "status": "No credentials given" }}"#;

/// Answer to a token check for an unknown user.
pub const INVALID_USERNAME: &'static str = r#"{"data": { "status": "Invalid username" }}"#;

/// Answer to a token check with a wrong token.
pub const INVALID_TOKEN: &'static str = r#"{"data": { "status": "Invalid token" }}"#;

/// Id of the placeholder account that an OAuth code names until a user
/// binds it.
pub const PLACEHOLDER: &'static str = ".strawberry_id_admin";

} // verus!
