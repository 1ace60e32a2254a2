use vstd::prelude::*;

verus! {

/// Query parameters of the login pages.
pub struct LoginParams {
    pub redirect: String,
    pub hl: String,
    pub service: String,
    pub oauth: bool,
    pub debug: bool,
    pub code: u64,
}

/// Query parameters of the logout route.
pub struct LogoutParams {
    pub hl: String,
}

/// Query parameters after a login.
pub struct PostLoginParams {
    pub uuid: String,
}

/// Query parameters that carry a code.
pub struct ApiParams {
    pub code: u64,
}

/// Query parameters of the token check.
pub struct AuthParams {
    pub username: String,
    pub token: String,
}

impl LoginParams {
    /// A field-by-field copy.
    pub fn duplicate(&self) -> (res: Self)
        ensures
            res == *self,
    {
        LoginParams {
            redirect: self.redirect.clone(),
            hl: self.hl.clone(),
            service: self.service.clone(),
            oauth: self.oauth,
            debug: self.debug,
            code: self.code,
        }
    }
}

} // verus!
