use vstd::prelude::*;
use vstd::string::StringExecFns;

verus! {

/// The claims carried by an issued token: the subject (user id), the
/// expiry and the issue time, both in seconds since the epoch.
pub struct Claims {
    pub sub: String,
    pub exp: usize,
    pub iat: usize,
}

/// A login attempt.
pub struct LoginRequest {
    pub email: String,
    pub password: String,
}

/// A successful login: the issued token and the user it names.
pub struct LoginResponse {
    pub token: String,
    pub user_id: String,
}

/// A token presented for verification.
pub struct VerifyTokenRequest {
    pub token: String,
}

/// The verdict on a presented token.
pub struct VerifyTokenResponse {
    pub valid: bool,
    pub user_id: Option<String>,
}

/// The service configuration, read from the environment at startup.
#[derive(Debug)]
pub struct AppConfig {
    pub database_url: String,
    pub redis_url: String,
    pub jwt_secret: String,
    pub clerk_secret_key: String,
    pub port: u16,
    pub rust_log: String,
}

/// How long an issued token stays valid, in seconds.
pub open spec fn spec_token_lifetime() -> int {
    86400
}

/// Token issuing and verification rules.
pub struct AuthService;

impl AuthService {
    /// The claims of a token issued to `user_id` at time `now` (seconds
    /// since the epoch): the token names the user and expires one day
    /// after it was issued.
    pub fn build_claims(user_id: &str, now: usize) -> (c: Claims)
        requires
            now + spec_token_lifetime() <= usize::MAX,
        ensures
            c.sub@ == user_id@,
            c.iat == now,
            c.exp == now + spec_token_lifetime(),
    {
        Claims { sub: String::from_str(user_id), exp: now + 86400, iat: now }
    }

    /// Whether a login attempt carries the accepted credentials. (The
    /// only account is the built-in test account.)
    pub fn login_allowed(req: &LoginRequest) -> (r: bool)
        ensures
            r == (req.email@ == "test@example.com"@ && req.password@ == "password"@),
    {
        let email_ok = req.email == String::from_str("test@example.com");
        let password_ok = req.password == String::from_str("password");
        email_ok && password_ok
    }
}

} // verus!
