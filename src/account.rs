//! Account data that accompanies image references.
use vstd::prelude::*;

verus! {

/// Whether an account has been activated.
#[derive(Clone, Copy, Debug, PartialEq, Eq, Structural)]
pub enum AccountStatus {
    Inactive,
    Active,
}

/// The stored code of each status.
pub open spec fn status_code(s: AccountStatus) -> i16 {
    match s {
        AccountStatus::Inactive => 0,
        AccountStatus::Active => 1,
    }
}

impl AccountStatus {
    /// The code this status is stored as.
    pub fn code(&self) -> (r: i16)
        ensures
            r == status_code(*self),
    {
        match self {
            AccountStatus::Inactive => 0,
            AccountStatus::Active => 1,
        }
    }

    /// The status stored as `code`, if any.
    pub fn from_code(code: i16) -> (r: Option<AccountStatus>)
        ensures
            r matches Some(s) ==> status_code(s) == code,
            r is None <==> (code != 0 && code != 1),
    {
        if code == 0 {
            Some(AccountStatus::Inactive)
        } else if code == 1 {
            Some(AccountStatus::Active)
        } else {
            None
        }
    }
}

/// The credentials of an account, as needed to log in.
#[derive(Clone, Debug)]
pub struct AuthUser {
    pub id: i32,
    pub email: String,
    /// The password hash.
    pub password: String,
    pub status: AccountStatus,
}

/// The claims of an access token.
#[derive(Clone, Copy, Debug, PartialEq, Eq, Structural)]
pub struct Claims {
    /// The user id.
    pub sub: i32,
    /// Expiry, in seconds since the Unix epoch.
    pub exp: usize,
}

/// Token settings.
pub struct JWTConfig {
    pub secret: String,
    /// Token lifetime in seconds.
    pub expiration: i64,
}

/// Tokens live for one day unless configured otherwise.
pub const DEFAULT_TOKEN_LIFETIME_SECS: i64 = 86400;

impl JWTConfig {
    /// Settings with the given signing secret and the default lifetime.
    pub fn new(secret: String) -> (r: JWTConfig)
        ensures
            r.secret == secret,
            r.expiration == DEFAULT_TOKEN_LIFETIME_SECS,
    {
        JWTConfig { secret, expiration: DEFAULT_TOKEN_LIFETIME_SECS }
    }
}

impl Claims {
    /// The claims of a token for `user_id` issued at `now` (seconds since the
    /// Unix epoch); `None` when the expiry is negative or does not fit `i64`
    /// and `usize`.
    pub fn issue(user_id: i32, now: i64, config: &JWTConfig) -> (r: Option<Claims>)
        ensures
            r is Some <==> (0 <= now + config.expiration <= i64::MAX && now + config.expiration <= usize::MAX),
            r matches Some(c) ==> c.sub == user_id && c.exp == now + config.expiration,
    {
        match now.checked_add(config.expiration) {
            Some(t) => if t >= 0 && (t as u64) <= (usize::MAX as u64) {
                Some(Claims { sub: user_id, exp: t as usize })
            } else {
                None
            },
            None => None,
        }
    }
}

/// A request whose token carried valid claims.
pub struct UserClaims(pub Claims);

/// A request from an existing user.
pub struct UserId(pub i32);

} // verus!
