//! Claims carried by the backend's own session token.
//!
//! Token encoding, signing and validation happen in the surrounding
//! application; this module only defines what a claim set holds. Times are
//! milliseconds since the Unix epoch, handed in by the caller that read
//! the clock.

use vstd::prelude::*;

verus! {

/// What kind of principal a token represents.
#[derive(Debug, Clone, Copy, PartialEq, Eq, Structural, Default)]
pub enum UserKind {
    #[default]
    Player,
    Host,
    Admin,
}

impl UserKind {
    /// Whether this is an ordinary player (the default kind).
    pub fn is_user(&self) -> (r: bool)
        ensures
            r == (*self is Player),
    {
        *self == UserKind::Player
    }
}

/// The claim set of one issued token.
#[derive(Debug, Clone, Copy, PartialEq, Eq, Structural)]
pub struct Claims {
    /// Issued At
    ///
    /// milliseconds since the unix epoch
    pub iat: i64,
    /// Expiration
    ///
    /// milliseconds since the unix epoch
    pub exp: i64,
    pub user_id: u128,
    pub user_kind: UserKind,
}

impl Claims {
    /// Claims issued at `now_ms` for `user_id`, expiring `expires_in_ms`
    /// later.
    pub fn new(user_id: u128, user_kind: UserKind, now_ms: i64, expires_in_ms: i64) -> (c: Claims)
        requires
            0 <= expires_in_ms,
            now_ms + expires_in_ms <= i64::MAX,
        ensures
            c.iat == now_ms,
            c.exp == now_ms + expires_in_ms,
            c.user_id == user_id,
            c.user_kind == user_kind,
    {
        Claims { iat: now_ms, exp: now_ms + expires_in_ms, user_id, user_kind }
    }
}

} // verus!
