//! Rate limiting: the backend decisions and the error they surface.
//!
//! The middleware plumbing that extracts a caller identity from a request
//! and counts per-window hits lives in the surrounding application; here
//! stand the dummy backend's decision and the rejection response.

use vstd::prelude::*;

verus! {

/// dummy rate limiting backend, always lets requests through
#[derive(Debug, Clone, Copy, Default)]
pub struct Dummy();

impl Dummy {
    pub fn new() -> (d: Dummy) {
        Dummy()
    }

    /// Whether to reject the current request: never, whoever asks.
    pub fn limit(&self) -> (b: bool)
        ensures
            !b,
    {
        false
    }
}

/// The response given to a rate-limited caller.
#[derive(Debug, Clone, Copy)]
pub struct RateLimiterError();

impl RateLimiterError {
    /// HTTP 429.
    pub fn status_code(&self) -> (c: u16)
        ensures
            c == 429,
    {
        429
    }

    /// The response body.
    pub fn message(&self) -> (m: String)
        ensures
            m@ == "too many requests"@,
    {
        String::from_str("too many requests")
    }
}

} // verus!
