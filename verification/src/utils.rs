//! Errors of the requester-address extractor.
//!
//! The extractor itself reads connection and header data in the
//! surrounding application; only its failure cases and their responses are
//! defined here.

use vstd::prelude::*;

verus! {

/// Why no requester IP address could be determined.
#[derive(Debug, Clone, Copy, PartialEq, Eq, Structural)]
pub enum ReqIpAddrError {
    /// the request had no IP address
    NoIp,
    /// the IP address in the header was malformed
    BadIp,
}

impl ReqIpAddrError {
    /// Either failure is the request's fault: HTTP 400.
    pub fn status_code(&self) -> (c: u16)
        ensures
            c == 400,
    {
        400
    }

    /// The human-readable description of this failure.
    pub fn message(&self) -> (m: String)
        ensures
            *self is NoIp ==> m@ == "the request had no IP address"@,
            *self is BadIp ==> m@ == "the IP address in the header was malformed"@,
    {
        match self {
            ReqIpAddrError::NoIp => String::from_str("the request had no IP address"),
            ReqIpAddrError::BadIp => String::from_str(
                "the IP address in the header was malformed",
            ),
        }
    }
}

} // verus!
