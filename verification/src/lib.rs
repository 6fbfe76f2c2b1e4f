//! HTTP byte-range handling (a subset of RFC 7233) for the `ehttpd` server
//! library: parsing a `Range` request header into a typed range value,
//! resolving that value against a concrete resource length, and building
//! `206 Partial Content` responses with `Content-Range`/`Content-Length`
//! headers and a body restricted to the resolved byte interval.

pub mod anyrange;
pub mod decimal;
pub mod ehttpd_api;
pub mod rangeext;
pub mod requestext;
pub mod responseext;

use vstd::prelude::*;

verus! {

/// The failures that range parsing, resolution and response construction
/// can report.
#[derive(Debug, Clone, Copy, PartialEq, Eq, Structural)]
pub enum RangeError {
    /// A `Range` header value with a broken structure (missing `=` or `-`)
    /// or a unit token other than `bytes`.
    MalformedRangeHeader,
    /// A range boundary token that is not an unsigned decimal integer, or
    /// one that does not fit into 64 bits.
    InvalidRangeNumber,
    /// A resolved range whose end lies before its start.
    RangeInvalid,
    /// A range that does not fit within the resource's concrete length.
    RangeOutOfBounds,
    /// A range-body setter invoked on a response whose status is not `206`.
    WrongResponseStatus,
    /// An I/O failure reported by a file-backed resource.
    IoFailure,
}

impl RangeError {
    /// A short human-readable description of the error.
    pub fn message(&self) -> (r: &'static str)
        ensures
            r@.len() > 0,
    {
        let msg: &'static str = match self {
            RangeError::MalformedRangeHeader => "Invalid range header field",
            RangeError::InvalidRangeNumber => "Invalid number in range header field",
            RangeError::RangeInvalid => "End of inclusive range is before start",
            RangeError::RangeOutOfBounds => "Range would exceed the resource size",
            RangeError::WrongResponseStatus => "Response is not a 206 response",
            RangeError::IoFailure => "An I/O error occurred",
        };
        proof {
            reveal_strlit("Invalid range header field");
            reveal_strlit("Invalid number in range header field");
            reveal_strlit("End of inclusive range is before start");
            reveal_strlit("Range would exceed the resource size");
            reveal_strlit("Response is not a 206 response");
            reveal_strlit("An I/O error occurred");
        }
        msg
    }
}

} // verus!
