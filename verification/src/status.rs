//! HTTP status codes.

use vstd::prelude::*;

verus! {

/// The smallest number that is a status code.
pub const MIN_STATUS: u16 = 100;

/// The largest number that is a status code.
pub const MAX_STATUS: u16 = 999;

/// A three-digit HTTP status code.
#[derive(Clone, Copy, Debug, PartialEq, Eq, Structural)]
pub struct StatusCode {
    code: u16,
}

impl StatusCode {
    /// Every status code has three digits.
    #[verifier::type_invariant]
    pub closed spec fn well_formed(self) -> bool {
        MIN_STATUS <= self.code <= MAX_STATUS
    }

    /// The number of this status code.
    pub closed spec fn value(self) -> u16 {
        self.code
    }

    /// Whether this code reports a fault of the server (5xx).
    pub open spec fn server_fault(self) -> bool {
        500 <= self.value() <= 599
    }

    /// The status code with the number `code`; it is one that a server can
    /// send where `code` has three digits.
    pub closed spec fn numbered(code: u16) -> StatusCode {
        StatusCode { code }
    }

    /// The status code with the number `code`, if `code` has three digits.
    pub fn from_u16(code: u16) -> (r: Option<StatusCode>)
        ensures
            r.is_some() <==> MIN_STATUS <= code <= MAX_STATUS,
            r matches Some(s) ==> s == Self::numbered(code) && s.value() == code,
    {
        if MIN_STATUS <= code && code <= MAX_STATUS {
            Some(StatusCode { code })
        } else {
            None
        }
    }

    /// 500 Internal Server Error.
    pub closed spec fn internal_server_error_spec() -> StatusCode {
        StatusCode { code: 500 }
    }

    /// 500 Internal Server Error.
    #[verifier::when_used_as_spec(internal_server_error_spec)]
    pub fn internal_server_error() -> (s: StatusCode)
        ensures
            s == Self::internal_server_error_spec(),
            s.value() == 500,
    {
        StatusCode { code: 500 }
    }

    /// The number of this status code.
    pub fn as_u16(&self) -> (code: u16)
        ensures
            code == self.value(),
            MIN_STATUS <= code <= MAX_STATUS,
    {
        proof {
            use_type_invariant(self);
        }
        self.code
    }

    /// Whether this code reports a fault of the server (5xx).
    pub fn is_server_error(&self) -> (b: bool)
        ensures
            b == self.server_fault(),
    {
        500 <= self.code && self.code <= 599
    }
}

/// The status code 500 reports a fault of the server.
pub proof fn lemma_internal_server_error()
    ensures
        StatusCode::internal_server_error() == StatusCode::numbered(500),
        StatusCode::internal_server_error().value() == 500,
        StatusCode::internal_server_error().server_fault(),
{
}

/// A status code has the number that it was made with.
pub proof fn lemma_numbered(code: u16)
    ensures
        StatusCode::numbered(code).value() == code,
{
}

/// Two status codes with the same number are the same status code.
pub proof fn lemma_status_by_value(a: StatusCode, b: StatusCode)
    requires
        a.value() == b.value(),
    ensures
        a == b,
{
}

} // verus!
