//! The status code of an HTTP response, as the gateway client and the health
//! checks read it.

use vstd::prelude::*;

verus! {

/// The line that `reqwest::StatusCode` shows for a status code: the number and
/// the reason that goes with it.
pub uninterp spec fn status_line(code: u16) -> Seq<char>;

/// Asks `reqwest::StatusCode::from_u16` whether a number is a status code: it
/// accepts the numbers from 100 to 999 and no other.
#[verifier::external_body]
fn is_status_code(code: u16) -> (r: bool)
    ensures
        r == (100 <= code <= 999),
{
    reqwest::StatusCode::from_u16(code).is_ok()
}

/// Asks `reqwest::StatusCode::is_success` whether a status code stands for
/// success: it does for the codes from 200 to 299.
#[verifier::external_body]
fn code_is_success(code: u16) -> (r: bool)
    requires
        100 <= code <= 999,
    ensures
        r == (200 <= code <= 299),
{
    match reqwest::StatusCode::from_u16(code) {
        Ok(status) => status.is_success(),
        Err(_) => false,
    }
}

/// Formats a status code as `reqwest::StatusCode` displays it: the number, a
/// space, and the reason out of the crate's table, or a fixed text where the
/// table has none. The contract gives the text its name and claims that it
/// holds no line feed, as none of the parts does.
#[verifier::external_body]
fn code_line(code: u16) -> (r: String)
    requires
        100 <= code <= 999,
    ensures
        r@ == status_line(code),
        !r@.contains('\n'),
{
    match reqwest::StatusCode::from_u16(code) {
        Ok(status) => status.to_string(),
        Err(_) => String::new(),
    }
}

/// A status code: a number from 100 to 999.
#[derive(Debug, Clone, Copy, PartialEq, Eq)]
pub struct Status {
    code: u16,
}

impl Status {
    #[verifier::type_invariant]
    spec fn in_range(self) -> bool {
        100 <= self.code <= 999
    }

    /// The number of the status code.
    pub closed spec fn code(self) -> u16 {
        self.code
    }

    /// Whether the status code stands for success.
    pub open spec fn success(self) -> bool {
        200 <= self.code() <= 299
    }

    /// Makes a status code of a number, if it is one.
    pub fn from_u16(code: u16) -> (r: Option<Status>)
        ensures
            r is Some == (100 <= code <= 999),
            r matches Some(status) ==> status.code() == code,
    {
        if is_status_code(code) {
            Some(Status { code })
        } else {
            None
        }
    }

    /// The number of the status code.
    pub fn as_u16(&self) -> (r: u16)
        ensures
            r == self.code(),
            100 <= r <= 999,
    {
        proof {
            use_type_invariant(self);
        }
        self.code
    }

    /// Whether the status code stands for success.
    pub fn is_success(&self) -> (r: bool)
        ensures
            r == self.success(),
    {
        proof {
            use_type_invariant(self);
        }
        code_is_success(self.code)
    }

    /// The line to show for the status code. It holds no line feed.
    pub fn line(&self) -> (r: String)
        ensures
            r@ == status_line(self.code()),
            !r@.contains('\n'),
    {
        proof {
            use_type_invariant(self);
        }
        code_line(self.code)
    }
}

} // verus!
