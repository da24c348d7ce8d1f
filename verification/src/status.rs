//! HTTP status codes: which count as success, and how one is written out.

use vstd::prelude::*;
use reqwest::StatusCode;

verus! {

/// The text that `reqwest::StatusCode` displays for the status with number
/// `code`: the number, a space, and the standard reason phrase of that
/// status ("500 Internal Server Error"), or a fixed placeholder where the
/// status has no standard phrase.
pub uninterp spec fn status_line(code: u16) -> Seq<char>;

/// Calls `reqwest::StatusCode::is_success` on the status with number
/// `code`. Trusted: the status is a success exactly when its number lies
/// from 200 to 299.
#[verifier::external_body]
fn status_is_success(code: u16) -> (success: bool)
    requires
        100 <= code <= 999,
    ensures
        success == (200 <= code <= 299),
{
    match StatusCode::from_u16(code) {
        Ok(status) => status.is_success(),
        Err(_) => false,
    }
}

/// Calls `to_string` on the `reqwest::StatusCode` with number `code`.
/// Trusted: the text is `status_line(code)`, the same for the same number.
#[verifier::external_body]
fn status_to_string(code: u16) -> (text: String)
    requires
        100 <= code <= 999,
    ensures
        text@ == status_line(code),
{
    match StatusCode::from_u16(code) {
        Ok(status) => status.to_string(),
        Err(_) => String::new(),
    }
}

/// An HTTP status: a number from 100 to 999.
#[derive(Clone, Copy, Debug, PartialEq, Eq, Structural)]
pub struct HttpStatus {
    code: u16,
}

impl View for HttpStatus {
    type V = u16;

    /// The number of the status.
    closed spec fn view(&self) -> u16 {
        self.code
    }
}

impl HttpStatus {
    #[verifier::type_invariant]
    spec fn three_digits(&self) -> bool {
        100 <= self.code <= 999
    }

    /// The status with number `code`, if there is one.
    pub fn from_u16(code: u16) -> (status: Option<HttpStatus>)
        ensures
            status is Some <==> 100 <= code <= 999,
            status is Some ==> status->0@ == code,
    {
        if 100 <= code && code <= 999 {
            Some(HttpStatus { code })
        } else {
            None
        }
    }

    /// 200, the request was carried out.
    pub fn ok() -> (status: HttpStatus)
        ensures
            status@ == 200,
    {
        HttpStatus { code: 200 }
    }

    /// 206, only part of the request was carried out.
    pub fn partial_content() -> (status: HttpStatus)
        ensures
            status@ == 206,
    {
        HttpStatus { code: 206 }
    }

    /// 400, the request was refused as malformed.
    pub fn bad_request() -> (status: HttpStatus)
        ensures
            status@ == 400,
    {
        HttpStatus { code: 400 }
    }

    /// The number of the status.
    pub fn as_u16(&self) -> (code: u16)
        ensures
            code == self@,
            100 <= code <= 999,
    {
        proof {
            use_type_invariant(self);
        }
        self.code
    }

    /// Whether the status reports success: its number lies from 200 to 299.
    pub fn is_success(&self) -> (success: bool)
        ensures
            success == (200 <= self@ <= 299),
    {
        proof {
            use_type_invariant(self);
        }
        status_is_success(self.code)
    }

    /// The status written out, number and reason phrase.
    pub fn to_text(&self) -> (text: String)
        ensures
            text@ == status_line(self@),
    {
        proof {
            use_type_invariant(self);
        }
        status_to_string(self.code)
    }
}

} // verus!
