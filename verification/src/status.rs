//! The status of an HTTP response, as far as the updater reads it.

use vstd::prelude::*;

verus! {

/// The text that stands for a status code in a report: the number and its
/// reason phrase, as the HTTP client prints a status.
pub uninterp spec fn status_text(code: u16) -> Seq<char>;

/// A three-digit HTTP status code.
#[derive(Debug, Clone, Copy, PartialEq, Eq)]
pub struct HttpStatus {
    code: u16,
}

impl View for HttpStatus {
    type V = u16;

    closed spec fn view(&self) -> u16 {
        self.code
    }
}

/// Whether `code` can be the status of a response: at least 100, at most 999.
pub open spec fn is_status_code(code: u16) -> bool {
    100 <= code <= 999
}

/// Whether `code` reports success: the codes from 200 to 299.
pub open spec fn is_success_code(code: u16) -> bool {
    200 <= code <= 299
}

impl HttpStatus {
    #[verifier::type_invariant]
    spec fn in_range(self) -> bool {
        is_status_code(self.code)
    }

    /// The status with the given code, if it has three digits.
    pub fn new(code: u16) -> (res: Option<HttpStatus>)
        ensures
            res is Some <==> is_status_code(code),
            res matches Some(status) ==> status@ == code,
    {
        if 100 <= code && code <= 999 {
            Some(HttpStatus { code })
        } else {
            None
        }
    }

    /// The numeric code.
    pub fn code(&self) -> (res: u16)
        ensures
            res == self@,
            is_status_code(res),
    {
        proof {
            use_type_invariant(self);
        }
        self.code
    }

    /// Whether the status reports success.
    pub fn is_success(&self) -> (res: bool)
        ensures
            res == is_success_code(self@),
    {
        200 <= self.code && self.code <= 299
    }

    /// Whether an update answered with this status has been accepted: only
    /// 200 counts.
    pub fn is_ok(&self) -> (res: bool)
        ensures
            res == (self@ == 200),
    {
        self.code == 200
    }

    /// The status as it appears in a report.
    pub fn text(&self) -> (res: String)
        ensures
            res@ == status_text(self@),
    {
        proof {
            use_type_invariant(self);
        }
        display_status(self.code)
    }
}

/// Calls `reqwest::StatusCode::from_u16` and the `Display` of the status it
/// gives. The conversion accepts exactly the codes from 100 to 999; what is
/// printed depends on the code alone and is named `status_text`.
#[verifier::external_body]
fn display_status(code: u16) -> (text: String)
    requires
        is_status_code(code),
    ensures
        text@ == status_text(code),
{
    match reqwest::StatusCode::from_u16(code) {
        Ok(status) => status.to_string(),
        Err(_) => String::new(),
    }
}

} // verus!
