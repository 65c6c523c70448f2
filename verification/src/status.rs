//! The status of an HTTP answer.

use crate::text::decimal;
use reqwest::StatusCode;
use vstd::prelude::*;

verus! {

/// The status code of an HTTP answer: a number of three digits.
#[derive(Clone, Copy, Debug, PartialEq, Eq)]
pub struct HttpStatus {
    code: u16,
}

/// Whether a number is a status code.
pub open spec fn is_status_code(code: u16) -> bool {
    100 <= code <= 999
}

/// Whether a status code tells of success.
pub open spec fn is_success_code(code: u16) -> bool {
    200 <= code < 300
}

/// A status code with its reason phrase: what `StatusCode` of `reqwest` displays.
pub uninterp spec fn status_line(code: u16) -> Seq<char>;

/// Writes a status code with its reason phrase, such as `404 Not Found`.
///
/// Calls the `Display` of `reqwest`'s `StatusCode`. Trusted: the text depends on the code alone.
#[verifier::external_body]
fn status_text(code: u16) -> (r: String)
    requires
        is_status_code(code),
    ensures
        r@ == status_line(code),
{
    StatusCode::from_u16(code).unwrap().to_string()
}

impl View for HttpStatus {
    type V = u16;

    closed spec fn view(&self) -> u16 {
        self.code
    }
}

impl HttpStatus {
    #[verifier::type_invariant]
    spec fn three_digits(self) -> bool {
        is_status_code(self.code)
    }

    /// The status of this code, if it is a status code.
    pub fn new(code: u16) -> (r: Option<HttpStatus>)
        ensures
            r is Some <==> is_status_code(code),
            r is Some ==> r->Some_0@ == code,
    {
        if 100 <= code && code <= 999 {
            Some(HttpStatus { code })
        } else {
            None
        }
    }

    /// The number of the status.
    pub fn code(&self) -> (r: u16)
        ensures
            r == self@,
            is_status_code(r),
    {
        proof {
            use_type_invariant(self);
        }
        self.code
    }

    /// Tells whether the status is one of success.
    pub fn is_success(&self) -> (r: bool)
        ensures
            r == is_success_code(self@),
    {
        200 <= self.code && self.code < 300
    }

    /// The status with its reason phrase.
    pub fn line(&self) -> (r: String)
        ensures
            r@ == status_line(self@),
    {
        status_text(self.code())
    }
}

/// A status is of success exactly where its code is one of the two hundreds.
pub proof fn law_success_is_the_two_hundreds(code: u16)
    ensures
        is_success_code(code) <==> code / 100 == 2,
{
}

/// The codes of a status are the numbers that have three digits in decimal.
pub proof fn law_status_code_has_three_digits(code: u16)
    ensures
        is_status_code(code) <==> decimal(code as nat).len() == 3,
{
    reveal_with_fuel(decimal, 6);
}

} // verus!
