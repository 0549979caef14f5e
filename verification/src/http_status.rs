//! HTTP status codes.
use crate::outside;
use crate::outside::status_text;
use crate::text;
use vstd::prelude::*;

verus! {

/// An HTTP status code, from 100 to 999.
#[derive(Debug, Clone, Copy, PartialEq, Eq)]
pub struct HttpStatus {
    code: u16,
}

impl View for HttpStatus {
    type V = u16;

    closed spec fn view(&self) -> u16 {
        self.code
    }
}

impl HttpStatus {
    #[verifier::type_invariant]
    spec fn valid(self) -> bool {
        100 <= self.code <= 999
    }

    /// The status with this code; `None` when there is no such status.
    pub fn new(code: u16) -> (r: Option<Self>)
        ensures
            match r {
                Some(status) => 100 <= code <= 999 && status@ == code,
                None => !(100 <= code <= 999),
            },
    {
        if 100 <= code && code <= 999 {
            Some(HttpStatus { code })
        } else {
            None
        }
    }

    pub fn code(self) -> (r: u16)
        ensures
            r == self@,
            100 <= r <= 999,
    {
        proof {
            use_type_invariant(&self);
        }
        self.code
    }

    /// Whether the status says that the request was served: 200 to 299.
    pub fn is_success(self) -> (r: bool)
        ensures
            r == is_success(self@),
    {
        200 <= self.code && self.code < 300
    }

    /// Whether the status says that the request failed: 400 to 599.
    pub fn is_error(self) -> (r: bool)
        ensures
            r == is_error(self@),
    {
        400 <= self.code && self.code < 600
    }

    /// Prints the code with its reason phrase.
    pub fn display_text(self) -> (r: String)
        ensures
            r@ == outside::status_display(self@),
            text::starts_with(r@, text::decimal(self@ as nat).push(' ')),
    {
        proof {
            use_type_invariant(&self);
        }
        status_text(self.code)
    }
}

/// Whether a status code stands for success.
pub open spec fn is_success(code: u16) -> bool {
    200 <= code < 300
}

/// Whether a status code stands for an error of the client or the server.
pub open spec fn is_error(code: u16) -> bool {
    400 <= code < 600
}

/// The first digit of a status says what it is: 2 is success, 4 and 5 are errors.
pub proof fn law_first_digit_tells_the_class(code: u16)
    ensures
        is_success(code) <==> code / 100 == 2,
        is_error(code) <==> code / 100 == 4 || code / 100 == 5,
{
}

} // verus!
