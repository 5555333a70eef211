//! Plain descriptions of HTTP requests and statuses.
//!
//! The library decides what is sent and what a response means; sending and
//! receiving are left to the caller, which turns a [`Request`] into a call of
//! its HTTP client.

use vstd::prelude::*;
use vstd::string::StringExecFns;

verus! {

/// The decimal digit for a number from 0 to 9.
pub open spec fn digit(d: int) -> char {
    if d == 0 {
        '0'
    } else if d == 1 {
        '1'
    } else if d == 2 {
        '2'
    } else if d == 3 {
        '3'
    } else if d == 4 {
        '4'
    } else if d == 5 {
        '5'
    } else if d == 6 {
        '6'
    } else if d == 7 {
        '7'
    } else if d == 8 {
        '8'
    } else {
        '9'
    }
}

/// The three decimal digits of a status code from 100 to 999.
pub open spec fn status_digits(code: u16) -> Seq<char> {
    seq![digit(code as int / 100), digit((code as int / 10) % 10), digit(code as int % 10)]
}

/// The standard reason phrase of a status code, such as `Not Found` for 404;
/// for a code without one, the text `<unknown status code>`.
pub uninterp spec fn reason_phrase(code: u16) -> Seq<char>;

/// The text that a status displays: its three digits, a space, and its
/// reason phrase.
pub open spec fn status_text(code: u16) -> Seq<char> {
    status_digits(code) + seq![' '] + reason_phrase(code)
}

/// `reqwest::StatusCode::from_u16` followed by the status's `Display`. The
/// conversion succeeds exactly for the codes from 100 to 999. The status
/// then displays as its number in decimal, a space, and its canonical reason
/// phrase, or `<unknown status code>` where it has none; the phrase is
/// named [`reason_phrase`].
#[verifier::external_body]
fn display_status(code: u16) -> (text: Option<String>)
    ensures
        text is Some <==> 100 <= code <= 999,
        text is Some ==> text->Some_0@ == status_digits(code) + seq![' '] + reason_phrase(code),
{
    match reqwest::StatusCode::from_u16(code) {
        Ok(status) => Some(status.to_string()),
        Err(_) => None,
    }
}

/// The status code of an HTTP response: a number from 100 to 999.
#[derive(Clone, Copy, Debug)]
pub struct HttpStatus {
    code: u16,
}

impl HttpStatus {
    #[verifier::type_invariant]
    spec fn in_range(self) -> bool {
        100 <= self.code <= 999
    }

    /// The number of the status.
    pub closed spec fn value(self) -> u16 {
        self.code
    }

    /// Whether the status is one of success: from 200 to 299.
    pub open spec fn success(self) -> bool {
        200 <= self.value() < 300
    }

    /// The status with the given number, where that is from 100 to 999.
    pub fn from_u16(code: u16) -> (status: Option<HttpStatus>)
        ensures
            status is Some <==> 100 <= code <= 999,
            status is Some ==> status->Some_0.value() == code,
    {
        if 100 <= code && code <= 999 {
            Some(HttpStatus { code })
        } else {
            None
        }
    }

    /// The number of the status.
    pub fn as_u16(&self) -> (code: u16)
        ensures
            code == self.value(),
            100 <= code <= 999,
    {
        proof {
            use_type_invariant(self);
        }
        self.code
    }

    /// The text that the status displays, such as `404 Not Found`.
    pub fn to_string(&self) -> (text: String)
        ensures
            text@ == status_text(self.value()),
    {
        proof {
            use_type_invariant(self);
        }
        match display_status(self.code) {
            Some(text) => text,
            None => String::new(),
        }
    }

    /// Whether the status is one of success: from 200 to 299.
    pub fn is_success(&self) -> (success: bool)
        ensures
            success == self.success(),
    {
        200 <= self.code && self.code < 300
    }
}

/// The method of a request.
#[derive(Clone, Copy, Debug, PartialEq, Eq, Structural)]
pub enum Method {
    /// `GET`.
    Get,
    /// `POST`.
    Post,
    /// `DELETE`.
    Delete,
}

/// One header of a request.
#[derive(Clone, Debug)]
pub struct Header {
    /// The header's name.
    pub name: String,
    /// The header's value.
    pub value: String,
}

impl View for Header {
    type V = (Seq<char>, Seq<char>);

    open spec fn view(&self) -> (Seq<char>, Seq<char>) {
        (self.name@, self.value@)
    }
}

impl Header {
    /// The header with the given name and value.
    pub fn new(name: &str, value: &str) -> (header: Header)
        ensures
            header@ == (name@, value@),
    {
        Header { name: String::from_str(name), value: String::from_str(value) }
    }
}

/// A request that is ready to be sent.
#[derive(Debug)]
pub struct Request {
    /// The method.
    pub method: Method,
    /// The full URL.
    pub url: String,
    /// The headers, in the order in which they are set.
    pub headers: Vec<Header>,
    /// The body, as JSON text, of a request that has one.
    pub body: Option<String>,
}

/// The mathematical model of a [`Request`].
pub struct RequestModel {
    /// The method.
    pub method: Method,
    /// The full URL.
    pub url: Seq<char>,
    /// The headers as pairs of name and value, in order.
    pub headers: Seq<(Seq<char>, Seq<char>)>,
    /// The body, if any.
    pub body: Option<Seq<char>>,
}

impl View for Request {
    type V = RequestModel;

    open spec fn view(&self) -> RequestModel {
        RequestModel {
            method: self.method,
            url: self.url@,
            headers: self.headers@.map_values(|header: Header| header@),
            body: match self.body {
                Some(text) => Some(text@),
                None => None,
            },
        }
    }
}

} // verus!
