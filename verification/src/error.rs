//! The errors a request can end in, and the HTTP answer each one gets.

use qr_code::bmp_monochrome::BmpError;
use qr_code::types::QrError;
use std::string::FromUtf8Error;
use vstd::prelude::*;

use crate::qr::{bmp_error_text, qr_error_text};
use crate::text::utf8_error_text;

verus! {

/// Why a request failed.
#[derive(Debug)]
pub enum WebServerError {
    // Errors a user could cause
    IncorrectAuth,
    NotFound,
    UrlConflict,
    UrlDisallowed,
    InvalidUsernameOrPassword,
    // Internal server errors
    /// A database failure, by the `Debug` text of the driver's error.
    Db(String),
    /// An invalid URI, by the `Debug` text of its error.
    InvalidUri(String),
    Bmp(BmpError),
    Qr(QrError),
    FromUtf8(FromUtf8Error),
    InvalidRedirectUri,
    NoSalt,
}

/// The HTTP status code of an error.
pub open spec fn status_of(e: WebServerError) -> u16 {
    match e {
        WebServerError::NotFound => 404,
        WebServerError::IncorrectAuth => 401,
        WebServerError::InvalidUsernameOrPassword => 401,
        WebServerError::UrlConflict => 409,
        WebServerError::UrlDisallowed => 409,
        _ => 500,
    }
}

/// Whether an error is one a user can cause (as opposed to a failure of the server).
pub open spec fn is_user_error(e: WebServerError) -> bool {
    match e {
        WebServerError::IncorrectAuth | WebServerError::NotFound | WebServerError::UrlConflict
        | WebServerError::UrlDisallowed | WebServerError::InvalidUsernameOrPassword => true,
        _ => false,
    }
}

/// The message of an error that carries no outside detail.
pub open spec fn fixed_message(e: WebServerError) -> Seq<char> {
    match e {
        WebServerError::NotFound => "Link not found"@,
        WebServerError::IncorrectAuth => "Authentication failed"@,
        WebServerError::InvalidUsernameOrPassword => "Username or password incorrect!"@,
        WebServerError::UrlConflict => "Short URL conflicts with already-existing url, try editing instead"@,
        WebServerError::InvalidRedirectUri => "Database returned invalid header"@,
        WebServerError::UrlDisallowed => "URL empty or used by the system"@,
        WebServerError::NoSalt => "Internal salt was not found"@,
        _ => Seq::empty(),
    }
}

/// The prefix of the message of an error that carries outside detail; the
/// detail's `Debug` text follows it.
pub open spec fn detail_prefix(e: WebServerError) -> Seq<char> {
    match e {
        WebServerError::Db(_) => "Database returned an error: "@,
        WebServerError::FromUtf8(_) => "Error converting to UTF-8: "@,
        WebServerError::InvalidUri(_) => "The redirect URI is invalid: "@,
        WebServerError::Bmp(_) => "BMP conversion error: "@,
        WebServerError::Qr(_) => "QR creation error: "@,
        _ => Seq::empty(),
    }
}

/// Whether an error carries outside detail in its message.
pub open spec fn has_detail(e: WebServerError) -> bool {
    match e {
        WebServerError::Db(_) | WebServerError::FromUtf8(_) | WebServerError::InvalidUri(_)
        | WebServerError::Bmp(_) | WebServerError::Qr(_) => true,
        _ => false,
    }
}

/// The answer to a failed request: a status code and the text of the JSON
/// body's `error` field.
#[derive(Debug)]
pub struct ErrorResponse {
    pub status: u16,
    pub error: String,
}

impl From<QrError> for WebServerError {
    fn from(e: QrError) -> (r: WebServerError) {
        WebServerError::Qr(e)
    }
}

impl vstd::std_specs::convert::FromSpecImpl<QrError> for WebServerError {
    open spec fn obeys_from_spec() -> bool {
        true
    }

    open spec fn from_spec(v: QrError) -> WebServerError {
        WebServerError::Qr(v)
    }
}

impl From<BmpError> for WebServerError {
    fn from(e: BmpError) -> (r: WebServerError) {
        WebServerError::Bmp(e)
    }
}

impl vstd::std_specs::convert::FromSpecImpl<BmpError> for WebServerError {
    open spec fn obeys_from_spec() -> bool {
        true
    }

    open spec fn from_spec(v: BmpError) -> WebServerError {
        WebServerError::Bmp(v)
    }
}

impl From<FromUtf8Error> for WebServerError {
    fn from(e: FromUtf8Error) -> (r: WebServerError) {
        WebServerError::FromUtf8(e)
    }
}

impl vstd::std_specs::convert::FromSpecImpl<FromUtf8Error> for WebServerError {
    open spec fn obeys_from_spec() -> bool {
        true
    }

    open spec fn from_spec(v: FromUtf8Error) -> WebServerError {
        WebServerError::FromUtf8(v)
    }
}

fn concat(prefix: &str, detail: &str) -> (r: String)
    ensures
        r@ == prefix@ + detail@,
{
    let mut v = crate::text::chars_of(prefix);
    let mut w = crate::text::chars_of(detail);
    v.append(&mut w);
    crate::text::string_of(v.as_slice())
}

impl WebServerError {
    /// The HTTP status code of this error.
    pub fn status_code(&self) -> (r: u16)
        ensures
            r == status_of(*self),
            is_user_error(*self) ==> 400 <= r < 500,
            !is_user_error(*self) ==> r == 500,
    {
        match self {
            WebServerError::NotFound => 404,
            WebServerError::IncorrectAuth => 401,
            WebServerError::InvalidUsernameOrPassword => 401,
            WebServerError::UrlConflict => 409,
            WebServerError::UrlDisallowed => 409,
            _ => 500,
        }
    }

    /// The message that describes this error.
    pub fn message(&self) -> (r: String)
        ensures
            !has_detail(*self) ==> r@ == fixed_message(*self),
            has_detail(*self) ==> detail_prefix(*self).len() <= r@.len() && r@.take(
                detail_prefix(*self).len() as int,
            ) == detail_prefix(*self),
            *self matches WebServerError::Db(d) ==> r@ == detail_prefix(*self) + d@,
            *self matches WebServerError::InvalidUri(d) ==> r@ == detail_prefix(*self) + d@,
    {
        let r = match self {
            WebServerError::NotFound => "Link not found".to_owned(),
            WebServerError::IncorrectAuth => "Authentication failed".to_owned(),
            WebServerError::InvalidUsernameOrPassword => "Username or password incorrect!".to_owned(),
            WebServerError::UrlConflict => "Short URL conflicts with already-existing url, try editing instead".to_owned(),
            WebServerError::InvalidRedirectUri => "Database returned invalid header".to_owned(),
            WebServerError::UrlDisallowed => "URL empty or used by the system".to_owned(),
            WebServerError::NoSalt => "Internal salt was not found".to_owned(),
            WebServerError::Db(d) => concat("Database returned an error: ", d.as_str()),
            WebServerError::FromUtf8(e) => concat("Error converting to UTF-8: ", utf8_error_text(e).as_str()),
            WebServerError::InvalidUri(d) => concat("The redirect URI is invalid: ", d.as_str()),
            WebServerError::Bmp(e) => concat("BMP conversion error: ", bmp_error_text(e).as_str()),
            WebServerError::Qr(e) => concat("QR creation error: ", qr_error_text(e).as_str()),
        };
        proof {
            if has_detail(*self) {
                assert(r@.take(detail_prefix(*self).len() as int) =~= detail_prefix(*self));
            }
        }
        r
    }

    /// The answer this error gets: its status code and message.
    pub fn into_response(self) -> (r: ErrorResponse)
        ensures
            r.status == status_of(self),
            !has_detail(self) ==> r.error@ == fixed_message(self),
            has_detail(self) ==> detail_prefix(self).len() <= r.error@.len() && r.error@.take(
                detail_prefix(self).len() as int,
            ) == detail_prefix(self),
            self matches WebServerError::Db(d) ==> r.error@ == detail_prefix(self) + d@,
            self matches WebServerError::InvalidUri(d) ==> r.error@ == detail_prefix(self) + d@,
    {
        let status = self.status_code();
        let error = self.message();
        ErrorResponse { status, error }
    }
}

} // verus!
