use simpleshortener::error::WebServerError;

fn check(e: WebServerError, status: u16, message: &str) {
    assert_eq!(e.status_code(), status);
    assert_eq!(e.message(), message);
    let response = e.into_response();
    assert_eq!(response.status, status);
    assert_eq!(response.error, message);
}

#[test]
fn error_answers() {
    check(WebServerError::NotFound, 404, "Link not found");
    check(WebServerError::IncorrectAuth, 401, "Authentication failed");
    check(WebServerError::InvalidUsernameOrPassword, 401, "Username or password incorrect!");
    check(
        WebServerError::UrlConflict,
        409,
        "Short URL conflicts with already-existing url, try editing instead",
    );
    check(WebServerError::InvalidRedirectUri, 500, "Database returned invalid header");
    check(WebServerError::UrlDisallowed, 409, "URL empty or used by the system");
    check(WebServerError::NoSalt, 500, "Internal salt was not found");
    check(WebServerError::Db("RowNotFound".to_string()), 500, "Database returned an error: RowNotFound");
    check(
        WebServerError::InvalidUri("InvalidUri(InvalidUriChar)".to_string()),
        500,
        "The redirect URI is invalid: InvalidUri(InvalidUriChar)",
    );
}

#[test]
fn outside_errors_carry_their_debug_text() {
    let utf8 = String::from_utf8(vec![0xff]).unwrap_err();
    let expected = format!("Error converting to UTF-8: {:?}", utf8);
    check(WebServerError::FromUtf8(utf8), 500, &expected);
    check(
        WebServerError::Qr(qr_code::types::QrError::DataTooLong),
        500,
        "QR creation error: DataTooLong",
    );
    check(
        WebServerError::Bmp(qr_code::bmp_monochrome::BmpError::Data),
        500,
        "BMP conversion error: Data",
    );
}
