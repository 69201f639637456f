use simpleshortener::app::{build_app, makeapp, path_param, Method, Route};

#[test]
fn api_routes() {
    assert_eq!(makeapp(Method::Get, "/simpleshortener/"), Route::Panel);
    assert_eq!(makeapp(Method::Head, "/simpleshortener/"), Route::Panel);
    assert_eq!(makeapp(Method::Put, "/simpleshortener/api/add"), Route::Add);
    assert_eq!(makeapp(Method::Get, "/simpleshortener/api/list"), Route::List);
    assert_eq!(makeapp(Method::Post, "/simpleshortener/api/qr"), Route::Qr);
    assert_eq!(makeapp(Method::Post, "/simpleshortener/api/token"), Route::Login);
    assert_eq!(makeapp(Method::Post, "/simpleshortener/api/create"), Route::Setup);
    assert_eq!(makeapp(Method::Get, "/simpleshortener/static/panel.js"), Route::PanelScript);
    assert_eq!(
        makeapp(Method::Patch, "/simpleshortener/api/edit/%2Fabc"),
        Route::Edit("%2Fabc".to_string())
    );
    assert_eq!(makeapp(Method::Delete, "/simpleshortener/api/delete/x"), Route::Delete("x".to_string()));
    assert_eq!(
        makeapp(Method::Post, "/simpleshortener/api/token/invalidate/tok"),
        Route::Invalidate("tok".to_string())
    );
}

#[test]
fn wrong_methods_are_not_allowed() {
    assert_eq!(makeapp(Method::Get, "/simpleshortener/api/add"), Route::MethodNotAllowed);
    assert_eq!(makeapp(Method::Post, "/"), Route::MethodNotAllowed);
    assert_eq!(makeapp(Method::Get, "/simpleshortener/api/edit/x"), Route::MethodNotAllowed);
    assert_eq!(makeapp(Method::Post, "/something"), Route::MethodNotAllowed);
}

#[test]
fn everything_else_is_a_short_link() {
    assert_eq!(makeapp(Method::Get, "/something"), Route::Redirect);
    assert_eq!(makeapp(Method::Get, "/simpleshortener"), Route::Redirect);
    assert_eq!(makeapp(Method::Get, "/simpleshortener/api/edit/"), Route::Redirect);
    assert_eq!(makeapp(Method::Patch, "/simpleshortener/api/edit/a/b"), Route::MethodNotAllowed);
    assert_eq!(makeapp(Method::Get, "/a/b/c"), Route::Redirect);
}

#[test]
fn segment_routes() {
    assert_eq!(build_app(Method::Get, "/"), Route::Root);
    assert_eq!(build_app(Method::Get, "/simpleshortener/api"), Route::Doc);
    assert_eq!(build_app(Method::Get, "/simpleshortener/api/"), Route::Doc);
    assert_eq!(build_app(Method::Get, "/simpleshortener"), Route::Panel);
    assert_eq!(build_app(Method::Get, "/simpleshortener/"), Route::Panel);
    assert_eq!(build_app(Method::Get, "/simpleshortener/static/link.png"), Route::Logo);
    assert_eq!(build_app(Method::Get, "/favicon.ico"), Route::Favicon);
    assert_eq!(build_app(Method::Get, "/abc"), Route::Redirect);
    assert_eq!(build_app(Method::Get, "/a/b"), Route::NotFound);
    assert_eq!(build_app(Method::Post, "/abc"), Route::MethodNotAllowed);
    assert_eq!(build_app(Method::Put, "/simpleshortener/api/add"), Route::Add);
    assert_eq!(build_app(Method::Patch, "/simpleshortener/api/edit/x"), Route::Edit("x".to_string()));
    assert_eq!(build_app(Method::Get, "/simpleshortener/api/token"), Route::NotFound);
}

#[test]
fn path_parameters_are_percent_decoded() {
    assert_eq!(path_param("hello%20world"), Some("hello world".to_string()));
    assert_eq!(path_param("a+b"), Some("a+b".to_string()));
    assert_eq!(path_param("%zz%4"), Some("%zz%4".to_string()));
    assert_eq!(path_param("%C3%A9"), Some("\u{e9}".to_string()));
    assert_eq!(path_param("%FF"), None);
}
