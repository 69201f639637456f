//! The routing table: which handler answers a request, by method and path.

use vstd::prelude::*;

use crate::text::{chars_eq, chars_of, starts_with, string_of, url_decode, url_decoded};

verus! {

/// The HTTP method of a request.
#[derive(Debug, Clone, Copy, PartialEq, Eq, Structural)]
pub enum Method {
    Get,
    Head,
    Post,
    Put,
    Patch,
    Delete,
    Other,
}

/// The handler a request goes to; the parameter of a route with a path
/// segment parameter is the segment as it stands in the path.
#[derive(Debug, Clone, PartialEq, Eq)]
pub enum Route<P> {
    /// The site root.
    Root,
    /// The administration panel page.
    Panel,
    /// The panel's script.
    PanelScript,
    /// The API documentation page.
    Doc,
    /// The logo image.
    Logo,
    /// The favicon.
    Favicon,
    Add,
    List,
    Qr,
    Login,
    Setup,
    Edit(P),
    Delete(P),
    Invalidate(P),
    /// A short link to look up.
    Redirect,
    /// A known path that does not take this method: `405 Method Not Allowed`.
    MethodNotAllowed,
    /// No route: `404 Not Found`.
    NotFound,
}

impl View for Route<String> {
    type V = Route<Seq<char>>;

    open spec fn view(&self) -> Route<Seq<char>> {
        match self {
            Route::Root => Route::Root,
            Route::Panel => Route::Panel,
            Route::PanelScript => Route::PanelScript,
            Route::Doc => Route::Doc,
            Route::Logo => Route::Logo,
            Route::Favicon => Route::Favicon,
            Route::Add => Route::Add,
            Route::List => Route::List,
            Route::Qr => Route::Qr,
            Route::Login => Route::Login,
            Route::Setup => Route::Setup,
            Route::Edit(p) => Route::Edit(p@),
            Route::Delete(p) => Route::Delete(p@),
            Route::Invalidate(p) => Route::Invalidate(p@),
            Route::Redirect => Route::Redirect,
            Route::MethodNotAllowed => Route::MethodNotAllowed,
            Route::NotFound => Route::NotFound,
        }
    }
}

/// Whether a method is answered by a `GET` route (`HEAD` is).
pub open spec fn is_get(method: Method) -> bool {
    method is Get || method is Head
}

/// A `GET` route: the route for `GET` and `HEAD`, else `405`.
pub open spec fn get_only(method: Method, route: Route<Seq<char>>) -> Route<Seq<char>> {
    if is_get(method) {
        route
    } else {
        Route::MethodNotAllowed
    }
}

/// A route of one method: the route for that method, else `405`.
pub open spec fn only(method: Method, wanted: Method, route: Route<Seq<char>>) -> Route<Seq<char>> {
    if method == wanted {
        route
    } else {
        Route::MethodNotAllowed
    }
}

/// The parameter of a path made of `prefix` and one more non-empty segment.
pub open spec fn segment_param(path: Seq<char>, prefix: Seq<char>) -> Option<Seq<char>> {
    if path.len() > prefix.len() && path.take(prefix.len() as int) == prefix && forall|i: int|
        prefix.len() <= i < path.len() ==> path[i] != '/' {
        Some(path.skip(prefix.len() as int))
    } else {
        None
    }
}

/// The routes under `/simpleshortener/`.
pub open spec fn api_route(method: Method, path: Seq<char>) -> Option<Route<Seq<char>>> {
    if path == "/simpleshortener/"@ {
        Some(get_only(method, Route::Panel))
    } else if path == "/simpleshortener/api/add"@ {
        Some(only(method, Method::Put, Route::Add))
    } else if path == "/simpleshortener/api/list"@ {
        Some(get_only(method, Route::List))
    } else if path == "/simpleshortener/api/qr"@ {
        Some(only(method, Method::Post, Route::Qr))
    } else if path == "/simpleshortener/api/token"@ {
        Some(only(method, Method::Post, Route::Login))
    } else if path == "/simpleshortener/api/create"@ {
        Some(only(method, Method::Post, Route::Setup))
    } else if path == "/simpleshortener/static/panel.js"@ {
        Some(get_only(method, Route::PanelScript))
    } else if segment_param(path, "/simpleshortener/api/edit/"@) is Some {
        Some(only(method, Method::Patch, Route::Edit(segment_param(path, "/simpleshortener/api/edit/"@)->0)))
    } else if segment_param(path, "/simpleshortener/api/delete/"@) is Some {
        Some(only(method, Method::Delete, Route::Delete(segment_param(path, "/simpleshortener/api/delete/"@)->0)))
    } else if segment_param(path, "/simpleshortener/api/token/invalidate/"@) is Some {
        Some(only(method, Method::Post, Route::Invalidate(segment_param(path, "/simpleshortener/api/token/invalidate/"@)->0)))
    } else {
        None
    }
}

/// The service's routing table: the root, the API under `/simpleshortener/`,
/// and every other `GET` path a short link.
pub open spec fn app_route(method: Method, path: Seq<char>) -> Route<Seq<char>> {
    if path == "/"@ {
        get_only(method, Route::Root)
    } else if api_route(method, path) is Some {
        api_route(method, path)->0
    } else {
        get_only(method, Route::Redirect)
    }
}

/// The routing table of the file-backed service: the documentation page,
/// logo and favicon are served, a short link is a single path segment, and
/// there is no fallback.
pub open spec fn segment_route(method: Method, path: Seq<char>) -> Route<Seq<char>> {
    if path == "/"@ {
        get_only(method, Route::Root)
    } else if path == "/simpleshortener/api"@ || path == "/simpleshortener/api/"@ {
        get_only(method, Route::Doc)
    } else if path == "/simpleshortener/api/add"@ {
        only(method, Method::Put, Route::Add)
    } else if path == "/simpleshortener/api/list"@ {
        get_only(method, Route::List)
    } else if path == "/simpleshortener/api/qr"@ {
        only(method, Method::Post, Route::Qr)
    } else if path == "/simpleshortener"@ || path == "/simpleshortener/"@ {
        get_only(method, Route::Panel)
    } else if path == "/simpleshortener/static/link.png"@ {
        get_only(method, Route::Logo)
    } else if path == "/favicon.ico"@ {
        get_only(method, Route::Favicon)
    } else if segment_param(path, "/simpleshortener/api/edit/"@) is Some {
        only(method, Method::Patch, Route::Edit(segment_param(path, "/simpleshortener/api/edit/"@)->0))
    } else if segment_param(path, "/simpleshortener/api/delete/"@) is Some {
        only(method, Method::Delete, Route::Delete(segment_param(path, "/simpleshortener/api/delete/"@)->0))
    } else if segment_param(path, "/"@) is Some {
        get_only(method, Route::Redirect)
    } else {
        Route::NotFound
    }
}

fn is_get_method(method: Method) -> (r: bool)
    ensures
        r == is_get(method),
{
    match method {
        Method::Get | Method::Head => true,
        _ => false,
    }
}

fn route_if_get(method: Method, route: Route<String>) -> (r: Route<String>)
    ensures
        r@ == get_only(method, route@),
{
    if is_get_method(method) {
        route
    } else {
        Route::MethodNotAllowed
    }
}

fn route_if(method: Method, wanted: Method, route: Route<String>) -> (r: Route<String>)
    ensures
        r@ == only(method, wanted, route@),
{
    if method == wanted {
        route
    } else {
        Route::MethodNotAllowed
    }
}

/// Whether a path is exactly the given text.
fn path_is(path: &[char], text: &str) -> (r: bool)
    ensures
        r == (path@ == text@),
{
    let t = chars_of(text);
    chars_eq(path, t.as_slice())
}

/// The parameter of a path made of `prefix` and one more non-empty segment.
fn param_after(path: &[char], prefix: &str) -> (r: Option<String>)
    ensures
        match r {
            Some(p) => segment_param(path@, prefix@) == Some(p@),
            None => segment_param(path@, prefix@) is None,
        },
{
    let pre = chars_of(prefix);
    if path.len() <= pre.len() || !starts_with(path, pre.as_slice()) {
        return None;
    }
    let n = path.len();
    let mut seg: Vec<char> = Vec::new();
    for i in pre.len()..n
        invariant
            n == path@.len(),
            pre@ == prefix@,
            pre@.len() < n,
            seg@ == path@.subrange(pre@.len() as int, i as int),
            forall|j: int| pre@.len() <= j < i ==> path@[j] != '/',
    {
        if path[i] == '/' {
            return None;
        }
        seg.push(path[i]);
        assert(seg@ =~= path@.subrange(pre@.len() as int, i as int + 1));
    }
    assert(seg@ =~= path@.skip(pre@.len() as int));
    Some(string_of(seg.as_slice()))
}

/// The routes under `/simpleshortener/`.
fn makeapi(method: Method, path: &[char]) -> (r: Option<Route<String>>)
    ensures
        match r {
            Some(route) => api_route(method, path@) == Some(route@),
            None => api_route(method, path@) is None,
        },
{
    if path_is(path, "/simpleshortener/") {
        return Some(route_if_get(method, Route::Panel));
    }
    if path_is(path, "/simpleshortener/api/add") {
        return Some(route_if(method, Method::Put, Route::Add));
    }
    if path_is(path, "/simpleshortener/api/list") {
        return Some(route_if_get(method, Route::List));
    }
    if path_is(path, "/simpleshortener/api/qr") {
        return Some(route_if(method, Method::Post, Route::Qr));
    }
    if path_is(path, "/simpleshortener/api/token") {
        return Some(route_if(method, Method::Post, Route::Login));
    }
    if path_is(path, "/simpleshortener/api/create") {
        return Some(route_if(method, Method::Post, Route::Setup));
    }
    if path_is(path, "/simpleshortener/static/panel.js") {
        return Some(route_if_get(method, Route::PanelScript));
    }
    if let Some(id) = param_after(path, "/simpleshortener/api/edit/") {
        return Some(route_if(method, Method::Patch, Route::Edit(id)));
    }
    if let Some(id) = param_after(path, "/simpleshortener/api/delete/") {
        return Some(route_if(method, Method::Delete, Route::Delete(id)));
    }
    if let Some(token) = param_after(path, "/simpleshortener/api/token/invalidate/") {
        return Some(route_if(method, Method::Post, Route::Invalidate(token)));
    }
    None
}

/// The handler for a request of the service.
pub fn makeapp(method: Method, path: &str) -> (r: Route<String>)
    ensures
        r@ == app_route(method, path@),
{
    let chars = chars_of(path);
    if path_is(chars.as_slice(), "/") {
        return route_if_get(method, Route::Root);
    }
    match makeapi(method, chars.as_slice()) {
        Some(route) => route,
        None => route_if_get(method, Route::Redirect),
    }
}

/// The handler for a request of the file-backed service.
pub fn build_app(method: Method, path: &str) -> (r: Route<String>)
    ensures
        r@ == segment_route(method, path@),
{
    let p = chars_of(path);
    let path = p.as_slice();
    if path_is(path, "/") {
        return route_if_get(method, Route::Root);
    }
    if path_is(path, "/simpleshortener/api") || path_is(path, "/simpleshortener/api/") {
        return route_if_get(method, Route::Doc);
    }
    if path_is(path, "/simpleshortener/api/add") {
        return route_if(method, Method::Put, Route::Add);
    }
    if path_is(path, "/simpleshortener/api/list") {
        return route_if_get(method, Route::List);
    }
    if path_is(path, "/simpleshortener/api/qr") {
        return route_if(method, Method::Post, Route::Qr);
    }
    if path_is(path, "/simpleshortener") || path_is(path, "/simpleshortener/") {
        return route_if_get(method, Route::Panel);
    }
    if path_is(path, "/simpleshortener/static/link.png") {
        return route_if_get(method, Route::Logo);
    }
    if path_is(path, "/favicon.ico") {
        return route_if_get(method, Route::Favicon);
    }
    if let Some(id) = param_after(path, "/simpleshortener/api/edit/") {
        return route_if(method, Method::Patch, Route::Edit(id));
    }
    if let Some(id) = param_after(path, "/simpleshortener/api/delete/") {
        return route_if(method, Method::Delete, Route::Delete(id));
    }
    if let Some(_) = param_after(path, "/") {
        return route_if_get(method, Route::Redirect);
    }
    Route::NotFound
}


/// A path segment as the `Path` extractor hands it to a handler:
/// percent-decoded, or refused (`400 Bad Request`) where the decoded bytes are
/// not UTF-8.
pub fn path_param(raw: &str) -> (r: Option<String>)
    ensures
        match r {
            Some(p) => url_decoded(raw@) == Some(p@),
            None => url_decoded(raw@) is None,
        },
{
    match url_decode(raw) {
        Ok(p) => Some(p),
        Err(_) => None,
    }
}

} // verus!
