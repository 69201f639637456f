//! The link administration API: list, add, edit, delete, QR codes, and the panel.

use vstd::prelude::*;

use crate::error::WebServerError;
use crate::files::PanelPage;
use crate::qr::{bmp_file, gen, is_bmp_signed, qr_encoding};
use crate::structs::{Add, Edit, Qr};
use crate::tables::{link_table_contains, link_table_entries, lists_entries};
use crate::text::{chars_of, str_eq, string_of, to_lowercase, url_decode, url_decoded, lowercase};
use crate::users::authenticate;
use crate::{AppState, DbAction, Reply};

verus! {

/// Whether a request carries the token of a live session.
pub open spec fn authorized(state: &AppState, token: Option<&str>) -> bool {
    token matches Some(t) && state.sessions().contains(t@)
}

/// The short path a (lowercased) link is stored under: itself if it starts
/// with `/`, else the link behind a `/`.
pub open spec fn short_path(lowered: Seq<char>) -> Seq<char> {
    if lowered.len() > 0 && lowered[0] == '/' {
        lowered
    } else {
        seq!['/'] + lowered
    }
}

/// The one link name the system keeps for itself.
pub open spec fn reserved_link() -> Seq<char> {
    "simpleshortener"@
}

/// Lists every link.
pub fn list(token: Option<&str>, state: &AppState) -> (r: Result<Reply, WebServerError>)
    ensures
        !authorized(state, token) ==> r matches Err(WebServerError::IncorrectAuth),
        authorized(state, token) ==> (r matches Ok(Reply::Links(entries)) && lists_entries(
            entries@,
            state.links(),
        )),
{
    match authenticate(token, state) {
        Ok(()) => {},
        Err(e) => return Err(e),
    }
    Ok(Reply::Links(link_table_entries(&state.urls)))
}

/// Decides on the addition of a link, given the link already lowercased: the
/// reserved name is refused, the link is put behind a `/`, and a short path
/// that is taken is refused.
pub fn add_lowered(state: &AppState, lowered: String, destination: String) -> (r: Result<
    DbAction,
    WebServerError,
>)
    ensures
        lowered@ == reserved_link() ==> r matches Err(WebServerError::UrlDisallowed),
        lowered@ != reserved_link() && state.links().contains_key(short_path(lowered@)) ==> (r matches Err(
            WebServerError::UrlConflict,
        )),
        lowered@ != reserved_link() && !state.links().contains_key(short_path(lowered@)) ==> (r matches Ok(
            DbAction::InsertUrl { link, destination: d },
        ) && link@ == short_path(lowered@) && d@ == destination@),
{
    if str_eq(lowered.as_str(), "simpleshortener") {
        return Err(WebServerError::UrlDisallowed);
    }
    let link = short_path_of(lowered);
    if link_table_contains(&state.urls, link.as_str()) {
        return Err(WebServerError::UrlConflict);
    }
    Ok(DbAction::InsertUrl { link, destination })
}

/// Adds a link: an authorized request for a free short path yields the row to
/// insert; the link is lowercased first.
pub fn add(request: Add, token: Option<&str>, state: &AppState) -> (r: Result<DbAction, WebServerError>)
    ensures
        !authorized(state, token) ==> r matches Err(WebServerError::IncorrectAuth),
        authorized(state, token) ==> {
            let lowered = lowercase(request.link@);
            &&& lowered == reserved_link() ==> (r matches Err(WebServerError::UrlDisallowed))
            &&& lowered != reserved_link() && state.links().contains_key(short_path(lowered))
                ==> (r matches Err(WebServerError::UrlConflict))
            &&& lowered != reserved_link() && !state.links().contains_key(short_path(lowered))
                ==> (r matches Ok(DbAction::InsertUrl { link, destination: d }) && link@
                == short_path(lowered) && d@ == request.destination@)
        },
{
    match authenticate(token, state) {
        Ok(()) => {},
        Err(e) => return Err(e),
    }
    let lowered = to_lowercase(request.link.as_str());
    add_lowered(state, lowered, request.destination)
}

/// The short path a lowercased link is stored under, as a string.
fn short_path_of(lowered: String) -> (r: String)
    ensures
        r@ == short_path(lowered@),
{
    let chars = chars_of(lowered.as_str());
    if chars.len() > 0 && chars[0] == '/' {
        lowered
    } else {
        let mut v: Vec<char> = Vec::new();
        v.push('/');
        let mut rest = chars;
        v.append(&mut rest);
        assert(v@ =~= seq!['/'] + lowered@);
        string_of(v.as_slice())
    }
}

/// Decides on the edit of a link, given the link already lowercased: it is
/// looked up under the short path `add` stores it under.
pub fn edit_lowered(state: &AppState, lowered: String, destination: String) -> (r: Result<
    DbAction,
    WebServerError,
>)
    ensures
        !state.links().contains_key(short_path(lowered@)) ==> (r matches Err(
            WebServerError::NotFound,
        )),
        state.links().contains_key(short_path(lowered@)) ==> (r matches Ok(
            DbAction::UpdateUrl { link: l, destination: d },
        ) && l@ == short_path(lowered@) && d@ == destination@),
{
    let link = short_path_of(lowered);
    if !link_table_contains(&state.urls, link.as_str()) {
        return Err(WebServerError::NotFound);
    }
    Ok(DbAction::UpdateUrl { link, destination })
}

/// Points an existing link somewhere else. The link comes percent-encoded, and
/// names the short link as it was added: it is decoded, lowercased and put
/// behind a `/`, as `add` does.
pub fn edit(link: &str, request: Edit, token: Option<&str>, state: &AppState) -> (r: Result<
    DbAction,
    WebServerError,
>)
    ensures
        !authorized(state, token) ==> r matches Err(WebServerError::IncorrectAuth),
        authorized(state, token) ==> match url_decoded(link@) {
            None => r matches Err(WebServerError::FromUtf8(_)),
            Some(k) => {
                let key = short_path(lowercase(k));
                &&& !state.links().contains_key(key) ==> (r matches Err(WebServerError::NotFound))
                &&& state.links().contains_key(key) ==> (r matches Ok(
                    DbAction::UpdateUrl { link: l, destination: d },
                ) && l@ == key && d@ == request.destination@)
            },
        },
{
    match authenticate(token, state) {
        Ok(()) => {},
        Err(e) => return Err(e),
    }
    let link = match url_decode(link) {
        Ok(decoded) => decoded,
        Err(e) => return Err(WebServerError::from(e)),
    };
    let lowered = to_lowercase(link.as_str());
    edit_lowered(state, lowered, request.destination)
}

/// Decides on the removal of a link, given the link already lowercased: it is
/// looked up under the short path `add` stores it under.
pub fn delete_lowered(state: &AppState, lowered: String) -> (r: Result<DbAction, WebServerError>)
    ensures
        !state.links().contains_key(short_path(lowered@)) ==> (r matches Err(
            WebServerError::NotFound,
        )),
        state.links().contains_key(short_path(lowered@)) ==> (r matches Ok(
            DbAction::DeleteUrl { link: l },
        ) && l@ == short_path(lowered@)),
{
    let link = short_path_of(lowered);
    if !link_table_contains(&state.urls, link.as_str()) {
        return Err(WebServerError::NotFound);
    }
    Ok(DbAction::DeleteUrl { link })
}

/// Removes an existing link. The link comes percent-encoded, and names the
/// short link as it was added: it is decoded, lowercased and put behind a
/// `/`, as `add` does.
pub fn delete(link: &str, token: Option<&str>, state: &AppState) -> (r: Result<
    DbAction,
    WebServerError,
>)
    ensures
        !authorized(state, token) ==> r matches Err(WebServerError::IncorrectAuth),
        authorized(state, token) ==> match url_decoded(link@) {
            None => r matches Err(WebServerError::FromUtf8(_)),
            Some(k) => {
                let key = short_path(lowercase(k));
                &&& !state.links().contains_key(key) ==> (r matches Err(WebServerError::NotFound))
                &&& state.links().contains_key(key) ==> (r matches Ok(
                    DbAction::DeleteUrl { link: l },
                ) && l@ == key)
            },
        },
{
    match authenticate(token, state) {
        Ok(()) => {},
        Err(e) => return Err(e),
    }
    let link = match url_decode(link) {
        Ok(decoded) => decoded,
        Err(e) => return Err(WebServerError::from(e)),
    };
    let lowered = to_lowercase(link.as_str());
    delete_lowered(state, lowered)
}

/// The QR code of an address, as a BMP image.
pub fn generate_qr(request: Qr, token: Option<&str>, state: &AppState) -> (r: Result<
    Vec<u8>,
    WebServerError,
>)
    ensures
        !authorized(state, token) ==> r matches Err(WebServerError::IncorrectAuth),
        authorized(state, token) && qr_encoding(vstd::utf8::encode_utf8(request.destination@))
            is Some ==> r is Ok,
        authorized(state, token) ==> match r {
            Ok(bytes) => qr_encoding(vstd::utf8::encode_utf8(request.destination@)) matches Some(
                rows,
            ) && bytes@ == bmp_file(rows) && is_bmp_signed(bytes@),
            Err(WebServerError::Qr(_)) => qr_encoding(
                vstd::utf8::encode_utf8(request.destination@),
            ) is None,
            Err(_) => false,
        },
{
    match authenticate(token, state) {
        Ok(()) => {},
        Err(e) => return Err(e),
    }
    gen(request.destination.as_str())
}

/// The panel page for the current state of the service.
pub fn panel(state: &AppState) -> (r: PanelPage)
    ensures
        state.is_init ==> r == PanelPage::Standard,
        !state.is_init ==> r == PanelPage::NewUser,
{
    crate::files::panel(state.is_init)
}

} // verus!
