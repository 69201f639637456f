//! Serving the short links: every path that is not part of the API is looked
//! up in the link table.

use vstd::prelude::*;

use crate::tables::link_table_get;
use crate::text::{lowercase, to_lowercase};
use crate::AppState;

verus! {

/// The answer to a request for a short link.
#[derive(Debug)]
pub enum RedirectReply {
    /// `308 Permanent Redirect` to the destination (the `Location` header).
    Permanent(String),
    /// `200 OK` with the not-found page.
    NotFoundPage,
}

impl RedirectReply {
    /// The HTTP status code of the answer.
    pub fn status(&self) -> (r: u16)
        ensures
            self is Permanent ==> r == 308,
            self is NotFoundPage ==> r == 200,
    {
        match self {
            RedirectReply::Permanent(_) => 308,
            RedirectReply::NotFoundPage => 200,
        }
    }
}

/// The answer for a request URI that is already lowercased: a redirect to the
/// destination stored under it, or the not-found page.
pub fn redirect_lowered(state: &AppState, path: &str) -> (r: RedirectReply)
    ensures
        state.links().contains_key(path@) ==> (r matches RedirectReply::Permanent(d) && d@
            == state.links()[path@]),
        !state.links().contains_key(path@) ==> r is NotFoundPage,
{
    match link_table_get(&state.urls, path) {
        Some(dest) => RedirectReply::Permanent(dest),
        None => RedirectReply::NotFoundPage,
    }
}

/// The answer for a request URI: the URI is lowercased and looked up.
pub fn redirect(uri: &str, state: &AppState) -> (r: RedirectReply)
    ensures
        state.links().contains_key(lowercase(uri@)) ==> (r matches RedirectReply::Permanent(d)
            && d@ == state.links()[lowercase(uri@)]),
        !state.links().contains_key(lowercase(uri@)) ==> r is NotFoundPage,
{
    let path = to_lowercase(uri);
    redirect_lowered(state, path.as_str())
}

/// Where the site root redirects when no link is stored under the empty path.
pub open spec fn default_root() -> Seq<char> {
    "https://github.com/randomairborne/simpleshortener"@
}

/// The site root: a permanent redirect to the link stored under the empty
/// path, else to the project's page.
pub fn root(state: &AppState) -> (r: RedirectReply)
    ensures
        state.links().contains_key(Seq::empty()) ==> (r matches RedirectReply::Permanent(d) && d@
            == state.links()[Seq::empty()]),
        !state.links().contains_key(Seq::empty()) ==> (r matches RedirectReply::Permanent(d)
            && d@ == default_root()),
{
    proof {
        reveal_strlit("");
        assert(""@ =~= Seq::<char>::empty());
    }
    match link_table_get(&state.urls, "") {
        Some(url) => RedirectReply::Permanent(url),
        None => RedirectReply::Permanent(
            "https://github.com/randomairborne/simpleshortener".to_owned(),
        ),
    }
}

} // verus!
