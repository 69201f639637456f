//! Answering short links by scanning the link table: a landing page at the
//! root, and every single-segment path compared against the stored links one by one.

use vstd::prelude::*;

use crate::tables::{link_table, link_table_entries, lists_entries, LinkTable};
use crate::text::str_eq;

verus! {

/// An answer of the scanning server.
#[derive(Debug)]
pub enum ScanReply {
    /// `200 OK` with the landing page.
    RootPage,
    /// `302 Found` to the destination, with the body `Redirecting...`.
    Found(String),
    /// `404 Not Found` with the body `404 redirect not found, ask the sender if they made a typo`.
    NotFound,
    /// `500 Internal Server Error` with the body `There was a severe internal server error.`.
    ServerError,
}

impl ScanReply {
    /// The HTTP status code of the answer.
    pub fn status(&self) -> (r: u16)
        ensures
            self is RootPage ==> r == 200,
            self is Found ==> r == 302,
            self is NotFound ==> r == 404,
            self is ServerError ==> r == 500,
    {
        match self {
            ScanReply::RootPage => 200,
            ScanReply::Found(_) => 302,
            ScanReply::NotFound => 404,
            ScanReply::ServerError => 500,
        }
    }
}

/// The landing page.
pub fn root() -> (r: ScanReply)
    ensures
        r is RootPage,
{
    ScanReply::RootPage
}

/// Whether a text can stand as an HTTP header value: no control character
/// but the tab, and no DEL.
pub open spec fn is_header_value(s: Seq<char>) -> bool {
    forall|i: int| 0 <= i < s.len() ==> #[trigger] s[i] == '\t' || (s[i] as u32 >= 32 && s[i] as u32 != 127)
}

/// Whether a text can stand as an HTTP header value.
pub fn header_value_ok(s: &str) -> (r: bool)
    ensures
        r == is_header_value(s@),
{
    let chars = crate::text::chars_of(s);
    let n = chars.len();
    for i in 0..n
        invariant
            n == chars@.len(),
            chars@ == s@,
            forall|j: int| 0 <= j < i ==> #[trigger] chars@[j] == '\t' || (chars@[j] as u32 >= 32
                && chars@[j] as u32 != 127),
    {
        let c = chars[i];
        let code = c as u32;
        if !(c == '\t' || (code >= 32 && code != 127)) {
            assert(s@[i as int] == c);
            return false;
        }
    }
    true
}

/// The answer for a path: with no link table loaded, a server error;
/// otherwise the stored links are compared with the path one by one and the
/// first equal one redirects. The destination goes into the `Location`
/// header, so the one found must be a valid header value.
pub fn redirect(urls: Option<&LinkTable>, path: &str) -> (r: ScanReply)
    requires
        urls matches Some(m) ==> (link_table(*m).contains_key(path@) ==> is_header_value(
            link_table(*m)[path@],
        )),
    ensures
        urls is None ==> r is ServerError,
        urls matches Some(m) ==> {
            &&& link_table(*m).contains_key(path@) ==> (r matches ScanReply::Found(d) && d@
                == link_table(*m)[path@])
            &&& !link_table(*m).contains_key(path@) ==> r is NotFound
        },
{
    let table = match urls {
        None => return ScanReply::ServerError,
        Some(m) => m,
    };
    let entries = link_table_entries(table);
    let n = entries.len();
    for i in 0..n
        invariant
            n == entries@.len(),
            urls == Some(table),
            lists_entries(entries@, link_table(*table)),
            forall|j: int| 0 <= j < i ==> entries@[j].0@ != path@,
    {
        let (shortening, destination_url) = &entries[i];
        if str_eq(shortening.as_str(), path) {
            return ScanReply::Found(destination_url.clone());
        }
    }
    assert(!link_table(*table).contains_key(path@));
    ScanReply::NotFound
}

} // verus!
