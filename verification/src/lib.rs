//! A small URL shortener: a table of short links, each redirecting to its
//! destination, administered through a token-protected JSON API.

pub mod admin;
pub mod app;
pub mod db;
pub mod error;
pub mod files;
pub mod laws;
pub mod qr;
pub mod redirect_handler;
pub mod redirect_handlers;
pub mod structs;
pub mod tables;
pub mod text;
pub mod users;
pub mod utils;

use rand::Rng;
use vstd::prelude::*;

use crate::error::WebServerError;
use crate::tables::{
    link_table, link_table_insert, link_table_remove, new_link_table, new_token_set,
    token_set, LinkTable, TokenSet,
};

verus! {

/// The number of characters of a random token.
pub const TOKEN_LEN: usize = 64;

/// The number of characters tokens are drawn from.
pub const ALPHABET_LEN: usize = 53;

/// The `i`-th character of the token alphabet `A`..`Z`, `a`..`z`, `.`; an index
/// past its end gives `.`.
pub open spec fn alphabet_char(i: int) -> char {
    if 0 <= i < 26 {
        (65 + i) as char
    } else if 26 <= i < 52 {
        (97 + (i - 26)) as char
    } else {
        '.'
    }
}

/// Whether a character belongs to the token alphabet.
pub open spec fn is_token_char(c: char) -> bool {
    ('A' <= c && c <= 'Z') || ('a' <= c && c <= 'z') || c == '.'
}

/// Whether a text has the shape of a random token: 64 characters of the alphabet.
pub open spec fn is_token(s: Seq<char>) -> bool {
    s.len() == TOKEN_LEN && forall|i: int| 0 <= i < s.len() ==> is_token_char(#[trigger] s[i])
}

/// The character for one random draw (`chars.get(i).unwrap_or(&'.')`).
pub fn alphabet_at(i: usize) -> (c: char)
    ensures
        c == alphabet_char(i as int),
        is_token_char(c),
{
    if i < 26 {
        let b: u8 = 65 + (i as u8);
        b as char
    } else if i < 52 {
        let b: u8 = 97 + ((i - 26) as u8);
        b as char
    } else {
        '.'
    }
}

/// The characters for a sequence of random draws.
pub fn token_from_draws(draws: &[usize]) -> (r: String)
    ensures
        r@ == draws@.map_values(|i: usize| alphabet_char(i as int)),
{
    let mut chars: Vec<char> = Vec::new();
    let n = draws.len();
    for k in 0..n
        invariant
            n == draws@.len(),
            chars@ == draws@.take(k as int).map_values(|i: usize| alphabet_char(i as int)),
    {
        chars.push(alphabet_at(draws[k]));
        assert(draws@.take(k as int + 1) =~= draws@.take(k as int).push(draws@[k as int]));
    }
    assert(draws@.take(n as int) =~= draws@);
    crate::text::string_of(chars.as_slice())
}

/// One draw of `rand::thread_rng().gen_range(0..n)`: some index below `n`.
#[verifier::external_body]
fn random_below(n: usize) -> (r: usize)
    requires
        n > 0,
    ensures
        r < n,
{
    rand::thread_rng().gen_range(0..n)
}

/// A fresh random token: 64 characters drawn from `A`..`Z`, `a`..`z` and `.`.
pub fn randstr() -> (r: String)
    ensures
        is_token(r@),
{
    let mut draws: Vec<usize> = Vec::new();
    for _k in 0..TOKEN_LEN
        invariant
            draws@.len() == _k,
            forall|j: int| 0 <= j < draws@.len() ==> draws@[j] < ALPHABET_LEN,
    {
        draws.push(random_below(ALPHABET_LEN));
    }
    let r = token_from_draws(draws.as_slice());
    assert forall|i: int| 0 <= i < r@.len() implies is_token_char(#[trigger] r@[i]) by {
        let d = draws@[i];
        assert(r@[i] == alphabet_char(d as int));
    }
    r
}

/// Rows of strings as pairs of texts.
pub open spec fn pairs_view(rows: Seq<(String, String)>) -> Seq<(Seq<char>, Seq<char>)> {
    rows.map_values(|p: (String, String)| (p.0@, p.1@))
}

/// The link table that a list of rows builds when they are inserted in order
/// (a later row for the same link wins).
pub open spec fn links_of_rows(rows: Seq<(Seq<char>, Seq<char>)>) -> Map<Seq<char>, Seq<char>>
    decreases rows.len(),
{
    if rows.len() == 0 {
        Map::empty()
    } else {
        links_of_rows(rows.drop_last()).insert(rows.last().0, rows.last().1)
    }
}

/// The link table that a list of rows builds when they are inserted in order.
pub fn table_from_rows(rows: &Vec<(String, String)>) -> (r: LinkTable)
    ensures
        link_table(r) == links_of_rows(pairs_view(rows@)),
{
    let mut urls = new_link_table();
    let n = rows.len();
    for k in 0..n
        invariant
            n == rows@.len(),
            link_table(urls) == links_of_rows(pairs_view(rows@.take(k as int))),
    {
        let key = rows[k].0.clone();
        let value = rows[k].1.clone();
        link_table_insert(&mut urls, key, value);
        assert(pairs_view(rows@.take(k as int + 1)).drop_last() =~= pairs_view(rows@.take(k as int)));
    }
    assert(rows@.take(n as int) =~= rows@);
    urls
}

/// What the service holds in memory: the link table, the live session tokens,
/// and whether an account has been set up.
pub struct AppState {
    pub urls: LinkTable,
    pub tokens: TokenSet,
    pub is_init: bool,
}

impl AppState {
    /// The links, short path to destination.
    pub open spec fn links(&self) -> Map<Seq<char>, Seq<char>> {
        link_table(self.urls)
    }

    /// The live session tokens.
    pub open spec fn sessions(&self) -> Set<Seq<char>> {
        token_set(self.tokens)
    }

    /// The state at start-up: the stored rows as the link table, no sessions.
    pub fn new(rows: Vec<(String, String)>, is_init: bool) -> (r: AppState)
        ensures
            r.links() == links_of_rows(pairs_view(rows@)),
            r.sessions() == crate::tables::no_tokens(),
            r.is_init == is_init,
    {
        let urls = table_from_rows(&rows);
        AppState { urls, tokens: new_token_set(), is_init }
    }

    /// The destination stored under a short path, if any.
    pub fn destination(&self, link: &str) -> (r: Option<String>)
        ensures
            match r {
                Some(d) => self.links().contains_key(link@) && self.links()[link@] == d@,
                None => !self.links().contains_key(link@),
            },
    {
        crate::tables::link_table_get(&self.urls, link)
    }
}


/// A write to the database that a request needs before it takes effect in memory.
#[derive(Debug)]
pub enum DbAction {
    /// `INSERT INTO urls VALUES (link, destination)`.
    InsertUrl { link: String, destination: String },
    /// `UPDATE urls SET destination = .. WHERE link = ..`.
    UpdateUrl { link: String, destination: String },
    /// `DELETE FROM urls WHERE link = ..`.
    DeleteUrl { link: String },
    /// `INSERT INTO accounts VALUES (username, password)`, the password as `salt|hash`.
    InsertAccount { username: String, password: String },
}

/// What a successful request answers (as a JSON object).
#[derive(Debug)]
pub enum Reply {
    /// `{"message": ..}`.
    Message(String),
    /// `{"token": ..}`.
    Token(String),
    /// `{"message": "Account added!", "token": ..}`.
    AccountAdded(String),
    /// `{"links": {short: destination, ..}}`.
    Links(Vec<(String, String)>),
}

/// The link table after a database write has been made.
pub open spec fn links_after(links: Map<Seq<char>, Seq<char>>, action: DbAction) -> Map<
    Seq<char>,
    Seq<char>,
> {
    match action {
        DbAction::InsertUrl { link, destination } => links.insert(link@, destination@),
        DbAction::UpdateUrl { link, destination } => links.insert(link@, destination@),
        DbAction::DeleteUrl { link } => links.remove(link@),
        DbAction::InsertAccount { .. } => links,
    }
}

/// The message that confirms a write to the link table.
pub open spec fn confirmation(action: DbAction) -> Seq<char> {
    match action {
        DbAction::InsertUrl { .. } => "Link added!"@,
        DbAction::UpdateUrl { .. } => "Link edited!"@,
        DbAction::DeleteUrl { .. } => "Link removed!"@,
        DbAction::InsertAccount { .. } => "Account added!"@,
    }
}

impl AppState {
    /// Finishes a request once its database write is done: a failed write ends
    /// it with `Db` and changes nothing; a successful one takes effect in memory
    /// (a new account also marks the service set up and opens a session).
    pub fn commit(&mut self, action: DbAction, outcome: Result<(), String>) -> (r: Result<
        Reply,
        WebServerError,
    >)
        ensures
            outcome matches Err(e) ==> r matches Err(WebServerError::Db(d)) && d@ == e@
                && *final(self) == *old(self),
            final(self).is_init == (old(self).is_init || (outcome is Ok && action is InsertAccount)),
            outcome is Ok && !(action is InsertAccount) ==> {
                &&& final(self).links() == links_after(old(self).links(), action)
                &&& final(self).sessions() == old(self).sessions()
                &&& final(self).is_init == old(self).is_init
                &&& r matches Ok(Reply::Message(m)) && m@ == confirmation(action)
            },
            outcome is Ok && action is InsertAccount ==> {
                &&& final(self).links() == old(self).links()
                &&& final(self).is_init
                &&& r matches Ok(Reply::AccountAdded(t)) && is_token(t@)
                    && final(self).sessions() == old(self).sessions().insert(t@)
            },
    {
        if let Err(e) = outcome {
            return Err(WebServerError::Db(e));
        }
        match action {
            DbAction::InsertUrl { link, destination } => {
                link_table_insert(&mut self.urls, link, destination);
                Ok(Reply::Message("Link added!".to_owned()))
            },
            DbAction::UpdateUrl { link, destination } => {
                link_table_insert(&mut self.urls, link, destination);
                Ok(Reply::Message("Link edited!".to_owned()))
            },
            DbAction::DeleteUrl { link } => {
                link_table_remove(&mut self.urls, link.as_str());
                Ok(Reply::Message("Link removed!".to_owned()))
            },
            DbAction::InsertAccount { .. } => {
                self.is_init = true;
                let token = crate::users::token_gen(self);
                Ok(Reply::AccountAdded(token))
            },
        }
    }
}

} // verus!
