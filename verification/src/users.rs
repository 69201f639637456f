//! Accounts and sessions: bearer tokens, password hashing, login, the first
//! account's creation, and token revocation.

use sha2::Digest;
use vstd::prelude::*;

use crate::error::WebServerError;
use crate::structs::LogIn;
use crate::tables::{token_set_contains, token_set_insert, token_set_remove};
use crate::text::{chars_of, starts_with, string_of};
use crate::{is_token, randstr, AppState, DbAction, Reply};

verus! {

/// The token of an `Authorization` header value of the `Bearer` scheme: the
/// text after `"Bearer "`.
pub open spec fn bearer_of(header: Seq<char>) -> Option<Seq<char>> {
    if header.len() >= 7 && header.take(7) == "Bearer "@ {
        Some(header.skip(7))
    } else {
        None
    }
}

/// The bearer token of a request, from its `Authorization` header (`None`
/// where the header is missing or not of the `Bearer` scheme).
pub fn bearer_token(header: Option<&str>) -> (r: Option<String>)
    ensures
        r matches Some(t) ==> header matches Some(h) && bearer_of(h@) == Some(t@),
        r is None ==> header is None || bearer_of(header->0@) is None,
{
    match header {
        None => None,
        Some(h) => {
            let chars = chars_of(h);
            let scheme = chars_of("Bearer ");
            proof {
                assert(scheme@.len() == 7) by {
                    reveal_strlit("Bearer ");
                }
            }
            if starts_with(chars.as_slice(), scheme.as_slice()) {
                let mut rest: Vec<char> = Vec::new();
                let n = chars.len();
                for i in 7..n
                    invariant
                        n == chars@.len(),
                        7 <= n,
                        rest@ == chars@.subrange(7, i as int),
                {
                    rest.push(chars[i]);
                    assert(rest@ =~= chars@.subrange(7, i as int + 1));
                }
                assert(rest@ =~= chars@.skip(7));
                Some(string_of(rest.as_slice()))
            } else {
                None
            }
        },
    }
}

/// Lets a request through when it carries a token of a live session.
pub fn authenticate(token: Option<&str>, state: &AppState) -> (r: Result<(), WebServerError>)
    ensures
        r is Ok <==> (token matches Some(t) && state.sessions().contains(t@)),
        r is Err ==> r matches Err(WebServerError::IncorrectAuth),
{
    match token {
        Some(t) => if token_set_contains(&state.tokens, t) {
            Ok(())
        } else {
            Err(WebServerError::IncorrectAuth)
        },
        None => Err(WebServerError::IncorrectAuth),
    }
}

/// What SHA-512 gives for some bytes.
pub uninterp spec fn sha512(data: Seq<u8>) -> Seq<u8>;

/// `sha2::Sha512::digest`: the 64-byte SHA-512 digest of the data.
#[verifier::external_body]
fn sha512_digest(data: &[u8]) -> (r: Vec<u8>)
    ensures
        r@ == sha512(data@),
        r@.len() == 64,
{
    sha2::Sha512::digest(data).to_vec()
}

/// The lowercase hexadecimal digit for a value below 16.
pub open spec fn hex_digit_char(n: int) -> char {
    if n < 10 {
        (48 + n) as char
    } else {
        (87 + n) as char
    }
}

/// Bytes as lowercase hexadecimal, two digits per byte (`format!("{:02x}", ..)` each).
pub open spec fn hex_lower(b: Seq<u8>) -> Seq<char>
    decreases b.len(),
{
    if b.len() == 0 {
        seq![]
    } else {
        hex_lower(b.drop_last()) + seq![
            hex_digit_char(b.last() as int / 16),
            hex_digit_char(b.last() as int % 16),
        ]
    }
}

fn hex_digit(n: u8) -> (c: char)
    requires
        n < 16,
    ensures
        c == hex_digit_char(n as int),
{
    if n < 10 {
        let b: u8 = 48 + n;
        b as char
    } else {
        let b: u8 = 87 + n;
        b as char
    }
}

/// Bytes as lowercase hexadecimal.
pub fn to_hex(bytes: &[u8]) -> (r: String)
    ensures
        r@ == hex_lower(bytes@),
{
    let mut out: Vec<char> = Vec::new();
    let n = bytes.len();
    for i in 0..n
        invariant
            n == bytes@.len(),
            out@ == hex_lower(bytes@.take(i as int)),
    {
        let b = bytes[i];
        out.push(hex_digit(b / 16));
        out.push(hex_digit(b % 16));
        assert(bytes@.take(i as int + 1).drop_last() =~= bytes@.take(i as int));
    }
    assert(bytes@.take(n as int) =~= bytes@);
    string_of(out.as_slice())
}

/// The text that is hashed for a password: the salt, `|`, the password.
pub open spec fn salted(salt: Seq<char>, password: Seq<char>) -> Seq<char> {
    salt + seq!['|'] + password
}

/// The hash kept for a password: SHA-512 of the UTF-8 bytes of the salted
/// password, as lowercase hexadecimal.
pub open spec fn password_hash_of(salt: Seq<char>, password: Seq<char>) -> Seq<char> {
    hex_lower(sha512(vstd::utf8::encode_utf8(salted(salt, password))))
}

/// What an account row stores for a password: the salt, `|`, the hash.
pub open spec fn stored_password(salt: Seq<char>, password: Seq<char>) -> Seq<char> {
    salt + seq!['|'] + password_hash_of(salt, password)
}

/// The hash kept for `password` under `salt`.
pub fn password_hash(salt: &str, password: &str) -> (r: String)
    ensures
        r@ == password_hash_of(salt@, password@),
{
    let mut text = chars_of(salt);
    text.push('|');
    let mut p = chars_of(password);
    text.append(&mut p);
    let salted_text = string_of(text.as_slice());
    assert(salted_text@ =~= salted(salt@, password@));
    let digest = sha512_digest(salted_text.as_str().as_bytes());
    to_hex(digest.as_slice())
}

/// The position of the first `|` in a text, or its length where it has none.
pub open spec fn bar_index(s: Seq<char>) -> int
    decreases s.len(),
{
    if s.len() == 0 {
        0
    } else if s[0] == '|' {
        0
    } else {
        1 + bar_index(s.drop_first())
    }
}

/// The first `|`-separated piece of a text.
pub open spec fn first_piece(s: Seq<char>) -> Seq<char> {
    s.take(bar_index(s))
}

/// The second `|`-separated piece of a text, if it has one.
pub open spec fn second_piece(s: Seq<char>) -> Option<Seq<char>> {
    if bar_index(s) < s.len() {
        Some(first_piece(s.skip(bar_index(s) + 1)))
    } else {
        None
    }
}

/// Whether a password matches a stored `salt|hash` text.
pub open spec fn password_accepted(stored: Seq<char>, password: Seq<char>) -> bool {
    second_piece(stored) matches Some(h) && h == password_hash_of(first_piece(stored), password)
}

pub proof fn lemma_bar_index(s: Seq<char>, i: int)
    requires
        0 <= i <= s.len(),
        forall|j: int| 0 <= j < i ==> s[j] != '|',
        i == s.len() || s[i] == '|',
    ensures
        bar_index(s) == i,
    decreases s.len(),
{
    if s.len() > 0 && i > 0 {
        assert forall|j: int| 0 <= j < i - 1 implies s.drop_first()[j] != '|' by {
            assert(s.drop_first()[j] == s[j + 1]);
        }
        lemma_bar_index(s.drop_first(), i - 1);
    }
}

/// Splits a text at its first `|`: the piece before it, and the rest after it
/// (`None` where there is no `|`).
fn split_first_bar(s: &[char]) -> (r: (Vec<char>, Option<Vec<char>>))
    ensures
        r.0@ == first_piece(s@),
        match r.1 {
            Some(rest) => bar_index(s@) < s@.len() && rest@ == s@.skip(bar_index(s@) + 1),
            None => bar_index(s@) == s@.len(),
        },
{
    let n = s.len();
    let mut head: Vec<char> = Vec::new();
    let mut i: usize = 0;
    while i < n && s[i] != '|'
        invariant
            n == s@.len(),
            i <= n,
            head@ == s@.take(i as int),
            forall|j: int| 0 <= j < i ==> s@[j] != '|',
        decreases n - i,
    {
        head.push(s[i]);
        i = i + 1;
        assert(head@ =~= s@.take(i as int));
    }
    proof {
        lemma_bar_index(s@, i as int);
    }
    if i == n {
        (head, None)
    } else {
        let mut rest: Vec<char> = Vec::new();
        let mut k: usize = i + 1;
        while k < n
            invariant
                n == s@.len(),
                i < n,
                i + 1 <= k <= n,
                rest@ == s@.subrange(i + 1, k as int),
            decreases n - k,
        {
            rest.push(s[k]);
            k = k + 1;
            assert(rest@ =~= s@.subrange(i + 1, k as int));
        }
        assert(rest@ =~= s@.skip(i + 1));
        (head, Some(rest))
    }
}

/// Whether the hash piece of a stored password equals the hexadecimal form of
/// a digest.
pub fn digest_matches(hash: &str, digest_hex: &str) -> (r: bool)
    ensures
        r == (hash@ == digest_hex@),
{
    crate::text::str_eq(hash, digest_hex)
}

/// Checks a password against the `salt|hash` text stored for its account.
pub fn check_password(stored: &str, password: &str) -> (r: Result<(), WebServerError>)
    ensures
        second_piece(stored@) is None ==> r matches Err(WebServerError::NoSalt),
        second_piece(stored@) is Some ==> (r is Ok <==> password_accepted(stored@, password@)),
        second_piece(stored@) is Some && r is Err ==> r matches Err(
            WebServerError::InvalidUsernameOrPassword,
        ),
{
    let chars = chars_of(stored);
    let (salt, rest) = split_first_bar(chars.as_slice());
    let rest = match rest {
        Some(rest) => rest,
        None => return Err(WebServerError::NoSalt),
    };
    let (hash, _) = split_first_bar(rest.as_slice());
    let salt = string_of(salt.as_slice());
    let hash = string_of(hash.as_slice());
    let provided = password_hash(salt.as_str(), password);
    if !digest_matches(hash.as_str(), provided.as_str()) {
        return Err(WebServerError::InvalidUsernameOrPassword);
    }
    Ok(())
}

/// What the database answered to the lookup of an account's stored password.
#[derive(Debug)]
pub enum PasswordLookup {
    /// The account's `salt|hash` text.
    Found(String),
    /// No account of that name.
    Missing,
    /// The lookup failed, by the `Debug` text of the driver's error.
    Failed(String),
}

/// A new session: a fresh random token, added to the live sessions.
pub fn token_gen(state: &mut AppState) -> (r: String)
    ensures
        is_token(r@),
        final(state).sessions() == old(state).sessions().insert(r@),
        final(state).sessions().contains(r@),
        final(state).links() == old(state).links(),
        final(state).is_init == old(state).is_init,
{
    let token = randstr();
    let copy = token.clone();
    token_set_insert(&mut state.tokens, copy);
    token
}

/// Logs in: given what the database holds for the account, opens a session
/// when the password matches.
pub fn login(state: &mut AppState, credentials: &LogIn, lookup: PasswordLookup) -> (r: Result<
    Reply,
    WebServerError,
>)
    ensures
        lookup is Missing ==> r matches Err(WebServerError::InvalidUsernameOrPassword),
        lookup matches PasswordLookup::Failed(e) ==> r matches Err(WebServerError::Db(d)) && d@
            == e@,
        lookup matches PasswordLookup::Found(stored) ==> {
            &&& second_piece(stored@) is None ==> (r matches Err(WebServerError::NoSalt))
            &&& second_piece(stored@) is Some && !password_accepted(stored@, credentials.password@)
                ==> (r matches Err(WebServerError::InvalidUsernameOrPassword))
            &&& password_accepted(stored@, credentials.password@) ==> r is Ok
        },
        r is Err ==> *final(state) == *old(state),
        r matches Ok(reply) ==> {
            &&& reply matches Reply::Token(t)
            &&& is_token(t@)
            &&& final(state).sessions() == old(state).sessions().insert(t@)
            &&& final(state).links() == old(state).links()
            &&& final(state).is_init == old(state).is_init
        },
{
    let stored = match lookup {
        PasswordLookup::Found(stored) => stored,
        PasswordLookup::Missing => return Err(WebServerError::InvalidUsernameOrPassword),
        PasswordLookup::Failed(e) => return Err(WebServerError::Db(e)),
    };
    match check_password(stored.as_str(), credentials.password.as_str()) {
        Ok(()) => {},
        Err(e) => return Err(e),
    }
    let token = token_gen(state);
    Ok(Reply::Token(token))
}

/// Starts the creation of an account: the row to store holds a fresh random
/// salt and the salted hash of the password.
pub fn setup(credentials: &LogIn) -> (r: DbAction)
    ensures
        r matches DbAction::InsertAccount { username, password } && username@
            == credentials.username@ && exists|salt: Seq<char>|
            is_token(salt) && password@ == stored_password(salt, credentials.password@),
{
    let salt = randstr();
    let hash = password_hash(salt.as_str(), credentials.password.as_str());
    let mut text = chars_of(salt.as_str());
    text.push('|');
    let mut h = chars_of(hash.as_str());
    text.append(&mut h);
    let stored = string_of(text.as_slice());
    assert(stored@ =~= stored_password(salt@, credentials.password@));
    DbAction::InsertAccount { username: credentials.username.clone(), password: stored }
}

/// Ends a session.
pub fn invalidate(state: &mut AppState, token: &str) -> (r: Reply)
    ensures
        final(state).sessions() == old(state).sessions().remove(token@),
        !final(state).sessions().contains(token@),
        final(state).links() == old(state).links(),
        final(state).is_init == old(state).is_init,
        r matches Reply::Message(m) && m@ == "Token invalidated!"@,
{
    token_set_remove(&mut state.tokens, token);
    Reply::Message("Token invalidated!".to_owned())
}

} // verus!
