//! The file-backed service's storage and configuration: the link table kept as a
//! bincode file, the QR helper, and the choice of the listening ports.

use bincode::ErrorKind;
use std::num::ParseIntError;
use vstd::prelude::*;

use crate::error::WebServerError;
use crate::qr::{bmp_file, gen, is_bmp_signed, qr_encoding};
use crate::tables::{
    link_table, link_table_entries, lists_entries, new_link_table, no_links,
    LinkTable,
};
use crate::{links_of_rows, pairs_view};

verus! {

#[verifier::external_type_specification]
#[verifier::external_body]
pub struct ExBincodeErrorKind(ErrorKind);

#[verifier::external_type_specification]
#[verifier::external_body]
pub struct ExParseIntError(ParseIntError);

/// Links as (short path, destination) pairs of texts.
pub type LinkPairs = Seq<(Seq<char>, Seq<char>)>;

/// A number as `width` little-endian bytes.
pub open spec fn le_bytes(n: nat, width: nat) -> Seq<u8>
    decreases width,
{
    if width == 0 {
        Seq::empty()
    } else {
        seq![(n % 256) as u8] + le_bytes(n / 256, (width - 1) as nat)
    }
}

/// A string as bincode writes it: its UTF-8 length as a `u64`, then its UTF-8 bytes.
pub open spec fn bincode_str(s: Seq<char>) -> Seq<u8> {
    le_bytes(vstd::utf8::encode_utf8(s).len(), 8) + vstd::utf8::encode_utf8(s)
}

/// The pairs one after the other, key then value.
pub open spec fn bincode_entries(pairs: LinkPairs) -> Seq<u8>
    decreases pairs.len(),
{
    if pairs.len() == 0 {
        Seq::empty()
    } else {
        bincode_str(pairs[0].0) + bincode_str(pairs[0].1) + bincode_entries(pairs.drop_first())
    }
}

/// The bytes `bincode::serialize` writes for a sequence of string pairs with
/// its default options (the same bytes it writes for a map holding them in
/// that order): the count as a `u64`, then each key and value.
pub open spec fn bincode_pairs(pairs: LinkPairs) -> Seq<u8> {
    le_bytes(pairs.len(), 8) + bincode_entries(pairs)
}

/// Whether `bytes` begins with `prefix`.
pub open spec fn begins_with(bytes: Seq<u8>, prefix: Seq<u8>) -> bool {
    prefix.len() <= bytes.len() && bytes.take(prefix.len() as int) == prefix
}

/// 256 to the power `w`.
pub open spec fn pow256(w: nat) -> nat
    decreases w,
{
    if w == 0 {
        1
    } else {
        256 * pow256((w - 1) as nat)
    }
}

proof fn lemma_le_bytes_len(n: nat, w: nat)
    ensures
        le_bytes(n, w).len() == w,
    decreases w,
{
    if w > 0 {
        lemma_le_bytes_len(n / 256, (w - 1) as nat);
    }
}

/// Numbers below `256^w` have distinct `w`-byte little-endian forms.
proof fn lemma_le_bytes_injective(n: nat, m: nat, w: nat)
    requires
        n < pow256(w),
        m < pow256(w),
        le_bytes(n, w) == le_bytes(m, w),
    ensures
        n == m,
    decreases w,
{
    if w > 0 {
        let w1 = (w - 1) as nat;
        assert(le_bytes(n, w) == seq![(n % 256) as u8] + le_bytes(n / 256, w1));
        assert(le_bytes(m, w) == seq![(m % 256) as u8] + le_bytes(m / 256, w1));
        assert(le_bytes(n, w)[0] == (n % 256) as u8);
        assert(le_bytes(m, w)[0] == (m % 256) as u8);
        assert(le_bytes(n, w)[0] == le_bytes(m, w)[0]);
        assert(n % 256 == m % 256);
        assert(le_bytes(n / 256, w1) =~= le_bytes(n, w).drop_first());
        assert(le_bytes(m / 256, w1) =~= le_bytes(m, w).drop_first());
        let p = pow256(w1);
        assert(n / 256 < p) by (nonlinear_arith)
            requires
                n < 256 * p,
        ;
        assert(m / 256 < p) by (nonlinear_arith)
            requires
                m < 256 * p,
        ;
        lemma_le_bytes_injective(n / 256, m / 256, w1);
    }
}

/// The front of `x + y` at the front of `bytes`: `x` begins `bytes`, and `y`
/// begins what follows it.
proof fn lemma_begins_concat(bytes: Seq<u8>, x: Seq<u8>, y: Seq<u8>)
    requires
        begins_with(bytes, x + y),
    ensures
        begins_with(bytes, x),
        begins_with(bytes.skip(x.len() as int), y),
{
    assert(bytes.take(x.len() as int) =~= (x + y).take(x.len() as int));
    assert((x + y).take(x.len() as int) =~= x);
    assert forall|i: int| 0 <= i < y.len() implies bytes.skip(x.len() as int)[i] == y[i] by {
        assert(bytes[x.len() + i] == bytes.take((x + y).len() as int)[x.len() + i]);
        assert((x + y)[x.len() + i] == y[i]);
    }
    assert(bytes.skip(x.len() as int).take(y.len() as int) =~= y);
}

/// Two strings whose encodings both begin the same bytes are the same string.
proof fn lemma_str_unique(bytes: Seq<u8>, s: Seq<char>, t: Seq<char>)
    requires
        bytes.len() < pow256(8),
        begins_with(bytes, bincode_str(s)),
        begins_with(bytes, bincode_str(t)),
    ensures
        s == t,
{
    let es = vstd::utf8::encode_utf8(s);
    let et = vstd::utf8::encode_utf8(t);
    lemma_begins_concat(bytes, le_bytes(es.len(), 8), es);
    lemma_begins_concat(bytes, le_bytes(et.len(), 8), et);
    lemma_le_bytes_len(es.len(), 8);
    lemma_le_bytes_len(et.len(), 8);
    assert(le_bytes(es.len(), 8) == bytes.take(8));
    assert(le_bytes(et.len(), 8) == bytes.take(8));
    lemma_le_bytes_injective(es.len(), et.len(), 8);
    assert(es =~= et);
    vstd::utf8::encode_utf8_decode_utf8(s);
    vstd::utf8::encode_utf8_decode_utf8(t);
}

proof fn lemma_entries_len(pairs: LinkPairs)
    ensures
        bincode_entries(pairs).len() >= pairs.len(),
    decreases pairs.len(),
{
    if pairs.len() > 0 {
        lemma_entries_len(pairs.drop_first());
        lemma_le_bytes_len(vstd::utf8::encode_utf8(pairs[0].0).len(), 8);
    }
}

/// Two lists of pairs of one length whose entries both begin the same bytes
/// are the same list.
proof fn lemma_entries_unique(bytes: Seq<u8>, p: LinkPairs, q: LinkPairs)
    requires
        bytes.len() < pow256(8),
        p.len() == q.len(),
        begins_with(bytes, bincode_entries(p)),
        begins_with(bytes, bincode_entries(q)),
    ensures
        p == q,
    decreases p.len(),
{
    if p.len() > 0 {
        let kp = bincode_str(p[0].0);
        let vp = bincode_str(p[0].1);
        let kq = bincode_str(q[0].0);
        let vq = bincode_str(q[0].1);
        lemma_begins_concat(bytes, kp + vp, bincode_entries(p.drop_first()));
        lemma_begins_concat(bytes, kq + vq, bincode_entries(q.drop_first()));
        lemma_begins_concat(bytes, kp, vp);
        lemma_begins_concat(bytes, kq, vq);
        lemma_str_unique(bytes, p[0].0, q[0].0);
        let after_key = bytes.skip(kp.len() as int);
        lemma_str_unique(after_key, p[0].1, q[0].1);
        let after_pair = bytes.skip((kp + vp).len() as int);
        lemma_entries_unique(after_pair, p.drop_first(), q.drop_first());
        assert(p =~= q) by {
            assert forall|i: int| 0 <= i < p.len() implies p[i] == q[i] by {
                if i > 0 {
                    assert(p[i] == p.drop_first()[i - 1]);
                    assert(q[i] == q.drop_first()[i - 1]);
                }
            }
        }
    }
}

/// The encoding of a list of pairs is prefix-free: two lists whose encodings
/// both begin the same bytes are the same list.
pub proof fn lemma_pairs_unique(bytes: Seq<u8>, p: LinkPairs, q: LinkPairs)
    requires
        bytes.len() < pow256(8),
        begins_with(bytes, bincode_pairs(p)),
        begins_with(bytes, bincode_pairs(q)),
    ensures
        p == q,
{
    lemma_begins_concat(bytes, le_bytes(p.len(), 8), bincode_entries(p));
    lemma_begins_concat(bytes, le_bytes(q.len(), 8), bincode_entries(q));
    lemma_le_bytes_len(p.len(), 8);
    lemma_le_bytes_len(q.len(), 8);
    lemma_entries_len(p);
    lemma_entries_len(q);
    assert(le_bytes(p.len(), 8) == bytes.take(8));
    assert(le_bytes(q.len(), 8) == bytes.take(8));
    lemma_le_bytes_injective(p.len(), q.len(), 8);
    lemma_entries_unique(bytes.skip(8), p, q);
}

/// `bincode::serialize` of a vector of string pairs (default options): the
/// encoding of the pairs. It succeeds for this type: the default options set
/// no size limit, a vector and a string always report their length, and
/// writing into a `Vec<u8>` cannot fail.
#[verifier::external_body]
fn bincode_serialize(pairs: &Vec<(String, String)>) -> (r: Result<Vec<u8>, Box<ErrorKind>>)
    ensures
        r is Ok,
        r matches Ok(bytes) ==> bytes@ == bincode_pairs(pairs_view(pairs@)),
{
    bincode::serialize(pairs)
}

/// `bincode::deserialize` of a vector of string pairs (default options, which
/// allow trailing bytes): it reads pairs whose encoding begins the bytes, and
/// fails exactly where no pairs' encoding does (too few bytes, or a string
/// that is not UTF-8).
#[verifier::external_body]
fn bincode_deserialize(bytes: &[u8]) -> (r: Result<Vec<(String, String)>, Box<ErrorKind>>)
    ensures
        match r {
            Ok(pairs) => begins_with(bytes@, bincode_pairs(pairs_view(pairs@))),
            Err(_) => forall|p: LinkPairs| !begins_with(bytes@, bincode_pairs(p)),
        },
{
    bincode::deserialize(bytes)
}

/// The QR code of a link as a BMP image.
pub fn qrgen(link: String) -> (r: Result<Vec<u8>, WebServerError>)
    ensures
        qr_encoding(vstd::utf8::encode_utf8(link@)) is Some ==> r is Ok,
        match r {
            Ok(bytes) => qr_encoding(vstd::utf8::encode_utf8(link@)) matches Some(rows) && bytes@
                == bmp_file(rows) && is_bmp_signed(bytes@),
            Err(WebServerError::Qr(_)) => qr_encoding(vstd::utf8::encode_utf8(link@)) is None,
            Err(_) => false,
        },
{
    gen(link.as_str())
}

/// The file contents that store a link table: its entries, in the table's
/// iteration order, encoded with bincode.
pub fn save_bincode(map: &LinkTable) -> (r: Result<Vec<u8>, Box<ErrorKind>>)
    ensures
        r is Ok,
        r matches Ok(bytes) ==> exists|pairs: Seq<(String, String)>|
            lists_entries(pairs, link_table(*map)) && bytes@ == bincode_pairs(pairs_view(pairs)),
{
    let entries = link_table_entries(map);
    bincode_serialize(&entries)
}

/// A link table read from storage.
pub struct LoadedLinks {
    pub urls: LinkTable,
    /// Where there was no file: the contents to create it with (an empty table).
    pub create_with: Option<Vec<u8>>,
}

/// Reads the link table from the contents of its file, or starts an empty one
/// where there is no file yet, with the contents to create the file with (the
/// encoding of no entries). Contents that do not decode are refused with the
/// decoding error; the server stops on that error ("Failed to deserialize
/// database") rather than start without its links.
pub fn read_bincode(existing: Option<&[u8]>) -> (r: Result<LoadedLinks, Box<ErrorKind>>)
    ensures
        existing is None ==> (r is Ok && link_table(r->Ok_0.urls) == no_links()
            && r->Ok_0.create_with is Some && r->Ok_0.create_with->0@ == bincode_pairs(
            Seq::empty(),
        )),
        existing matches Some(b) ==> match r {
            Ok(l) => l.create_with is None && exists|p: LinkPairs|
                begins_with(b@, bincode_pairs(p)) && link_table(l.urls) == links_of_rows(p),
            Err(_) => forall|p: LinkPairs| !begins_with(b@, bincode_pairs(p)),
        },
        existing matches Some(b) ==> forall|p: LinkPairs|
            #[trigger] begins_with(b@, bincode_pairs(p)) ==> (r is Ok && link_table(
                r->Ok_0.urls,
            ) == links_of_rows(p)),
{
    match existing {
        None => {
            let empty: Vec<(String, String)> = Vec::new();
            let bytes = bincode_serialize(&empty)?;
            assert(pairs_view(empty@) =~= Seq::empty());
            Ok(LoadedLinks { urls: new_link_table(), create_with: Some(bytes) })
        },
        Some(bytes) => {
            let rows = match bincode_deserialize(bytes) {
                Ok(rows) => rows,
                Err(e) => {
                    return Err(e);
                },
            };
            let urls = crate::table_from_rows(&rows);
            assert(begins_with(bytes@, bincode_pairs(pairs_view(rows@))));
            let n_bytes = bytes.len();
            assert(pow256(8) == 18446744073709551616) by {
                reveal_with_fuel(pow256, 9);
            }
            assert(bytes@.len() == n_bytes && n_bytes <= usize::MAX);
            assert forall|p: LinkPairs| #[trigger]
                begins_with(bytes@, bincode_pairs(p)) implies links_of_rows(p) == link_table(urls) by {
                lemma_pairs_unique(bytes@, p, pairs_view(rows@));
            }
            Ok(LoadedLinks { urls, create_with: None })
        },
    }
}

/// The value of a non-empty run of decimal digits.
pub open spec fn decimal_value(d: Seq<char>) -> int
    decreases d.len(),
{
    if d.len() == 0 {
        0
    } else {
        decimal_value(d.drop_last()) * 10 + (d.last() as int - 48)
    }
}

/// Whether a text is a non-empty run of decimal digits.
pub open spec fn all_digits(d: Seq<char>) -> bool {
    d.len() > 0 && forall|i: int| 0 <= i < d.len() ==> '0' <= #[trigger] d[i] && d[i] <= '9'
}

/// What `str::parse::<u16>` reads: an optional `+` and then decimal digits
/// whose value fits in a `u16`; anything else is an error.
pub open spec fn parsed_u16(s: Seq<char>) -> Option<u16> {
    let d = if s.len() > 0 && s[0] == '+' {
        s.drop_first()
    } else {
        s
    };
    if all_digits(d) && decimal_value(d) <= 65535 {
        Some(decimal_value(d) as u16)
    } else {
        None
    }
}

/// `str::parse::<u16>`.
#[verifier::external_body]
fn parse_u16(s: &str) -> (r: Result<u16, ParseIntError>)
    ensures
        match r {
            Ok(v) => parsed_u16(s@) == Some(v),
            Err(_) => parsed_u16(s@) is None,
        },
{
    s.parse::<u16>()
}

/// Why no port could be chosen.
#[derive(Debug)]
pub enum PortError {
    /// Neither the environment nor the configuration names a port.
    NotSet,
    /// The environment names a port that is not a number below 65536.
    Invalid(ParseIntError),
}

/// The port to listen on: the environment's value where it is set (it must be
/// a valid port), else the configured one.
fn choose_port(env_port: Option<&str>, config_port: Option<u16>) -> (r: Result<u16, PortError>)
    ensures
        env_port matches Some(s) ==> match parsed_u16(s@) {
            Some(v) => r == Ok::<u16, PortError>(v),
            None => r matches Err(PortError::Invalid(_)),
        },
        env_port is None ==> match config_port {
            Some(p) => r == Ok::<u16, PortError>(p),
            None => r matches Err(PortError::NotSet),
        },
{
    match env_port {
        Some(s) => match parse_u16(s) {
            Ok(port) => Ok(port),
            Err(e) => Err(PortError::Invalid(e)),
        },
        None => match config_port {
            Some(p) => Ok(p),
            None => Err(PortError::NotSet),
        },
    }
}

/// The HTTP port: `PORT` from the environment (`None` where unset), else the
/// configured port. Where neither gives a port, or `PORT` is no valid port,
/// the error says which; the server stops on it ("Port not set!", "port
/// environment variable invalid").
pub fn get_port(env_port: Option<&str>, config_port: Option<u16>) -> (r: Result<u16, PortError>)
    ensures
        env_port matches Some(s) ==> match parsed_u16(s@) {
            Some(v) => r == Ok::<u16, PortError>(v),
            None => r matches Err(PortError::Invalid(_)),
        },
        env_port is None ==> match config_port {
            Some(p) => r == Ok::<u16, PortError>(p),
            None => r matches Err(PortError::NotSet),
        },
{
    choose_port(env_port, config_port)
}

/// The HTTPS port: `TLS_PORT` from the environment (`None` where unset), else
/// the configured TLS port. Where neither gives a port, or `TLS_PORT` is no
/// valid port, the error says which; the server stops on it.
pub fn get_port_tls(env_port: Option<&str>, config_port: Option<u16>) -> (r: Result<u16, PortError>)
    ensures
        env_port matches Some(s) ==> match parsed_u16(s@) {
            Some(v) => r == Ok::<u16, PortError>(v),
            None => r matches Err(PortError::Invalid(_)),
        },
        env_port is None ==> match config_port {
            Some(p) => r == Ok::<u16, PortError>(p),
            None => r matches Err(PortError::NotSet),
        },
{
    choose_port(env_port, config_port)
}

} // verus!
