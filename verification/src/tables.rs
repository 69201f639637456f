//! The two concurrent collections the service keeps in memory: the link table
//! (short path to destination) and the set of live session tokens. Both are
//! `dashmap` collections; what they hold is named here and every method the
//! library calls has a contract over that name.
//!
//! A `dashmap` collection can be changed through a shared reference, yet the
//! contracts treat what it holds as fixed while only `&` to it is held. That is
//! sound because the library changes these collections only through the
//! wrappers below that take `&mut`; code outside the library must do the same
//! (the server holds the state behind a mutex and never writes through `&`).

use dashmap::{DashMap, DashSet};
use vstd::prelude::*;

verus! {

#[verifier::external_type_specification]
#[verifier::external_body]
#[verifier::reject_recursive_types(K)]
#[verifier::reject_recursive_types(V)]
#[verifier::reject_recursive_types(S)]
pub struct ExDashMap<K, V, S>(DashMap<K, V, S>);

#[verifier::external_type_specification]
#[verifier::external_body]
#[verifier::reject_recursive_types(K)]
#[verifier::reject_recursive_types(S)]
pub struct ExDashSet<K, S>(DashSet<K, S>);

/// The link table: short path to destination.
pub type LinkTable = DashMap<String, String>;

/// The set of live session tokens.
pub type TokenSet = DashSet<String>;

/// What a link table holds: each short path mapped to its destination.
pub uninterp spec fn link_table(m: LinkTable) -> Map<Seq<char>, Seq<char>>;

/// What a token set holds.
pub uninterp spec fn token_set(s: TokenSet) -> Set<Seq<char>>;

/// The empty link table's contents.
pub open spec fn no_links() -> Map<Seq<char>, Seq<char>> {
    Map::empty()
}

/// The empty token set's contents.
pub open spec fn no_tokens() -> Set<Seq<char>> {
    Set::empty()
}

/// `DashMap::new`: an empty map.
#[verifier::external_body]
pub(crate) fn new_link_table() -> (m: LinkTable)
    ensures
        link_table(m) == no_links(),
{
    DashMap::new()
}

/// `DashMap::insert`: afterwards `key` maps to `value` and every other entry
/// is as it was (an earlier value under `key` is replaced and dropped).
#[verifier::external_body]
pub(crate) fn link_table_insert(m: &mut LinkTable, key: String, value: String)
    ensures
        link_table(*final(m)) == link_table(*old(m)).insert(key@, value@),
{
    m.insert(key, value);
}

/// `DashMap::remove`: afterwards `key` has no entry and every other entry is
/// as it was.
#[verifier::external_body]
pub(crate) fn link_table_remove(m: &mut LinkTable, key: &str)
    ensures
        link_table(*final(m)) == link_table(*old(m)).remove(key@),
{
    m.remove(key);
}

/// `DashMap::contains_key`.
#[verifier::external_body]
pub(crate) fn link_table_contains(m: &LinkTable, key: &str) -> (r: bool)
    ensures
        r == link_table(*m).contains_key(key@),
{
    m.contains_key(key)
}

/// `DashMap::get`, with the value copied out of the guard it returns.
#[verifier::external_body]
pub(crate) fn link_table_get(m: &LinkTable, key: &str) -> (r: Option<String>)
    ensures
        match r {
            Some(v) => link_table(*m).contains_key(key@) && link_table(*m)[key@] == v@,
            None => !link_table(*m).contains_key(key@),
        },
{
    match m.get(key) {
        Some(entry) => Some(entry.value().clone()),
        None => None,
    }
}

/// Whether a sequence of pairs lists exactly the entries of a map, each key once.
pub open spec fn lists_entries(pairs: Seq<(String, String)>, m: Map<Seq<char>, Seq<char>>) -> bool {
    &&& forall|i: int|
        0 <= i < pairs.len() ==> m.contains_key(#[trigger] pairs[i].0@) && m[pairs[i].0@]
            == pairs[i].1@
    &&& forall|i: int, j: int|
        0 <= i < j < pairs.len() ==> #[trigger] pairs[i].0@ != #[trigger] pairs[j].0@
    &&& forall|k: Seq<char>|
        #[trigger] m.contains_key(k) ==> exists|i: int| 0 <= i < pairs.len() && pairs[i].0@ == k
}

/// `DashMap::iter`, each entry copied out as a pair: every entry comes out
/// once, in an order the source leaves open.
#[verifier::external_body]
pub(crate) fn link_table_entries(m: &LinkTable) -> (r: Vec<(String, String)>)
    ensures
        lists_entries(r@, link_table(*m)),
{
    m.iter().map(|entry| (entry.key().clone(), entry.value().clone())).collect()
}

/// `DashSet::new`: an empty set.
#[verifier::external_body]
pub(crate) fn new_token_set() -> (s: TokenSet)
    ensures
        token_set(s) == no_tokens(),
{
    DashSet::new()
}

/// `DashSet::insert`.
#[verifier::external_body]
pub(crate) fn token_set_insert(s: &mut TokenSet, token: String)
    ensures
        token_set(*final(s)) == token_set(*old(s)).insert(token@),
{
    s.insert(token);
}

/// `DashSet::remove`.
#[verifier::external_body]
pub(crate) fn token_set_remove(s: &mut TokenSet, token: &str)
    ensures
        token_set(*final(s)) == token_set(*old(s)).remove(token@),
{
    s.remove(token);
}

/// `DashSet::contains`.
#[verifier::external_body]
pub(crate) fn token_set_contains(s: &TokenSet, token: &str) -> (r: bool)
    ensures
        r == token_set(*s).contains(token@),
{
    s.contains(token)
}

} // verus!
