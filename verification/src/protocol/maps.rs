//! The ordered maps with values of a fixed type, and what is trusted of `indexmap::IndexMap`.
use crate::flags::BuiltinLoader;
use crate::protocol::messages::{MangleCacheEntry, MangleModel};
use crate::protocol::value;
use crate::protocol::value::Value;
use indexmap::IndexMap;
use vstd::prelude::*;

verus! {

/// `indexmap::IndexMap`.
#[verifier::external_type_specification]
#[verifier::external_body]
#[verifier::reject_recursive_types(K)]
#[verifier::reject_recursive_types(V)]
#[verifier::reject_recursive_types(S)]
pub struct ExIndexMap<K, V, S>(indexmap::IndexMap<K, V, S>);

/// The entries of a map from strings to strings, in their order.
pub uninterp spec fn string_entries(m: IndexMap<String, String>) -> Seq<(Seq<char>, Seq<char>)>;

/// The entries of a mangle cache, in their order, each by its model.
pub uninterp spec fn mangle_entries(m: IndexMap<String, MangleCacheEntry>) -> Seq<
    (Seq<char>, MangleModel),
>;

/// The entries of a mangle cache, each with the value that stands for it.
pub open spec fn mangle_values(entries: Seq<(Seq<char>, MangleModel)>) -> Seq<
    (Seq<char>, Value),
> {
    entries.map_values(|e: (Seq<char>, MangleModel)| (e.0, e.1.value()))
}

/// The entries of a map from file extensions to loaders, in their order.
pub uninterp spec fn loader_entries(m: IndexMap<String, BuiltinLoader>) -> Seq<
    (Seq<char>, BuiltinLoader),
>;

/// `IndexMap::new`: a map without entries.
#[verifier::external_body]
pub(crate) fn string_map_new() -> (m: IndexMap<String, String>)
    ensures
        string_entries(m) == Seq::<(Seq<char>, Seq<char>)>::empty(),
{
    IndexMap::new()
}

/// `IndexMap::insert`: a key that is present keeps its place and gets the new value, a new key
/// goes last. The value that was replaced is dropped.
#[verifier::external_body]
pub(crate) fn string_map_insert(m: &mut IndexMap<String, String>, key: String, value: String)
    ensures
        string_entries(*final(m)) == value::put(string_entries(*old(m)), key@, value@),
{
    m.insert(key, value);
}

/// `IndexMap::iter`: references to the keys and values, in their order. No key comes twice.
#[verifier::external_body]
pub(crate) fn string_map_iter<'a>(m: &'a IndexMap<String, String>) -> (r: Vec<
    (&'a String, &'a String),
>)
    ensures
        r@.len() == string_entries(*m).len(),
        forall|i: int|
            0 <= i < r@.len() ==> string_entries(*m)[i] == ((#[trigger] r@[i]).0@, r@[i].1@),
        forall|i: int, j: int|
            0 <= i < j < r@.len() ==> (#[trigger] r@[i]).0@ != (#[trigger] r@[j]).0@,
{
    m.iter().collect()
}

/// `IndexMap::clone`: a map with the same entries.
#[verifier::external_body]
pub(crate) fn string_map_clone(m: &IndexMap<String, String>) -> (r: IndexMap<String, String>)
    ensures
        string_entries(r) == string_entries(*m),
{
    m.clone()
}

/// `IndexMap::new`: a map without entries.
#[verifier::external_body]
pub(crate) fn mangle_map_new() -> (m: IndexMap<String, MangleCacheEntry>)
    ensures
        mangle_entries(m) == Seq::<(Seq<char>, MangleModel)>::empty(),
{
    IndexMap::new()
}

/// `IndexMap::insert`: a key that is present keeps its place and gets the new value, a new key
/// goes last. The value that was replaced is dropped.
#[verifier::external_body]
pub(crate) fn mangle_map_insert(
    m: &mut IndexMap<String, MangleCacheEntry>,
    key: String,
    value: MangleCacheEntry,
)
    ensures
        mangle_entries(*final(m)) == value::put(mangle_entries(*old(m)), key@, value@),
{
    m.insert(key, value);
}

/// `IndexMap::iter`: references to the keys and values, in their order. No key comes twice.
#[verifier::external_body]
pub(crate) fn mangle_map_iter<'a>(m: &'a IndexMap<String, MangleCacheEntry>) -> (r: Vec<
    (&'a String, &'a MangleCacheEntry),
>)
    ensures
        r@.len() == mangle_entries(*m).len(),
        forall|i: int|
            0 <= i < r@.len() ==> mangle_entries(*m)[i] == ((#[trigger] r@[i]).0@, r@[i].1@),
        forall|i: int, j: int|
            0 <= i < j < r@.len() ==> (#[trigger] r@[i]).0@ != (#[trigger] r@[j]).0@,
{
    m.iter().collect()
}

/// `IndexMap::iter`: references to the keys and values, in their order. No key comes twice.
#[verifier::external_body]
pub(crate) fn loader_map_iter<'a>(m: &'a IndexMap<String, BuiltinLoader>) -> (r: Vec<
    (&'a String, &'a BuiltinLoader),
>)
    ensures
        r@.len() == loader_entries(*m).len(),
        forall|i: int|
            0 <= i < r@.len() ==> loader_entries(*m)[i] == ((#[trigger] r@[i]).0@, *r@[i].1),
        forall|i: int, j: int|
            0 <= i < j < r@.len() ==> (#[trigger] r@[i]).0@ != (#[trigger] r@[j]).0@,
{
    m.iter().collect()
}

/// `IndexMap::clone`: a map with the same entries.
#[verifier::external_body]
pub(crate) fn loader_map_clone(m: &IndexMap<String, BuiltinLoader>) -> (r: IndexMap<
    String,
    BuiltinLoader,
>)
    ensures
        loader_entries(r) == loader_entries(*m),
{
    m.clone()
}

} // verus!
