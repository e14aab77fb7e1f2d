//! Dynamically typed protocol values, and the ordered string-keyed maps inside them.
//!
//! An [`AnyValue`] is what travels over the wire. Contracts speak of its model, a [`Value`], in
//! which strings are sequences of characters and a map is the sequence of its entries in
//! insertion order.
use crate::debug;
use core::fmt::Debug;
use indexmap::IndexMap;
use vstd::prelude::*;

verus! {

/// The mathematical model of an [`AnyValue`].
#[verifier::ext_equal]
pub enum Value {
    Null,
    Bool(bool),
    U32(u32),
    Text(Seq<char>),
    Bytes(Seq<u8>),
    List(Seq<Value>),
    Dict(Seq<(Seq<char>, Value)>),
}

/// A value of the protocol.
pub enum AnyValue {
    Null,
    Bool(bool),
    U32(u32),
    String(String),
    Bytes(Vec<u8>),
    Vec(Vec<AnyValue>),
    Mapping(ValueMap),
}

/// The model of a value.
pub open spec fn model(v: AnyValue) -> Value
    decreases v,
{
    match v {
        AnyValue::Null => Value::Null,
        AnyValue::Bool(b) => Value::Bool(b),
        AnyValue::U32(u) => Value::U32(u),
        AnyValue::String(s) => Value::Text(s@),
        AnyValue::Bytes(b) => Value::Bytes(b@),
        AnyValue::Vec(items) => Value::List(models(items@)),
        AnyValue::Mapping(m) => Value::Dict(value_entries(m)),
    }
}

/// The models of the values of a sequence, one by one.
pub open spec fn models(items: Seq<AnyValue>) -> Seq<Value>
    decreases items,
{
    Seq::new(
        items.len(),
        |i: int|
            if 0 <= i < items.len() {
                model(items[i])
            } else {
                Value::Null
            },
    )
}

impl View for AnyValue {
    type V = Value;

    open spec fn view(&self) -> Value {
        model(*self)
    }
}

impl DeepView for AnyValue {
    type V = Value;

    open spec fn deep_view(&self) -> Value {
        model(*self)
    }
}

/// The position of the first entry under `key`, or the number of entries if there is none.
pub open spec fn key_index<V>(entries: Seq<(Seq<char>, V)>, key: Seq<char>) -> int
    decreases entries.len(),
{
    if entries.len() == 0 || entries[0].0 == key {
        0
    } else {
        1 + key_index(entries.drop_first(), key)
    }
}

/// What the entries hold under `key`.
pub open spec fn lookup<V>(entries: Seq<(Seq<char>, V)>, key: Seq<char>) -> Option<V> {
    let i = key_index(entries, key);
    if i < entries.len() {
        Some(entries[i].1)
    } else {
        None
    }
}

/// The entries after `value` was stored under `key`: a key that is present keeps its place and
/// its value changes, a new key goes last.
pub open spec fn put<V>(entries: Seq<(Seq<char>, V)>, key: Seq<char>, value: V) -> Seq<
    (Seq<char>, V),
> {
    let i = key_index(entries, key);
    if i < entries.len() {
        entries.update(i, (key, value))
    } else {
        entries.push((key, value))
    }
}

/// No key occurs twice.
pub open spec fn distinct_keys<V>(entries: Seq<(Seq<char>, V)>) -> bool {
    forall|i: int, j: int|
        0 <= i < j < entries.len() ==> (#[trigger] entries[i]).0 != (#[trigger] entries[j]).0
}

/// No map in a value, nor the value itself, holds a key twice.
pub open spec fn keyed(v: Value) -> bool
    decreases v,
{
    match v {
        Value::List(items) => forall|i: int| 0 <= i < items.len() ==> keyed(#[trigger] items[i]),
        Value::Dict(entries) => {
            &&& distinct_keys(entries)
            &&& forall|i: int| 0 <= i < entries.len() ==> keyed((#[trigger] entries[i]).1)
        },
        _ => true,
    }
}

/// `key_index` finds the first entry under the key, and only runs to the end when there is none.
pub proof fn lemma_key_index<V>(entries: Seq<(Seq<char>, V)>, key: Seq<char>)
    ensures
        0 <= key_index(entries, key) <= entries.len(),
        key_index(entries, key) < entries.len() ==> entries[key_index(entries, key)].0 == key,
        forall|j: int| 0 <= j < key_index(entries, key) ==> (#[trigger] entries[j]).0 != key,
    decreases entries.len(),
{
    if entries.len() != 0 && entries[0].0 != key {
        let rest = entries.drop_first();
        lemma_key_index(rest, key);
        assert forall|j: int| 0 <= j < key_index(entries, key) implies (
        #[trigger] entries[j]).0 != key by {
            if j > 0 {
                assert(entries[j] == rest[j - 1]);
            }
        }
    }
}

/// Storing under a key leaves the keys distinct, makes the value the one found under that key,
/// and changes nothing that is found under another key.
pub proof fn lemma_put_then_lookup<V>(
    entries: Seq<(Seq<char>, V)>,
    key: Seq<char>,
    value: V,
    other: Seq<char>,
)
    ensures
        lookup(put(entries, key, value), key) == Some(value),
        other != key ==> lookup(put(entries, key, value), other) == lookup(entries, other),
        distinct_keys(entries) ==> distinct_keys(put(entries, key, value)),
{
    let after = put(entries, key, value);
    lemma_key_index(entries, key);
    lemma_key_index(after, key);
    lemma_key_index(entries, other);
    lemma_key_index(after, other);
    let i = key_index(entries, key);
    let n = entries.len() as int;
    assert(after[i] == (key, value));
    assert(forall|j: int| 0 <= j < n && j != i ==> #[trigger] after[j] == entries[j]);
    if key_index(after, key) < i {
        assert(entries[key_index(after, key)].0 == key);
    } else if key_index(after, key) > i {
        assert(after[i].0 != key);
    }
    if other != key {
        let a = key_index(entries, other);
        let b = key_index(after, other);
        if a < n {
            assert(after[a] == entries[a]);
        }
        if b < n {
            assert(after[b] == entries[b]);
        }
    }
}

/// An ordered map from strings to values.
///
/// It is an `indexmap::IndexMap<String, AnyValue>`. The map is held out of the verifier's sight
/// because a type cannot contain itself through a declared outside type; what it holds is named
/// by [`value_entries`].
#[verifier::external_body]
pub struct ValueMap {
    inner: IndexMap<String, AnyValue>,
}

/// The entries of a map in their order, each key by its characters and each value by its model.
pub uninterp spec fn value_entries(m: ValueMap) -> Seq<(Seq<char>, Value)>;

/// `IndexMap::new`: a map without entries.
#[verifier::external_body]
fn value_map_new() -> (m: ValueMap)
    ensures
        value_entries(m) == Seq::<(Seq<char>, Value)>::empty(),
{
    ValueMap { inner: IndexMap::new() }
}

/// `IndexMap::insert`: a key that is present keeps its place and gets the new value, a new key
/// goes last. The value that was replaced is dropped.
#[verifier::external_body]
fn value_map_insert(m: &mut ValueMap, key: String, value: AnyValue)
    ensures
        value_entries(*final(m)) == put(value_entries(*old(m)), key@, value@),
{
    m.inner.insert(key, value);
}

/// `IndexMap::get`: the value stored under the key, if the key is present.
#[verifier::external_body]
fn value_map_get<'a>(m: &'a ValueMap, key: &str) -> (r: Option<&'a AnyValue>)
    ensures
        match r {
            Some(v) => lookup(value_entries(*m), key@) == Some(v@),
            None => lookup(value_entries(*m), key@) is None,
        },
{
    m.inner.get(key)
}

/// `IndexMap::iter`: references to the keys and values, in their order. No key comes twice.
#[verifier::external_body]
fn value_map_iter<'a>(m: &'a ValueMap) -> (r: Vec<(&'a String, &'a AnyValue)>)
    ensures
        r@.len() == value_entries(*m).len(),
        forall|i: int|
            0 <= i < r@.len() ==> value_entries(*m)[i] == ((#[trigger] r@[i]).0@, r@[i].1@),
        forall|i: int, j: int|
            0 <= i < j < r@.len() ==> (#[trigger] r@[i]).0@ != (#[trigger] r@[j]).0@,
{
    m.inner.iter().collect()
}

/// `IndexMap::into_iter`: the keys and values themselves, in their order. No key comes twice.
#[verifier::external_body]
fn value_map_into_iter(m: ValueMap) -> (r: Vec<(String, AnyValue)>)
    ensures
        r@.len() == value_entries(m).len(),
        forall|i: int|
            0 <= i < r@.len() ==> value_entries(m)[i] == ((#[trigger] r@[i]).0@, r@[i].1@),
        forall|i: int, j: int|
            0 <= i < j < r@.len() ==> (#[trigger] r@[i]).0@ != (#[trigger] r@[j]).0@,
{
    m.inner.into_iter().collect()
}

/// `IndexMap::fmt`: prints the entries as the formatter asks for. Nothing is claimed of what is
/// printed.
#[verifier::external_body]
fn value_map_fmt(m: &ValueMap, f: &mut core::fmt::Formatter<'_>) -> (r: Result<
    (),
    core::fmt::Error,
>) {
    m.inner.fmt(f)
}

impl core::fmt::Debug for ValueMap {
    /// Hands the map itself to the formatter, of which nothing can be said.
    fn fmt(&self, f: &mut core::fmt::Formatter<'_>) -> (r: Result<(), core::fmt::Error>) {
        value_map_fmt(self, f)
    }
}

impl core::fmt::Debug for AnyValue {
    /// Hands the name of the variant and what it holds to the formatter, of which nothing can be
    /// said; a map goes by the name `Map`.
    fn fmt(&self, f: &mut core::fmt::Formatter<'_>) -> (r: Result<(), core::fmt::Error>) {
        match self {
            AnyValue::Null => debug::write_text("Null", f),
            AnyValue::Bool(b) => debug::tuple_fmt("Bool", b, f),
            AnyValue::U32(u) => debug::tuple_fmt("U32", u, f),
            AnyValue::String(s) => debug::tuple_fmt("String", s, f),
            AnyValue::Bytes(b) => debug::tuple_fmt("Bytes", b, f),
            AnyValue::Vec(items) => debug::tuple_fmt("Vec", items, f),
            AnyValue::Mapping(m) => debug::tuple_fmt("Map", m, f),
        }
    }
}

impl View for ValueMap {
    type V = Seq<(Seq<char>, Value)>;

    open spec fn view(&self) -> Seq<(Seq<char>, Value)> {
        value_entries(*self)
    }
}

impl DeepView for ValueMap {
    type V = Seq<(Seq<char>, Value)>;

    open spec fn deep_view(&self) -> Seq<(Seq<char>, Value)> {
        value_entries(*self)
    }
}

impl ValueMap {
    /// A map without entries.
    pub fn new() -> (m: ValueMap)
        ensures
            m@ == Seq::<(Seq<char>, Value)>::empty(),
    {
        value_map_new()
    }

    /// Stores `value` under `key`.
    pub fn insert(&mut self, key: String, value: AnyValue)
        ensures
            final(self)@ == put(old(self)@, key@, value@),
    {
        value_map_insert(self, key, value)
    }

    /// The value under `key`.
    pub fn get(&self, key: &str) -> (r: Option<&AnyValue>)
        ensures
            match r {
                Some(v) => lookup(self@, key@) == Some(v@),
                None => lookup(self@, key@) is None,
            },
    {
        value_map_get(self, key)
    }

    /// The entries by reference, in their order.
    pub fn entries(&self) -> (r: Vec<(&String, &AnyValue)>)
        ensures
            r@.len() == self@.len(),
            forall|i: int| 0 <= i < r@.len() ==> self@[i] == ((#[trigger] r@[i]).0@, r@[i].1@),
            distinct_keys(self@),
    {
        let r = value_map_iter(self);
        assert forall|i: int, j: int| 0 <= i < j < self@.len() implies (#[trigger] self@[i]).0 != (
        #[trigger] self@[j]).0 by {
            assert(r@[i].0@ != r@[j].0@);
        }
        r
    }

    /// The entries, in their order.
    pub fn into_entries(self) -> (r: Vec<(String, AnyValue)>)
        ensures
            r@.len() == self@.len(),
            forall|i: int| 0 <= i < r@.len() ==> self@[i] == ((#[trigger] r@[i]).0@, r@[i].1@),
            distinct_keys(self@),
    {
        let r = value_map_into_iter(self);
        assert forall|i: int, j: int| 0 <= i < j < self@.len() implies (#[trigger] self@[i]).0 != (
        #[trigger] self@[j]).0 by {
            assert(r@[i].0@ != r@[j].0@);
        }
        r
    }
}

/// A copy of a value, with the copies of everything inside it.
fn copy_value(v: &AnyValue) -> (r: AnyValue)
    ensures
        r@ == v@,
    decreases v@, 1nat,
{
    match v {
        AnyValue::Null => AnyValue::Null,
        AnyValue::Bool(b) => AnyValue::Bool(*b),
        AnyValue::U32(u) => AnyValue::U32(*u),
        AnyValue::String(s) => AnyValue::String(s.clone()),
        AnyValue::Bytes(b) => AnyValue::Bytes(b.clone()),
        AnyValue::Vec(items) => {
            let mut copies: Vec<AnyValue> = Vec::new();
            for i in 0..items.len()
                invariant
                    v@ == Value::List(models(items@)),
                    copies@.len() == i,
                    forall|j: int| 0 <= j < i ==> (#[trigger] copies@[j])@ == items@[j]@,
            {
                assert(models(items@)[i as int] == items@[i as int]@);
                assert(decreases_to!(v@ => v@->List_0));
                assert(decreases_to!(v@->List_0 => v@->List_0[i as int]));
                copies.push(copy_value(&items[i]));
            }
            assert(models(copies@) =~= models(items@));
            AnyValue::Vec(copies)
        },
        AnyValue::Mapping(m) => AnyValue::Mapping(copy_map(m)),
    }
}

/// A copy of a map, with the copies of its values under the same keys in the same order.
fn copy_map(m: &ValueMap) -> (r: ValueMap)
    ensures
        r@ == m@,
    decreases Value::Dict(m@), 0nat,
{
    let entries = m.entries();
    let ghost v = Value::Dict(m@);
    let mut copy = ValueMap::new();
    for i in 0..entries.len()
        invariant
            v == Value::Dict(m@),
            entries@.len() == m@.len(),
            forall|j: int|
                0 <= j < entries@.len() ==> m@[j] == (
                    (#[trigger] entries@[j]).0@,
                    entries@[j].1@,
                ),
            distinct_keys(m@),
            copy@ == m@.take(i as int),
    {
        proof {
            lemma_key_index(copy@, m@[i as int].0);
            assert(m@.take(i + 1) =~= m@.take(i as int).push(m@[i as int]));
            assert(decreases_to!(v => v->Dict_0));
            assert(decreases_to!(v->Dict_0 => v->Dict_0[i as int]));
            assert(decreases_to!(v->Dict_0[i as int] => v->Dict_0[i as int].1));
            assert(m@[i as int] == (entries@[i as int].0@, entries@[i as int].1@));
        }
        copy.insert(entries[i].0.clone(), copy_value(entries[i].1));
    }
    assert(m@.take(m@.len() as int) =~= m@);
    copy
}

impl Clone for AnyValue {
    fn clone(&self) -> (r: AnyValue)
        ensures
            r@ == self@,
    {
        copy_value(self)
    }
}

impl Clone for ValueMap {
    fn clone(&self) -> (r: ValueMap)
        ensures
            r@ == self@,
    {
        copy_map(self)
    }
}

} // verus!
