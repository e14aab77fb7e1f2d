//! Encoding of packets.
//!
//! `encode_value` says which bytes stand for a value; [`Encode`] is for the types that have such
//! a value.
use crate::protocol::maps;
use crate::protocol::messages::{MangleCacheEntry, OptionNull};
use crate::protocol::value;
use crate::protocol::value::{AnyValue, Value, ValueMap};
use indexmap::IndexMap;
use vstd::prelude::*;

verus! {

/// The four low bytes of `n`, the lowest first.
pub open spec fn le_bytes(n: nat) -> Seq<u8> {
    seq![
        (n % 0x100) as u8,
        ((n / 0x100) % 0x100) as u8,
        ((n / 0x1_0000) % 0x100) as u8,
        ((n / 0x100_0000) % 0x100) as u8,
    ]
}

/// A length, then the bytes.
pub open spec fn delimited(bytes: Seq<u8>) -> Seq<u8> {
    le_bytes(bytes.len()) + bytes
}

/// The UTF-8 encoding of a string with its length before it.
pub open spec fn encode_text(s: Seq<char>) -> Seq<u8> {
    delimited(vstd::utf8::encode_utf8(s))
}

/// A tag, then what the tag announces.
pub open spec fn encode_value(v: Value) -> Seq<u8>
    decreases v, 0nat,
{
    match v {
        Value::Null => seq![0u8],
        Value::Bool(b) => seq![
            1u8,
            if b {
                1u8
            } else {
                0u8
            },
        ],
        Value::U32(u) => seq![2u8] + le_bytes(u as nat),
        Value::Text(s) => seq![3u8] + encode_text(s),
        Value::Bytes(b) => seq![4u8] + delimited(b),
        Value::List(items) => seq![5u8] + le_bytes(items.len()) + encode_values(
            items,
            items.len(),
        ),
        Value::Dict(entries) => seq![6u8] + le_bytes(entries.len()) + encode_entries(
            entries,
            entries.len(),
        ),
    }
}

/// The encodings of the first `n` values, one after the other.
pub open spec fn encode_values(items: Seq<Value>, n: nat) -> Seq<u8>
    decreases items, n,
{
    if n == 0 || n > items.len() {
        Seq::empty()
    } else {
        encode_values(items, (n - 1) as nat) + encode_value(items[n - 1])
    }
}

/// The encodings of the first `n` keys, each with that of its value after it, one after the
/// other.
pub open spec fn encode_entries(entries: Seq<(Seq<char>, Value)>, n: nat) -> Seq<u8>
    decreases entries, n,
{
    if n == 0 || n > entries.len() {
        Seq::empty()
    } else {
        encode_entries(entries, (n - 1) as nat) + encode_text(entries[n - 1].0) + encode_value(
            entries[n - 1].1,
        )
    }
}

/// The first entries are encoded alike whatever follows them.
proof fn lemma_encode_entries_push(
    entries: Seq<(Seq<char>, Value)>,
    last: (Seq<char>, Value),
    n: nat,
)
    requires
        n <= entries.len(),
    ensures
        encode_entries(entries.push(last), n) == encode_entries(entries, n),
    decreases n,
{
    if n > 0 {
        lemma_encode_entries_push(entries, last, (n - 1) as nat);
    }
}

/// Appends the four bytes of `value`, the lowest first.
pub fn encode_u32_raw(buf: &mut Vec<u8>, value: u32)
    ensures
        final(buf)@ == old(buf)@ + le_bytes(value as nat),
{
    buf.push((value % 0x100) as u8);
    buf.push(((value / 0x100) % 0x100) as u8);
    buf.push(((value / 0x1_0000) % 0x100) as u8);
    buf.push(((value / 0x100_0000) % 0x100) as u8);
}

/// An entry takes at least the four bytes of the length of its key.
pub proof fn lemma_encode_entries_len(entries: Seq<(Seq<char>, Value)>, n: nat)
    requires
        n <= entries.len(),
    ensures
        encode_entries(entries, n).len() >= 4 * n,
    decreases n,
{
    if n > 0 {
        lemma_encode_entries_len(entries, (n - 1) as nat);
    }
}

/// Appends the low four bytes of a length.
fn encode_length(buf: &mut Vec<u8>, length: usize)
    ensures
        final(buf)@ == old(buf)@ + le_bytes(length as nat),
{
    let wide: u64 = length as u64;
    let low: u32 = #[verifier::truncate]
    (wide as u32);
    assert(low % 0x100 == wide % 0x100 && (low / 0x100) % 0x100 == (wide / 0x100) % 0x100 && (low
        / 0x1_0000) % 0x100 == (wide / 0x1_0000) % 0x100 && (low / 0x100_0000) % 0x100 == (wide
        / 0x100_0000) % 0x100) by (bit_vector)
        requires
            low == wide as u32,
    ;
    assert(le_bytes(low as nat) =~= le_bytes(length as nat));
    encode_u32_raw(buf, low);
}

/// Appends the length of `bytes` and the bytes.
pub fn encode_length_delimited(buf: &mut Vec<u8>, bytes: &[u8])
    ensures
        final(buf)@ == old(buf)@ + delimited(bytes@),
{
    encode_length(buf, bytes.len());
    buf.extend_from_slice(bytes);
    assert(buf@ =~= old(buf)@ + delimited(bytes@));
}

/// Appends the length of the key's UTF-8 encoding and the encoding.
pub fn encode_key(buf: &mut Vec<u8>, key: &str)
    ensures
        final(buf)@ == old(buf)@ + encode_text(key@),
{
    encode_length_delimited(buf, key.as_bytes());
}

/// A type whose values can be sent.
pub trait Encode {
    /// The value that is sent for this one.
    spec fn wire(&self) -> Value;

    /// Whether there is such a value.
    open spec fn encodable(&self) -> bool {
        true
    }

    /// Appends the encoding. No map in what is sent holds a key twice.
    fn encode_into(&self, buf: &mut Vec<u8>)
        requires
            self.encodable(),
        ensures
            final(buf)@ == old(buf)@ + encode_value(self.wire()),
            value::keyed(self.wire()),
    ;
}

/// Whether every value of a list can be sent.
pub open spec fn all_encodable<T: Encode>(items: Seq<T>) -> bool {
    forall|i: int| 0 <= i < items.len() ==> (#[trigger] items[i]).encodable()
}

/// The values that are sent for those of a list, one by one.
pub open spec fn wires<T: Encode>(items: Seq<T>) -> Seq<Value> {
    items.map_values(|x: T| x.wire())
}

/// The value that is sent for an optional one, if there is one.
pub open spec fn wire_if_some<T: Encode>(x: Option<T>) -> Option<Value> {
    match x {
        Some(x) => Some(x.wire()),
        None => None,
    }
}

impl Encode for bool {
    open spec fn wire(&self) -> Value {
        Value::Bool(*self)
    }

    fn encode_into(&self, buf: &mut Vec<u8>) {
        buf.push(1);
        buf.push(
            if *self {
                1
            } else {
                0
            },
        );
        assert(buf@ =~= old(buf)@ + encode_value(self.wire()));
    }
}

impl Encode for u32 {
    open spec fn wire(&self) -> Value {
        Value::U32(*self)
    }

    fn encode_into(&self, buf: &mut Vec<u8>) {
        buf.push(2);
        encode_u32_raw(buf, *self);
        assert(buf@ =~= old(buf)@ + encode_value(self.wire()));
    }
}

impl Encode for str {
    open spec fn wire(&self) -> Value {
        Value::Text(self@)
    }

    fn encode_into(&self, buf: &mut Vec<u8>) {
        buf.push(3);
        encode_key(buf, self);
        assert(buf@ =~= old(buf)@ + encode_value(self.wire()));
    }
}

impl Encode for String {
    open spec fn wire(&self) -> Value {
        Value::Text(self@)
    }

    fn encode_into(&self, buf: &mut Vec<u8>) {
        self.as_str().encode_into(buf)
    }
}

impl Encode for Vec<u8> {
    open spec fn wire(&self) -> Value {
        Value::Bytes(self@)
    }

    fn encode_into(&self, buf: &mut Vec<u8>) {
        buf.push(4);
        encode_length_delimited(buf, self.as_slice());
        assert(buf@ =~= old(buf)@ + encode_value(self.wire()));
    }
}

impl<T: Encode> Encode for Vec<T> {
    open spec fn wire(&self) -> Value {
        Value::List(wires(self@))
    }

    open spec fn encodable(&self) -> bool {
        all_encodable(self@)
    }

    fn encode_into(&self, buf: &mut Vec<u8>) {
        buf.push(5);
        encode_length(buf, self.len());
        let ghost all = wires(self@);
        let ghost start = buf@;
        for i in 0..self.len()
            invariant
                all == wires(self@),
                all_encodable(self@),
                buf@ == start + encode_values(all, i as nat),
                forall|j: int| 0 <= j < i ==> value::keyed(#[trigger] all[j]),
        {
            self[i].encode_into(buf);
            assert(buf@ =~= start + encode_values(all, (i + 1) as nat));
        }
        assert(buf@ =~= old(buf)@ + encode_value(self.wire()));
    }
}

impl Encode for (String, String) {
    /// A list of the two.
    open spec fn wire(&self) -> Value {
        Value::List(seq![Value::Text(self.0@), Value::Text(self.1@)])
    }

    fn encode_into(&self, buf: &mut Vec<u8>) {
        buf.push(5);
        encode_u32_raw(buf, 2);
        self.0.encode_into(buf);
        self.1.encode_into(buf);
        proof {
            let items = seq![Value::Text(self.0@), Value::Text(self.1@)];
            reveal_with_fuel(encode_values, 3);
            assert(encode_values(items, 2) =~= encode_value(items[0]) + encode_value(items[1]));
            assert(buf@ =~= old(buf)@ + encode_value(self.wire()));
        }
    }
}

impl<T: Encode> Encode for OptionNull<T> {
    /// Null for an absent value.
    open spec fn wire(&self) -> Value {
        match self.inner() {
            Some(x) => x.wire(),
            None => Value::Null,
        }
    }

    open spec fn encodable(&self) -> bool {
        self.inner() matches Some(x) ==> x.encodable()
    }

    fn encode_into(&self, buf: &mut Vec<u8>) {
        match self.as_option() {
            Some(x) => x.encode_into(buf),
            None => {
                buf.push(0);
                assert(buf@ =~= old(buf)@ + encode_value(Value::Null));
            },
        }
    }
}

impl Encode for MangleCacheEntry {
    open spec fn wire(&self) -> Value {
        self@.value()
    }

    fn encode_into(&self, buf: &mut Vec<u8>) {
        match self {
            MangleCacheEntry::StringValue(s) => s.encode_into(buf),
            MangleCacheEntry::BoolValue(b) => b.encode_into(buf),
        }
    }
}

/// Appends the encoding of a value.
fn encode_any(v: &AnyValue, buf: &mut Vec<u8>)
    ensures
        final(buf)@ == old(buf)@ + encode_value(v@),
        value::keyed(v@),
    decreases v@, 1nat,
{
    match v {
        AnyValue::Null => {
            buf.push(0);
            assert(buf@ =~= old(buf)@ + encode_value(v@));
        },
        AnyValue::Bool(b) => b.encode_into(buf),
        AnyValue::U32(u) => u.encode_into(buf),
        AnyValue::String(s) => s.encode_into(buf),
        AnyValue::Bytes(b) => b.encode_into(buf),
        AnyValue::Vec(items) => {
            buf.push(5);
            encode_length(buf, items.len());
            let ghost all = value::models(items@);
            let ghost start = buf@;
            for i in 0..items.len()
                invariant
                    v@ == Value::List(all),
                    all == value::models(items@),
                    buf@ == start + encode_values(all, i as nat),
                    forall|j: int| 0 <= j < i ==> value::keyed(#[trigger] all[j]),
            {
                assert(all[i as int] == items@[i as int]@);
                assert(decreases_to!(v@ => v@->List_0));
                assert(decreases_to!(v@->List_0 => v@->List_0[i as int]));
                encode_any(&items[i], buf);
                assert(buf@ =~= start + encode_values(all, (i + 1) as nat));
            }
            assert(buf@ =~= old(buf)@ + encode_value(v@));
        },
        AnyValue::Mapping(m) => encode_map(m, buf),
    }
}

/// Appends the encoding of a map.
fn encode_map(m: &ValueMap, buf: &mut Vec<u8>)
    ensures
        final(buf)@ == old(buf)@ + encode_value(Value::Dict(m@)),
        value::keyed(Value::Dict(m@)),
    decreases Value::Dict(m@), 0nat,
{
    let entries = m.entries();
    let ghost v = Value::Dict(m@);
    buf.push(6);
    encode_length(buf, entries.len());
    let ghost start = buf@;
    for i in 0..entries.len()
        invariant
            v == Value::Dict(m@),
            entries@.len() == m@.len(),
            forall|j: int|
                0 <= j < entries@.len() ==> m@[j] == (
                    (#[trigger] entries@[j]).0@,
                    entries@[j].1@,
                ),
            buf@ == start + encode_entries(m@, i as nat),
            forall|j: int| 0 <= j < i ==> value::keyed((#[trigger] m@[j]).1),
    {
        proof {
            assert(m@[i as int] == (entries@[i as int].0@, entries@[i as int].1@));
            assert(decreases_to!(v => v->Dict_0));
            assert(decreases_to!(v->Dict_0 => v->Dict_0[i as int]));
            assert(decreases_to!(v->Dict_0[i as int] => v->Dict_0[i as int].1));
        }
        encode_key(buf, entries[i].0.as_str());
        encode_any(entries[i].1, buf);
        assert(buf@ =~= start + encode_entries(m@, (i + 1) as nat));
    }
    assert(buf@ =~= old(buf)@ + encode_value(v));
}

impl Encode for AnyValue {
    open spec fn wire(&self) -> Value {
        self@
    }

    fn encode_into(&self, buf: &mut Vec<u8>) {
        encode_any(self, buf)
    }
}

impl Encode for ValueMap {
    open spec fn wire(&self) -> Value {
        Value::Dict(self@)
    }

    fn encode_into(&self, buf: &mut Vec<u8>) {
        encode_map(self, buf)
    }
}

/// The entries of a map of strings, each value as it is sent.
pub open spec fn text_entries(entries: Seq<(Seq<char>, Seq<char>)>) -> Seq<(Seq<char>, Value)> {
    entries.map_values(|e: (Seq<char>, Seq<char>)| (e.0, Value::Text(e.1)))
}

impl Encode for IndexMap<String, String> {
    open spec fn wire(&self) -> Value {
        Value::Dict(text_entries(maps::string_entries(*self)))
    }

    fn encode_into(&self, buf: &mut Vec<u8>) {
        let entries = maps::string_map_iter(self);
        let ghost all = text_entries(maps::string_entries(*self));
        assert forall|i: int, j: int| 0 <= i < j < all.len() implies (#[trigger] all[i]).0 != (
        #[trigger] all[j]).0 by {
            assert(entries@[i].0@ != entries@[j].0@);
        }
        buf.push(6);
        encode_length(buf, entries.len());
        let ghost start = buf@;
        for i in 0..entries.len()
            invariant
                entries@.len() == all.len(),
                forall|j: int|
                    0 <= j < entries@.len() ==> all[j] == (
                        (#[trigger] entries@[j]).0@,
                        Value::Text(entries@[j].1@),
                    ),
                buf@ == start + encode_entries(all, i as nat),
                forall|j: int| 0 <= j < i ==> value::keyed((#[trigger] all[j]).1),
        {
            assert(all[i as int] == (entries@[i as int].0@, Value::Text(entries@[i as int].1@)));
            encode_key(buf, entries[i].0.as_str());
            entries[i].1.encode_into(buf);
            assert(buf@ =~= start + encode_entries(all, (i + 1) as nat));
        }
        assert(buf@ =~= old(buf)@ + encode_value(self.wire()));
    }
}

impl Encode for IndexMap<String, MangleCacheEntry> {
    open spec fn wire(&self) -> Value {
        Value::Dict(maps::mangle_values(maps::mangle_entries(*self)))
    }

    fn encode_into(&self, buf: &mut Vec<u8>) {
        let entries = maps::mangle_map_iter(self);
        let ghost all = maps::mangle_values(maps::mangle_entries(*self));
        assert forall|i: int, j: int| 0 <= i < j < all.len() implies (#[trigger] all[i]).0 != (
        #[trigger] all[j]).0 by {
            assert(entries@[i].0@ != entries@[j].0@);
        }
        buf.push(6);
        encode_length(buf, entries.len());
        let ghost start = buf@;
        for i in 0..entries.len()
            invariant
                entries@.len() == all.len(),
                forall|j: int|
                    0 <= j < entries@.len() ==> all[j] == (
                        (#[trigger] entries@[j]).0@,
                        entries@[j].1@.value(),
                    ),
                buf@ == start + encode_entries(all, i as nat),
                forall|j: int| 0 <= j < i ==> value::keyed((#[trigger] all[j]).1),
        {
            assert(all[i as int] == (entries@[i as int].0@, entries@[i as int].1@.value()));
            encode_key(buf, entries[i].0.as_str());
            entries[i].1.encode_into(buf);
            assert(buf@ =~= start + encode_entries(all, (i + 1) as nat));
        }
        assert(buf@ =~= old(buf)@ + encode_value(self.wire()));
    }
}

/// The entries of a message with one field more; an absent field adds none.
pub open spec fn with_field(
    fields: Seq<(Seq<char>, Value)>,
    key: Seq<char>,
    value: Option<Value>,
) -> Seq<(Seq<char>, Value)> {
    match value {
        Some(v) => fields.push((key, v)),
        None => fields,
    }
}

/// The fields of a message that were encoded so far.
pub(crate) struct Fields {
    count: usize,
    body: Vec<u8>,
    fields: Ghost<Seq<(Seq<char>, Value)>>,
}

impl View for Fields {
    type V = Seq<(Seq<char>, Value)>;

    closed spec fn view(&self) -> Seq<(Seq<char>, Value)> {
        self.fields@
    }
}

impl Fields {
    /// The body and the count are those of the fields.
    pub closed spec fn wf(&self) -> bool {
        &&& self.body@ == encode_entries(self@, self@.len())
        &&& self.count == self@.len()
        &&& forall|i: int| 0 <= i < self@.len() ==> value::keyed((#[trigger] self@[i]).1)
    }

    /// No field yet.
    pub(crate) fn new() -> (r: Fields)
        ensures
            r.wf(),
            r@ == Seq::<(Seq<char>, Value)>::empty(),
    {
        Fields { count: 0, body: Vec::new(), fields: Ghost(Seq::empty()) }
    }

    /// Adds a field.
    pub(crate) fn field<T: Encode + ?Sized>(&mut self, key: &str, value: &T)
        requires
            old(self).wf(),
            value.encodable(),
        ensures
            final(self).wf(),
            final(self)@ == with_field(old(self)@, key@, Some(value.wire())),
    {
        let ghost before = self@;
        let ghost entry = (key@, value.wire());
        encode_key(&mut self.body, key);
        value.encode_into(&mut self.body);
        proof {
            lemma_encode_entries_len(before, before.len());
            lemma_encode_entries_push(before, entry, before.len());
        }
        assert(self.count < self.body.len());
        self.count += 1;
        self.fields = Ghost(before.push(entry));
        proof {
            assert(self.body@ =~= encode_entries(self@, self@.len()));
        }
    }

    /// Adds a field if it is present.
    pub(crate) fn optional<T: Encode>(&mut self, key: &str, value: &Option<T>)
        requires
            old(self).wf(),
            *value matches Some(x) ==> x.encodable(),
        ensures
            final(self).wf(),
            final(self)@ == with_field(old(self)@, key@, wire_if_some(*value)),
    {
        if let Some(value) = value {
            self.field(key, value);
        }
    }

    /// Appends the encoding of the map of the fields.
    pub(crate) fn finish(self, buf: &mut Vec<u8>)
        requires
            self.wf(),
            value::distinct_keys(self@),
        ensures
            final(buf)@ == old(buf)@ + encode_value(Value::Dict(self@)),
            value::keyed(Value::Dict(self@)),
    {
        buf.push(6);
        encode_length(buf, self.count);
        buf.extend_from_slice(self.body.as_slice());
        assert(buf@ =~= old(buf)@ + encode_value(Value::Dict(self@)));
    }
}

} // verus!
