//! What is encoded is decoded to the same.
use crate::protocol::encode;
use crate::protocol::encoders;
use crate::protocol::value;
use crate::protocol::value::Value;
use crate::protocol::wire;
use crate::protocol::wire::{PacketModel, Parse};
use vstd::prelude::*;

verus! {

/// The lengths in a value fit in four bytes.
pub open spec fn fits(v: Value) -> bool
    decreases v,
{
    match v {
        Value::Null => true,
        Value::Bool(_) => true,
        Value::U32(_) => true,
        Value::Text(s) => sendable_text(s),
        Value::Bytes(b) => b.len() <= u32::MAX,
        Value::List(items) => {
            &&& items.len() <= u32::MAX
            &&& forall|i: int| 0 <= i < items.len() ==> fits(#[trigger] items[i])
        },
        Value::Dict(entries) => {
            &&& entries.len() <= u32::MAX
            &&& forall|i: int|
                0 <= i < entries.len() ==> sendable_text((#[trigger] entries[i]).0) && fits(
                    entries[i].1,
                )
        },
    }
}

/// A value that keeps what it is when it is sent.
pub open spec fn sendable(v: Value) -> bool {
    fits(v) && value::keyed(v)
}

/// The length of the string's UTF-8 encoding fits in four bytes.
pub open spec fn sendable_text(s: Seq<char>) -> bool {
    vstd::utf8::encode_utf8(s).len() <= u32::MAX
}

/// `part` stands at position `at` of `bytes`.
pub open spec fn stands_at(part: Seq<u8>, bytes: Seq<u8>, at: nat) -> bool {
    at + part.len() <= bytes.len() && bytes.subrange(at as int, (at + part.len()) as int) == part
}

/// What stands at a position is made of parts that stand one after the other.
proof fn lemma_stands_apart(a: Seq<u8>, b: Seq<u8>, bytes: Seq<u8>, at: nat)
    requires
        stands_at(a + b, bytes, at),
    ensures
        stands_at(a, bytes, at),
        stands_at(b, bytes, at + a.len()),
{
    let both = bytes.subrange(at as int, (at + a.len() + b.len()) as int);
    assert(both == a + b);
    assert(bytes.subrange(at as int, (at + a.len()) as int) =~= both.take(a.len() as int));
    assert(both.take(a.len() as int) =~= a);
    assert(bytes.subrange((at + a.len()) as int, (at + a.len() + b.len()) as int) =~= both.skip(
        a.len() as int,
    ));
    assert(both.skip(a.len() as int) =~= b);
}

/// Four bytes are read as the integer they were written for.
proof fn lemma_parse_le_bytes(n: nat, bytes: Seq<u8>, at: nat)
    requires
        n <= u32::MAX,
        stands_at(encode::le_bytes(n), bytes, at),
    ensures
        wire::parse_u32(bytes, at) == Parse::Done(n as u32, 4),
{
    let four = bytes.subrange(at as int, at + 4int);
    assert(four == encode::le_bytes(n));
    assert(four[0] == bytes[at as int]);
    assert(four[1] == bytes[at + 1int]);
    assert(four[2] == bytes[at + 2int]);
    assert(four[3] == bytes[at + 3int]);
}

proof fn lemma_parse_delimited(b: Seq<u8>, bytes: Seq<u8>, at: nat)
    requires
        b.len() <= u32::MAX,
        stands_at(encode::delimited(b), bytes, at),
    ensures
        wire::parse_bytes(bytes, at) == Parse::Done(b, encode::delimited(b).len()),
{
    lemma_stands_apart(encode::le_bytes(b.len()), b, bytes, at);
    lemma_parse_le_bytes(b.len(), bytes, at);
}

proof fn lemma_parse_text(s: Seq<char>, bytes: Seq<u8>, at: nat)
    requires
        sendable_text(s),
        stands_at(encode::encode_text(s), bytes, at),
    ensures
        wire::parse_string(bytes, at) == Parse::Done(s, encode::encode_text(s).len()),
{
    lemma_parse_delimited(vstd::utf8::encode_utf8(s), bytes, at);
    vstd::utf8::encode_utf8_valid_utf8(s);
    vstd::utf8::encode_utf8_decode_utf8(s);
}

/// The first values of a list stand before the others.
proof fn lemma_values_prefix(items: Seq<Value>, i: nat, n: nat)
    requires
        i <= n <= items.len(),
    ensures
        encode::encode_values(items, i).len() <= encode::encode_values(items, n).len(),
        encode::encode_values(items, i) == encode::encode_values(items, n).take(
            encode::encode_values(items, i).len() as int,
        ),
    decreases n,
{
    let part = encode::encode_values(items, i);
    if i < n {
        lemma_values_prefix(items, i, (n - 1) as nat);
        let before = encode::encode_values(items, (n - 1) as nat);
        assert(encode::encode_values(items, n).take(part.len() as int) =~= before.take(
            part.len() as int,
        ));
    } else {
        assert(part.take(part.len() as int) =~= part);
    }
}

/// The first entries of a map stand before the others.
proof fn lemma_entries_prefix(entries: Seq<(Seq<char>, Value)>, i: nat, n: nat)
    requires
        i <= n <= entries.len(),
    ensures
        encode::encode_entries(entries, i).len() <= encode::encode_entries(entries, n).len(),
        encode::encode_entries(entries, i) == encode::encode_entries(entries, n).take(
            encode::encode_entries(entries, i).len() as int,
        ),
    decreases n,
{
    let part = encode::encode_entries(entries, i);
    if i < n {
        lemma_entries_prefix(entries, i, (n - 1) as nat);
        let before = encode::encode_entries(entries, (n - 1) as nat);
        assert(encode::encode_entries(entries, n).take(part.len() as int) =~= before.take(
            part.len() as int,
        ));
    } else {
        assert(part.take(part.len() as int) =~= part);
    }
}

/// Wherever the encoding of a value stands, the value is decoded there, and exactly the bytes of
/// the encoding are read for it.
pub proof fn lemma_decode_encoded(v: Value, bytes: Seq<u8>, at: nat)
    requires
        sendable(v),
        stands_at(encode::encode_value(v), bytes, at),
    ensures
        wire::parse_value(bytes, at) == Parse::Done(v, encode::encode_value(v).len()),
    decreases v, 1nat,
{
    match v {
        Value::List(items) => lemma_decode_encoded_list(items, bytes, at),
        Value::Dict(entries) => lemma_decode_encoded_dict(entries, bytes, at),
        Value::Text(s) => {
            lemma_tag(3, encode::encode_text(s), bytes, at);
            lemma_parse_text(s, bytes, at + 1);
        },
        Value::Bytes(b) => {
            lemma_tag(4, encode::delimited(b), bytes, at);
            lemma_parse_delimited(b, bytes, at + 1);
        },
        Value::U32(u) => {
            lemma_tag(2, encode::le_bytes(u as nat), bytes, at);
            lemma_parse_le_bytes(u as nat, bytes, at + 1);
        },
        _ => lemma_decode_encoded_short(v, bytes, at),
    }
}

/// The tag stands first, and what it announces after it.
proof fn lemma_tag(tag: u8, rest: Seq<u8>, bytes: Seq<u8>, at: nat)
    requires
        stands_at(seq![tag] + rest, bytes, at),
    ensures
        at < bytes.len(),
        bytes[at as int] == tag,
        stands_at(rest, bytes, at + 1),
{
    lemma_stands_apart(seq![tag], rest, bytes, at);
    assert(bytes.subrange(at as int, at + 1int)[0] == bytes[at as int]);
}

proof fn lemma_decode_encoded_short(v: Value, bytes: Seq<u8>, at: nat)
    requires
        v is Null || v is Bool,
        stands_at(encode::encode_value(v), bytes, at),
    ensures
        wire::parse_value(bytes, at) == Parse::Done(v, encode::encode_value(v).len()),
{
    let part = bytes.subrange(at as int, (at + encode::encode_value(v).len()) as int);
    assert(part[0] == bytes[at as int]);
    if v is Bool {
        assert(part[1] == bytes[at + 1int]);
    }
}

proof fn lemma_decode_encoded_list(items: Seq<Value>, bytes: Seq<u8>, at: nat)
    requires
        sendable(Value::List(items)),
        stands_at(encode::encode_value(Value::List(items)), bytes, at),
    ensures
        wire::parse_value(bytes, at) == Parse::Done(
            Value::List(items),
            encode::encode_value(Value::List(items)).len(),
        ),
    decreases Value::List(items), 0nat,
{
    let count = encode::le_bytes(items.len());
    let body = encode::encode_values(items, items.len());
    lemma_stands_apart(seq![5u8] + count, body, bytes, at);
    lemma_tag(5, count, bytes, at);
    lemma_parse_le_bytes(items.len(), bytes, at + 1);
    assert(decreases_to!(Value::List(items) => items));
    lemma_decode_encoded_values(items, 0, bytes, at + 5);
    assert(items.skip(0) =~= items);
    assert(wire::parse_list(bytes, at + 1) == Parse::Done(items, 4 + body.len()));
}

proof fn lemma_decode_encoded_dict(entries: Seq<(Seq<char>, Value)>, bytes: Seq<u8>, at: nat)
    requires
        sendable(Value::Dict(entries)),
        stands_at(encode::encode_value(Value::Dict(entries)), bytes, at),
    ensures
        wire::parse_value(bytes, at) == Parse::Done(
            Value::Dict(entries),
            encode::encode_value(Value::Dict(entries)).len(),
        ),
    decreases Value::Dict(entries), 0nat,
{
    let count = encode::le_bytes(entries.len());
    let body = encode::encode_entries(entries, entries.len());
    lemma_stands_apart(seq![6u8] + count, body, bytes, at);
    lemma_tag(6, count, bytes, at);
    lemma_parse_le_bytes(entries.len(), bytes, at + 1);
    assert(decreases_to!(Value::Dict(entries) => entries));
    lemma_decode_encoded_entries(entries, 0, bytes, at + 5);
    assert(entries.take(0) =~= Seq::empty());
    assert(wire::parse_map(bytes, at + 1) == Parse::Done(entries, 4 + body.len()));
}

/// The values of a list from number `i` on are decoded behind the encodings of those before.
proof fn lemma_decode_encoded_values(items: Seq<Value>, i: nat, bytes: Seq<u8>, at: nat)
    requires
        i <= items.len(),
        forall|j: int| 0 <= j < items.len() ==> sendable(#[trigger] items[j]),
        stands_at(encode::encode_values(items, items.len()), bytes, at),
    ensures
        wire::parse_values(
            bytes,
            at + encode::encode_values(items, i).len(),
            (items.len() - i) as nat,
        ) == Parse::Done(
            items.skip(i as int),
            (encode::encode_values(items, items.len()).len() - encode::encode_values(
                items,
                i,
            ).len()) as nat,
        ),
    decreases items, items.len() - i,
{
    let all = encode::encode_values(items, items.len());
    if i < items.len() {
        let before = encode::encode_values(items, i);
        let one = encode::encode_value(items[i as int]);
        lemma_values_prefix(items, i + 1, items.len());
        let rest = all.skip((before + one).len() as int);
        assert(all =~= before + one + rest);
        lemma_stands_apart(before + one, rest, bytes, at);
        lemma_stands_apart(before, one, bytes, at);
        lemma_decode_encoded(items[i as int], bytes, at + before.len());
        lemma_decode_encoded_values(items, i + 1, bytes, at);
        assert(items.skip(i as int) =~= seq![items[i as int]] + items.skip(i + 1int));
    } else {
        assert(items.skip(i as int) =~= Seq::empty());
    }
}

/// The entries of a map from number `i` on are decoded behind the encodings of those before, and
/// are stored one by one.
proof fn lemma_decode_encoded_entries(
    entries: Seq<(Seq<char>, Value)>,
    i: nat,
    bytes: Seq<u8>,
    at: nat,
)
    requires
        i <= entries.len(),
        value::distinct_keys(entries),
        forall|j: int|
            0 <= j < entries.len() ==> sendable_text((#[trigger] entries[j]).0) && sendable(
                entries[j].1,
            ),
        stands_at(encode::encode_entries(entries, entries.len()), bytes, at),
    ensures
        wire::parse_entries(
            bytes,
            at + encode::encode_entries(entries, i).len(),
            (entries.len() - i) as nat,
            entries.take(i as int),
        ) == Parse::Done(
            entries,
            (encode::encode_entries(entries, entries.len()).len() - encode::encode_entries(
                entries,
                i,
            ).len()) as nat,
        ),
    decreases entries, entries.len() - i,
{
    let all = encode::encode_entries(entries, entries.len());
    if i < entries.len() {
        let (key, v) = entries[i as int];
        let before = encode::encode_entries(entries, i);
        let k = encode::encode_text(key);
        let one = encode::encode_value(v);
        lemma_entries_prefix(entries, i + 1, entries.len());
        let rest = all.skip((before + k + one).len() as int);
        assert(all =~= before + k + one + rest);
        lemma_stands_apart(before + k + one, rest, bytes, at);
        lemma_stands_apart(before + k, one, bytes, at);
        lemma_stands_apart(before, k, bytes, at);
        lemma_parse_text(key, bytes, at + before.len());
        lemma_decode_encoded(v, bytes, at + before.len() + k.len());
        lemma_decode_encoded_entries(entries, i + 1, bytes, at);
        value::lemma_key_index(entries.take(i as int), key);
        assert(value::put(entries.take(i as int), key, v) =~= entries.take(i + 1int));
    } else {
        assert(entries.take(i as int) =~= entries);
    }
}

/// The first `n` entries stored one by one: of entries with one key the last stays, at the place
/// of the first.
pub open spec fn stored(entries: Seq<(Seq<char>, Value)>, n: nat) -> Seq<(Seq<char>, Value)>
    decreases n,
{
    if n == 0 {
        Seq::empty()
    } else {
        value::put(stored(entries, (n - 1) as nat), entries[n - 1].0, entries[n - 1].1)
    }
}

/// What the last entry under a key holds.
pub open spec fn last_under(entries: Seq<(Seq<char>, Value)>, key: Seq<char>) -> Option<Value>
    decreases entries.len(),
{
    if entries.len() == 0 {
        None
    } else if entries.last().0 == key {
        Some(entries.last().1)
    } else {
        last_under(entries.drop_last(), key)
    }
}

proof fn lemma_stored(entries: Seq<(Seq<char>, Value)>, n: nat, key: Seq<char>)
    requires
        n <= entries.len(),
    ensures
        value::distinct_keys(stored(entries, n)),
        value::lookup(stored(entries, n), key) == last_under(entries.take(n as int), key),
    decreases n,
{
    if n > 0 {
        lemma_stored(entries, (n - 1) as nat, key);
        let front = stored(entries, (n - 1) as nat);
        let (k, v) = entries[n - 1];
        value::lemma_put_then_lookup(front, k, v, key);
        assert(entries.take(n as int).drop_last() =~= entries.take(n - 1));
        assert(entries.take(n as int).last() == entries[n - 1]);
    }
}

/// A map in which keys come more than once is decoded to a map in which each key comes once, with
/// the value that came last under it.
pub proof fn lemma_repeated_keys(
    entries: Seq<(Seq<char>, Value)>,
    bytes: Seq<u8>,
    at: nat,
    key: Seq<char>,
)
    requires
        entries.len() <= u32::MAX,
        forall|j: int|
            0 <= j < entries.len() ==> sendable_text((#[trigger] entries[j]).0) && sendable(
                entries[j].1,
            ),
        stands_at(encode::encode_value(Value::Dict(entries)), bytes, at),
    ensures
        wire::parse_value(bytes, at) matches Parse::Done(Value::Dict(d), _) && {
            &&& value::distinct_keys(d)
            &&& value::lookup(d, key) == last_under(entries, key)
        },
{
    let count = encode::le_bytes(entries.len());
    let body = encode::encode_entries(entries, entries.len());
    lemma_stands_apart(seq![6u8] + count, body, bytes, at);
    lemma_tag(6, count, bytes, at);
    lemma_parse_le_bytes(entries.len(), bytes, at + 1);
    lemma_decode_stored(entries, 0, bytes, at + 5);
    lemma_stored(entries, entries.len(), key);
    assert(entries.take(entries.len() as int) =~= entries);
    assert(wire::parse_map(bytes, at + 1) == Parse::Done(
        stored(entries, entries.len()),
        4 + body.len(),
    ));
}

proof fn lemma_decode_stored(
    entries: Seq<(Seq<char>, Value)>,
    i: nat,
    bytes: Seq<u8>,
    at: nat,
)
    requires
        i <= entries.len(),
        forall|j: int|
            0 <= j < entries.len() ==> sendable_text((#[trigger] entries[j]).0) && sendable(
                entries[j].1,
            ),
        stands_at(encode::encode_entries(entries, entries.len()), bytes, at),
    ensures
        wire::parse_entries(
            bytes,
            at + encode::encode_entries(entries, i).len(),
            (entries.len() - i) as nat,
            stored(entries, i),
        ) == Parse::Done(
            stored(entries, entries.len()),
            (encode::encode_entries(entries, entries.len()).len() - encode::encode_entries(
                entries,
                i,
            ).len()) as nat,
        ),
    decreases entries.len() - i,
{
    let all = encode::encode_entries(entries, entries.len());
    if i < entries.len() {
        let (key, v) = entries[i as int];
        let before = encode::encode_entries(entries, i);
        let k = encode::encode_text(key);
        let one = encode::encode_value(v);
        lemma_entries_prefix(entries, i + 1, entries.len());
        let rest = all.skip((before + k + one).len() as int);
        assert(all =~= before + k + one + rest);
        lemma_stands_apart(before + k + one, rest, bytes, at);
        lemma_stands_apart(before + k, one, bytes, at);
        lemma_stands_apart(before, k, bytes, at);
        lemma_parse_text(key, bytes, at + before.len());
        lemma_decode_encoded(v, bytes, at + before.len() + k.len());
        lemma_decode_stored(entries, i + 1, bytes, at);
    }
}

/// A packet that was encoded is decoded to the packet, whatever follows it.
pub proof fn lemma_decode_encoded_packet(packet: PacketModel, rest: Seq<u8>)
    requires
        sendable(packet.value),
        packet.id < 0x8000_0000,
    ensures
        wire::parse_packet(encoders::encode_packet(packet) + rest, 0) == Parse::Done(
            packet,
            encoders::encode_packet(packet).len(),
        ),
{
    let bytes = encoders::encode_packet(packet) + rest;
    let number = (2 * packet.id + if packet.is_request {
        0int
    } else {
        1int
    }) as nat;
    let code = encode::encode_value(packet.value);
    assert(bytes.subrange(0, encoders::encode_packet(packet).len() as int)
        =~= encoders::encode_packet(packet));
    lemma_stands_apart(encode::le_bytes(number), code, bytes, 0);
    lemma_parse_le_bytes(number, bytes, 0);
    lemma_decode_encoded(packet.value, bytes, 4);
}

/// What is decoded at a position stays the same when more bytes follow, unless the bytes ended
/// too early.
pub proof fn lemma_later_bytes_ignored(bytes: Seq<u8>, more: Seq<u8>, at: nat)
    requires
        wire::parse_value(bytes, at) !is Short,
    ensures
        wire::parse_value(bytes + more, at) == wire::parse_value(bytes, at),
    decreases wire::bytes_left(bytes, at), 0nat,
{
    let all = bytes + more;
    let tag = bytes[at as int];
    assert(all[at as int] == tag);
    if tag == 3 {
        lemma_string_later_bytes(bytes, more, at + 1);
    } else if tag == 4 {
        lemma_bytes_later_bytes(bytes, more, at + 1);
    } else if tag == 5 {
        lemma_u32_later_bytes(bytes, more, at + 1);
        if let Parse::Done(n, _) = wire::parse_u32(bytes, at + 1) {
            lemma_values_later_bytes(bytes, more, at + 5, n as nat);
        }
        assert(wire::parse_list(all, at + 1) == wire::parse_list(bytes, at + 1));
    } else if tag == 6 {
        lemma_u32_later_bytes(bytes, more, at + 1);
        if let Parse::Done(n, _) = wire::parse_u32(bytes, at + 1) {
            lemma_entries_later_bytes(bytes, more, at + 5, n as nat, Seq::empty());
        }
        assert(wire::parse_map(all, at + 1) == wire::parse_map(bytes, at + 1));
    }
}

proof fn lemma_u32_later_bytes(bytes: Seq<u8>, more: Seq<u8>, at: nat)
    ensures
        wire::parse_u32(bytes, at) !is Short ==> wire::parse_u32(bytes + more, at)
            == wire::parse_u32(bytes, at),
{
}

proof fn lemma_bytes_later_bytes(bytes: Seq<u8>, more: Seq<u8>, at: nat)
    ensures
        wire::parse_bytes(bytes, at) !is Short ==> wire::parse_bytes(bytes + more, at)
            == wire::parse_bytes(bytes, at),
{
    lemma_u32_later_bytes(bytes, more, at);
    if let Parse::Done(b, used) = wire::parse_bytes(bytes, at) {
        assert((bytes + more).subrange(at + 4int, (at + used) as int) =~= b);
    }
}

proof fn lemma_string_later_bytes(bytes: Seq<u8>, more: Seq<u8>, at: nat)
    ensures
        wire::parse_string(bytes, at) !is Short ==> wire::parse_string(bytes + more, at)
            == wire::parse_string(bytes, at),
{
    lemma_bytes_later_bytes(bytes, more, at);
}

proof fn lemma_values_later_bytes(bytes: Seq<u8>, more: Seq<u8>, at: nat, n: nat)
    requires
        wire::parse_values(bytes, at, n) !is Short,
    ensures
        wire::parse_values(bytes + more, at, n) == wire::parse_values(bytes, at, n),
    decreases wire::bytes_left(bytes, at), n + 1,
{
    if n > 0 {
        lemma_later_bytes_ignored(bytes, more, at);
        if let Parse::Done(_, used) = wire::parse_value(bytes, at) {
            lemma_values_later_bytes(bytes, more, at + used, (n - 1) as nat);
        }
    }
}

proof fn lemma_entries_later_bytes(
    bytes: Seq<u8>,
    more: Seq<u8>,
    at: nat,
    n: nat,
    entries: Seq<(Seq<char>, Value)>,
)
    requires
        wire::parse_entries(bytes, at, n, entries) !is Short,
    ensures
        wire::parse_entries(bytes + more, at, n, entries) == wire::parse_entries(
            bytes,
            at,
            n,
            entries,
        ),
    decreases wire::bytes_left(bytes, at), n + 1,
{
    if n > 0 {
        lemma_string_later_bytes(bytes, more, at);
        if let Parse::Done(key, k) = wire::parse_string(bytes, at) {
            lemma_later_bytes_ignored(bytes, more, at + k);
            if let Parse::Done(v, used) = wire::parse_value(bytes, at + k) {
                lemma_entries_later_bytes(
                    bytes,
                    more,
                    at + k + used,
                    (n - 1) as nat,
                    value::put(entries, key, v),
                );
            }
        }
    }
}

/// What is decoded at a position depends on the bytes that are read for it and on no others: any
/// bytes that agree up to there give the same.
#[verifier::spinoff_prover]
pub proof fn lemma_only_read_bytes_count(bytes: Seq<u8>, others: Seq<u8>, at: nat)
    requires
        wire::parse_value(bytes, at) !is Short,
        at + wire::parse_value(bytes, at).used() <= others.len(),
        bytes.take((at + wire::parse_value(bytes, at).used()) as int) == others.take(
            (at + wire::parse_value(bytes, at).used()) as int,
        ),
    ensures
        at + wire::parse_value(bytes, at).used() <= bytes.len(),
        wire::parse_value(others, at) == wire::parse_value(bytes, at),
{
    let end = (at + wire::parse_value(bytes, at).used()) as int;
    lemma_value_cut(bytes, at, end as nat);
    lemma_later_bytes_ignored(bytes.take(end), others.skip(end), at);
    lemma_joined_again(others, end);
}

proof fn lemma_joined_again(bytes: Seq<u8>, end: int)
    requires
        0 <= end <= bytes.len(),
    ensures
        bytes.take(end) + bytes.skip(end) == bytes,
{
    assert(bytes.take(end) + bytes.skip(end) =~= bytes);
}

/// Bytes behind those that are read can be cut off.
proof fn lemma_value_cut(bytes: Seq<u8>, at: nat, end: nat)
    requires
        wire::parse_value(bytes, at) !is Short,
    ensures
        at + wire::parse_value(bytes, at).used() <= bytes.len(),
        at + wire::parse_value(bytes, at).used() <= end <= bytes.len() ==> wire::parse_value(
            bytes.take(end as int),
            at,
        ) == wire::parse_value(bytes, at),
    decreases wire::bytes_left(bytes, at), 0nat,
{
    let cut = bytes.take(end as int);
    let tag = bytes[at as int];
    if tag == 3 {
        lemma_string_cut(bytes, at + 1, end);
    } else if tag == 4 {
        lemma_bytes_cut(bytes, at + 1, end);
    } else if tag == 5 {
        if let Parse::Done(n, _) = wire::parse_u32(bytes, at + 1) {
            lemma_values_cut(bytes, at + 5, n as nat, end);
            if at + wire::parse_value(bytes, at).used() <= end <= bytes.len() {
                assert(wire::parse_list(cut, at + 1) == wire::parse_list(bytes, at + 1));
            }
        }
    } else if tag == 6 {
        if let Parse::Done(n, _) = wire::parse_u32(bytes, at + 1) {
            lemma_entries_cut(bytes, at + 5, n as nat, Seq::empty(), end);
            if at + wire::parse_value(bytes, at).used() <= end <= bytes.len() {
                assert(wire::parse_map(cut, at + 1) == wire::parse_map(bytes, at + 1));
            }
        }
    }
}

proof fn lemma_bytes_cut(bytes: Seq<u8>, at: nat, end: nat)
    requires
        wire::parse_bytes(bytes, at) !is Short,
    ensures
        at + wire::parse_bytes(bytes, at).used() <= bytes.len(),
        at + wire::parse_bytes(bytes, at).used() <= end <= bytes.len() ==> wire::parse_bytes(
            bytes.take(end as int),
            at,
        ) == wire::parse_bytes(bytes, at),
{
    if let Parse::Done(b, used) = wire::parse_bytes(bytes, at) {
        if at + used <= end <= bytes.len() {
            assert(bytes.take(end as int).subrange(at + 4int, (at + used) as int) =~= b);
        }
    }
}

proof fn lemma_string_cut(bytes: Seq<u8>, at: nat, end: nat)
    requires
        wire::parse_string(bytes, at) !is Short,
    ensures
        at + wire::parse_string(bytes, at).used() <= bytes.len(),
        at + wire::parse_string(bytes, at).used() <= end <= bytes.len() ==> wire::parse_string(
            bytes.take(end as int),
            at,
        ) == wire::parse_string(bytes, at),
{
    lemma_bytes_cut(bytes, at, end);
}

proof fn lemma_values_cut(bytes: Seq<u8>, at: nat, n: nat, end: nat)
    requires
        at <= bytes.len(),
        wire::parse_values(bytes, at, n) !is Short,
    ensures
        at + wire::parse_values(bytes, at, n).used() <= bytes.len(),
        at + wire::parse_values(bytes, at, n).used() <= end <= bytes.len() ==> wire::parse_values(
            bytes.take(end as int),
            at,
            n,
        ) == wire::parse_values(bytes, at, n),
    decreases wire::bytes_left(bytes, at), n + 1,
{
    if n > 0 {
        lemma_value_cut(bytes, at, end);
        if let Parse::Done(_, used) = wire::parse_value(bytes, at) {
            lemma_values_cut(bytes, at + used, (n - 1) as nat, end);
        }
    }
}

proof fn lemma_entries_cut(
    bytes: Seq<u8>,
    at: nat,
    n: nat,
    entries: Seq<(Seq<char>, Value)>,
    end: nat,
)
    requires
        at <= bytes.len(),
        wire::parse_entries(bytes, at, n, entries) !is Short,
    ensures
        at + wire::parse_entries(bytes, at, n, entries).used() <= bytes.len(),
        at + wire::parse_entries(bytes, at, n, entries).used() <= end <= bytes.len()
            ==> wire::parse_entries(bytes.take(end as int), at, n, entries) == wire::parse_entries(
            bytes,
            at,
            n,
            entries,
        ),
    decreases wire::bytes_left(bytes, at), n + 1,
{
    if n > 0 {
        lemma_string_cut(bytes, at, end);
        if let Parse::Done(key, k) = wire::parse_string(bytes, at) {
            lemma_value_cut(bytes, at + k, end);
            if let Parse::Done(v, used) = wire::parse_value(bytes, at + k) {
                lemma_entries_cut(
                    bytes,
                    at + k + used,
                    (n - 1) as nat,
                    value::put(entries, key, v),
                    end,
                );
            }
        }
    }
}

/// What is decoded at a position is what is decoded at the start of the bytes from there on.
pub proof fn lemma_value_shift(bytes: Seq<u8>, k: nat, at: nat)
    requires
        k <= bytes.len(),
    ensures
        wire::parse_value(bytes.skip(k as int), at) == wire::parse_value(bytes, k + at),
    decreases wire::bytes_left(bytes, k + at), 0nat,
{
    let tail = bytes.skip(k as int);
    if at < tail.len() {
        let tag = bytes[k + at as int];
        assert(tail[at as int] == tag);
        lemma_u32_shift(bytes, k, at + 1);
        if tag == 3 {
            lemma_string_shift(bytes, k, at + 1);
        } else if tag == 4 {
            lemma_bytes_shift(bytes, k, at + 1);
        } else if tag == 5 {
            if let Parse::Done(n, _) = wire::parse_u32(bytes, k + at + 1) {
                lemma_values_shift(bytes, k, at + 5, n as nat);
            }
            assert(wire::parse_list(tail, at + 1) == wire::parse_list(bytes, k + at + 1));
        } else if tag == 6 {
            if let Parse::Done(n, _) = wire::parse_u32(bytes, k + at + 1) {
                lemma_entries_shift(bytes, k, at + 5, n as nat, Seq::empty());
            }
            assert(wire::parse_map(tail, at + 1) == wire::parse_map(bytes, k + at + 1));
        }
    }
}

proof fn lemma_u32_shift(bytes: Seq<u8>, k: nat, at: nat)
    requires
        k <= bytes.len(),
    ensures
        wire::parse_u32(bytes.skip(k as int), at) == wire::parse_u32(bytes, k + at),
{
}

proof fn lemma_bytes_shift(bytes: Seq<u8>, k: nat, at: nat)
    requires
        k <= bytes.len(),
    ensures
        wire::parse_bytes(bytes.skip(k as int), at) == wire::parse_bytes(bytes, k + at),
{
    lemma_u32_shift(bytes, k, at);
    if let Parse::Done(b, used) = wire::parse_bytes(bytes, k + at) {
        assert(bytes.skip(k as int).subrange(at + 4int, (at + used) as int) =~= b);
    }
}

proof fn lemma_string_shift(bytes: Seq<u8>, k: nat, at: nat)
    requires
        k <= bytes.len(),
    ensures
        wire::parse_string(bytes.skip(k as int), at) == wire::parse_string(bytes, k + at),
{
    lemma_bytes_shift(bytes, k, at);
}

proof fn lemma_values_shift(bytes: Seq<u8>, k: nat, at: nat, n: nat)
    requires
        k <= bytes.len(),
    ensures
        wire::parse_values(bytes.skip(k as int), at, n) == wire::parse_values(bytes, k + at, n),
    decreases wire::bytes_left(bytes, k + at), n + 1,
{
    if n > 0 {
        lemma_value_shift(bytes, k, at);
        if let Parse::Done(_, used) = wire::parse_value(bytes, k + at) {
            lemma_values_shift(bytes, k, at + used, (n - 1) as nat);
        }
    }
}

proof fn lemma_entries_shift(
    bytes: Seq<u8>,
    k: nat,
    at: nat,
    n: nat,
    entries: Seq<(Seq<char>, Value)>,
)
    requires
        k <= bytes.len(),
    ensures
        wire::parse_entries(bytes.skip(k as int), at, n, entries) == wire::parse_entries(
            bytes,
            k + at,
            n,
            entries,
        ),
    decreases wire::bytes_left(bytes, k + at), n + 1,
{
    if n > 0 {
        lemma_string_shift(bytes, k, at);
        if let Parse::Done(key, a) = wire::parse_string(bytes, k + at) {
            lemma_value_shift(bytes, k, at + a);
            if let Parse::Done(v, used) = wire::parse_value(bytes, k + at + a) {
                lemma_entries_shift(
                    bytes,
                    k,
                    at + a + used,
                    (n - 1) as nat,
                    value::put(entries, key, v),
                );
            }
        }
    }
}

/// What is decoded at the start of some bytes.
#[verifier::opaque]
pub open spec fn decoded(bytes: Seq<u8>) -> Parse<Value> {
    wire::parse_value(bytes, 0)
}

/// The bytes of a list: a tag, a count, and those of the items.
pub open spec fn list_bytes(n: nat, body: Seq<u8>) -> Seq<u8> {
    seq![5u8] + encode::le_bytes(n) + body
}

/// A list is decoded to its items.
pub proof fn lemma_list_decoded(n: nat, body: Seq<u8>)
    requires
        n <= u32::MAX,
    ensures
        decoded(list_bytes(n, body)) == match wire::parse_values(body, 0, n) {
            Parse::Done(items, used) => Parse::Done(Value::List(items), 5 + used),
            Parse::Failed(f, used) => Parse::Failed(f, 5 + used),
            Parse::Short => Parse::Short,
        },
{
    reveal(decoded);
    let list = list_bytes(n, body);
    assert(list.subrange(1, 5) =~= encode::le_bytes(n));
    lemma_parse_le_bytes(n, list, 1);
    lemma_values_shift(list, 5, 0, n);
    assert(list.skip(5) =~= body);
    assert(wire::parse_list(list, 1) == wire::parse_values(body, 0, n).mapped(
        |items: Seq<Value>| items,
        4,
    ));
}

proof fn lemma_first_of_values(body: Seq<u8>, n: nat)
    requires
        n > 0,
    ensures
        match decoded(body) {
            Parse::Done(v, used) => {
                &&& used <= body.len()
                &&& wire::parse_values(body, 0, n) == wire::parse_values(
                    body.skip(used as int),
                    0,
                    (n - 1) as nat,
                ).mapped(|others: Seq<Value>| seq![v] + others, used)
            },
            Parse::Failed(f, used) => wire::parse_values(body, 0, n) == Parse::<
                Seq<Value>,
            >::Failed(f, used),
            Parse::Short => wire::parse_values(body, 0, n) is Short,
        },
{
    reveal(decoded);
    if let Parse::Done(v, used) = wire::parse_value(body, 0) {
        lemma_value_cut(body, 0, used);
        lemma_values_shift(body, used, 0, (n - 1) as nat);
    }
}

/// A list is its first item and the list of the others: it fails or ends too early where the first
/// item does or the others do.
pub proof fn lemma_list_by_items(body: Seq<u8>, n: nat)
    requires
        0 < n <= u32::MAX,
    ensures
        match decoded(body) {
            Parse::Failed(f, _) => decoded(list_bytes(n, body)) matches Parse::Failed(g, _) && g
                == f,
            Parse::Short => decoded(list_bytes(n, body)) is Short,
            Parse::Done(v, used) => match decoded(
                list_bytes((n - 1) as nat, body.skip(used as int)),
            ) {
                Parse::Failed(f, _) => decoded(list_bytes(n, body)) matches Parse::Failed(g, _)
                    && g == f,
                Parse::Short => decoded(list_bytes(n, body)) is Short,
                Parse::Done(rest, _) => rest matches Value::List(others) && decoded(
                    list_bytes(n, body),
                ) matches Parse::Done(whole, _) && whole == Value::List(seq![v] + others),
            },
        },
{
    lemma_list_decoded(n, body);
    lemma_first_of_values(body, n);
    if let Parse::Done(v, used) = decoded(body) {
        lemma_list_decoded((n - 1) as nat, body.skip(used as int));
    }
}

/// The bytes of a map: a tag, a count, and those of the entries.
pub open spec fn map_bytes(n: nat, body: Seq<u8>) -> Seq<u8> {
    seq![6u8] + encode::le_bytes(n) + body
}

/// A map is decoded to its entries.
pub proof fn lemma_map_decoded(n: nat, body: Seq<u8>)
    requires
        n <= u32::MAX,
    ensures
        decoded(map_bytes(n, body)) == match wire::parse_entries(body, 0, n, Seq::empty()) {
            Parse::Done(d, used) => Parse::Done(Value::Dict(d), 5 + used),
            Parse::Failed(f, used) => Parse::Failed(f, 5 + used),
            Parse::Short => Parse::Short,
        },
{
    reveal(decoded);
    let map = map_bytes(n, body);
    assert(map.subrange(1, 5) =~= encode::le_bytes(n));
    lemma_parse_le_bytes(n, map, 1);
    lemma_entries_shift(map, 5, 0, n, Seq::empty());
    assert(map.skip(5) =~= body);
    assert(wire::parse_map(map, 1) == wire::parse_entries(body, 0, n, Seq::empty()).mapped(
        |d: Seq<(Seq<char>, Value)>| d,
        4,
    ));
}

/// Entries that are stored into other entries are found first, and those under other keys after
/// them.
proof fn lemma_entries_into(
    bytes: Seq<u8>,
    at: nat,
    n: nat,
    before: Seq<(Seq<char>, Value)>,
    one: Seq<(Seq<char>, Value)>,
    two: Seq<(Seq<char>, Value)>,
    key: Seq<char>,
)
    requires
        value::lookup(two, key) == match value::lookup(one, key) {
            Some(v) => Some(v),
            None => value::lookup(before, key),
        },
    ensures
        match (wire::parse_entries(bytes, at, n, one), wire::parse_entries(bytes, at, n, two)) {
            (Parse::Done(a, u), Parse::Done(b, w)) => u == w && value::lookup(b, key)
                == match value::lookup(a, key) {
                Some(v) => Some(v),
                None => value::lookup(before, key),
            },
            (Parse::Failed(f, u), Parse::Failed(g, w)) => f == g && u == w,
            (Parse::Short, Parse::Short) => true,
            _ => false,
        },
    decreases wire::bytes_left(bytes, at), n + 1,
{
    if n > 0 {
        if let Parse::Done(k, a) = wire::parse_string(bytes, at) {
            if let Parse::Done(v, used) = wire::parse_value(bytes, at + a) {
                value::lemma_put_then_lookup(one, k, v, key);
                value::lemma_put_then_lookup(two, k, v, key);
                lemma_entries_into(
                    bytes,
                    at + a + used,
                    (n - 1) as nat,
                    before,
                    value::put(one, k, v),
                    value::put(two, k, v),
                    key,
                );
            }
        }
    }
}

proof fn lemma_first_of_entries(body: Seq<u8>, n: nat, key: Seq<char>)
    requires
        n > 0,
        wire::parse_string(body, 0) is Done,
    ensures
        wire::parse_string(body, 0) matches Parse::Done(k, a) ==> a <= body.len() && match decoded(
            body.skip(a as int),
        ) {
            Parse::Done(v, used) => {
                &&& a + used <= body.len()
                &&& match (
                    wire::parse_entries(body, 0, n, Seq::empty()),
                    wire::parse_entries(
                        body.skip((a + used) as int),
                        0,
                        (n - 1) as nat,
                        Seq::empty(),
                    ),
                ) {
                    (Parse::Done(whole, _), Parse::Done(others, _)) => value::lookup(whole, key)
                        == match value::lookup(others, key) {
                        Some(w) => Some(w),
                        None => if key == k {
                            Some(v)
                        } else {
                            None
                        },
                    },
                    (Parse::Failed(f, _), Parse::Failed(g, _)) => f == g,
                    (Parse::Short, Parse::Short) => true,
                    _ => false,
                }
            },
            Parse::Failed(f, used) => wire::parse_entries(body, 0, n, Seq::empty()) == Parse::<
                Seq<(Seq<char>, Value)>,
            >::Failed(f, a + used),
            Parse::Short => wire::parse_entries(body, 0, n, Seq::empty()) is Short,
        },
{
    reveal(decoded);
    lemma_string_cut(body, 0, 0);
    if let Parse::Done(k, a) = wire::parse_string(body, 0) {
        lemma_value_shift(body, a, 0);
        if let Parse::Done(v, used) = wire::parse_value(body, a) {
            lemma_value_cut(body, a, a + used);
            let none = Seq::<(Seq<char>, Value)>::empty();
            let one = value::put(none, k, v);
            value::lemma_put_then_lookup(none, k, v, key);
            lemma_entries_shift(body, a + used, 0, (n - 1) as nat, none);
            lemma_entries_into(body, a + used, (n - 1) as nat, one, none, one, key);
        }
    }
}

/// A map is its first entry and the map of the others. A key that is not UTF-8 or a value that
/// fails is the failure of the map; what the others hold under a key counts before what the first
/// entry does.
pub proof fn lemma_map_by_entries(body: Seq<u8>, n: nat, key: Seq<char>)
    requires
        0 < n <= u32::MAX,
    ensures
        match wire::parse_string(body, 0) {
            Parse::Failed(f, _) => decoded(map_bytes(n, body)) matches Parse::Failed(g, _) && g
                == f,
            Parse::Short => decoded(map_bytes(n, body)) is Short,
            Parse::Done(k, a) => match decoded(body.skip(a as int)) {
                Parse::Failed(f, _) => decoded(map_bytes(n, body)) matches Parse::Failed(g, _)
                    && g == f,
                Parse::Short => decoded(map_bytes(n, body)) is Short,
                Parse::Done(v, used) => match decoded(
                    map_bytes((n - 1) as nat, body.skip((a + used) as int)),
                ) {
                    Parse::Failed(f, _) => decoded(map_bytes(n, body)) matches Parse::Failed(g, _)
                        && g == f,
                    Parse::Short => decoded(map_bytes(n, body)) is Short,
                    Parse::Done(rest, _) => rest matches Value::Dict(others) && decoded(
                        map_bytes(n, body),
                    ) matches Parse::Done(whole, _) && whole matches Value::Dict(all)
                        && value::lookup(all, key) == match value::lookup(others, key) {
                        Some(w) => Some(w),
                        None => if key == k {
                            Some(v)
                        } else {
                            None
                        },
                    },
                },
            },
        },
{
    lemma_map_decoded(n, body);
    match wire::parse_string(body, 0) {
        Parse::Done(k, a) => {
            lemma_first_of_entries(body, n, key);
            if let Parse::Done(v, used) = decoded(body.skip(a as int)) {
                lemma_map_decoded((n - 1) as nat, body.skip((a + used) as int));
            }
        },
        _ => {},
    }
}

/// A packet is decoded alike whatever follows it.
pub proof fn lemma_bytes_after_packet_ignored(bytes: Seq<u8>, more: Seq<u8>)
    requires
        wire::parse_packet(bytes, 0) !is Short,
    ensures
        wire::parse_packet(bytes + more, 0) == wire::parse_packet(bytes, 0),
{
    lemma_u32_later_bytes(bytes, more, 0);
    lemma_later_bytes_ignored(bytes, more, 4);
}

/// Whatever is decoded can be sent: its lengths came as four bytes, and no map in it holds a key
/// twice. By [`lemma_decode_encoded`] it is then decoded to the same again.
pub proof fn lemma_decoded_is_sendable(bytes: Seq<u8>, at: nat)
    ensures
        wire::parse_value(bytes, at) matches Parse::Done(v, _) ==> sendable(v),
    decreases wire::bytes_left(bytes, at), 0nat,
{
    if at < bytes.len() {
        let tag = bytes[at as int];
        if tag == 3 {
            lemma_decoded_text(bytes, at + 1);
        } else if tag == 5 {
            if let Parse::Done(n, _) = wire::parse_u32(bytes, at + 1) {
                lemma_decoded_values(bytes, at + 5, n as nat);
            }
        } else if tag == 6 {
            if let Parse::Done(n, _) = wire::parse_u32(bytes, at + 1) {
                lemma_decoded_entries(bytes, at + 5, n as nat, Seq::empty());
            }
        }
    }
}

proof fn lemma_decoded_text(bytes: Seq<u8>, at: nat)
    ensures
        wire::parse_string(bytes, at) matches Parse::Done(s, _) ==> sendable_text(s),
{
    if let Parse::Done(b, _) = wire::parse_bytes(bytes, at) {
        if vstd::utf8::valid_utf8(b) {
            vstd::utf8::decode_utf8_encode_utf8(b);
        }
    }
}

proof fn lemma_decoded_values(bytes: Seq<u8>, at: nat, n: nat)
    ensures
        wire::parse_values(bytes, at, n) matches Parse::Done(items, _) ==> {
            &&& items.len() == n
            &&& forall|i: int| 0 <= i < items.len() ==> sendable(#[trigger] items[i])
        },
    decreases wire::bytes_left(bytes, at), n + 1,
{
    if n > 0 {
        lemma_decoded_is_sendable(bytes, at);
        if let Parse::Done(_, used) = wire::parse_value(bytes, at) {
            lemma_decoded_values(bytes, at + used, (n - 1) as nat);
        }
    }
}

/// What a map must be for it to be sent, but for the number of its entries.
spec fn sendable_entries(entries: Seq<(Seq<char>, Value)>) -> bool {
    &&& value::distinct_keys(entries)
    &&& forall|i: int|
        0 <= i < entries.len() ==> sendable_text((#[trigger] entries[i]).0) && sendable(
            entries[i].1,
        )
}

proof fn lemma_decoded_entries(
    bytes: Seq<u8>,
    at: nat,
    n: nat,
    entries: Seq<(Seq<char>, Value)>,
)
    requires
        sendable_entries(entries),
    ensures
        wire::parse_entries(bytes, at, n, entries) matches Parse::Done(all, _) ==> {
            &&& all.len() <= entries.len() + n
            &&& sendable_entries(all)
        },
    decreases wire::bytes_left(bytes, at), n + 1,
{
    if n > 0 {
        lemma_decoded_text(bytes, at);
        if let Parse::Done(key, k) = wire::parse_string(bytes, at) {
            lemma_decoded_is_sendable(bytes, at + k);
            if let Parse::Done(v, used) = wire::parse_value(bytes, at + k) {
                let next = value::put(entries, key, v);
                value::lemma_put_then_lookup(entries, key, v, key);
                value::lemma_key_index(entries, key);
                assert(sendable_entries(next));
                lemma_decoded_entries(bytes, at + k + used, (n - 1) as nat, next);
            }
        }
    }
}

/// Where the whole encoding of a value is no longer than four bytes can tell, nothing in the value
/// is.
pub proof fn lemma_short_encoding_fits(v: Value)
    requires
        encode::encode_value(v).len() <= u32::MAX,
    ensures
        fits(v),
    decreases v,
{
    match v {
        Value::List(items) => {
            lemma_values_len(items, items.len());
            assert forall|i: int| 0 <= i < items.len() implies fits(#[trigger] items[i]) by {
                lemma_values_prefix(items, (i + 1) as nat, items.len());
                assert(decreases_to!(v => v->List_0));
                assert(decreases_to!(v->List_0 => v->List_0[i]));
                lemma_short_encoding_fits(items[i]);
            }
        },
        Value::Dict(entries) => {
            encode::lemma_encode_entries_len(entries, entries.len());
            assert forall|i: int| 0 <= i < entries.len() implies sendable_text(
                (#[trigger] entries[i]).0,
            ) && fits(entries[i].1) by {
                lemma_entries_prefix(entries, (i + 1) as nat, entries.len());
                assert(decreases_to!(v => v->Dict_0));
                assert(decreases_to!(v->Dict_0 => v->Dict_0[i]));
                assert(decreases_to!(v->Dict_0[i] => v->Dict_0[i].1));
                lemma_short_encoding_fits(entries[i].1);
            }
        },
        _ => {},
    }
}

/// A value takes at least one byte.
proof fn lemma_values_len(items: Seq<Value>, n: nat)
    requires
        n <= items.len(),
    ensures
        encode::encode_values(items, n).len() >= n,
    decreases n,
{
    if n > 0 {
        lemma_values_len(items, (n - 1) as nat);
        assert(encode::encode_value(items[n - 1]).len() >= 1);
    }
}

} // verus!
