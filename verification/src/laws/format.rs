//! The bytes that stand for values and packets.
use crate::protocol::encode;
use crate::protocol::encode::{encode_key, encode_length_delimited, encode_u32_raw, Encode};
use crate::protocol::encoders;
use crate::protocol::error::ProtocolError;
use crate::protocol::messages::ProtocolPacket;
use crate::protocol::roundtrip;
use crate::protocol::value::{AnyValue, Value};
use crate::protocol::wire;
use crate::protocol::wire::{AnyPacket, Buf, Decode, PacketModel, Parse};
use vstd::prelude::*;

verus! {

/// The integer that four bytes are, the low byte first.
pub open spec fn little_endian(b: Seq<u8>, at: int) -> int {
    b[at] + 0x100 * b[at + 1] + 0x1_0000 * b[at + 2] + 0x100_0000 * b[at + 3]
}

/// `now` is `before` and then `added`.
pub open spec fn appended(before: Seq<u8>, now: Seq<u8>, added: Seq<u8>) -> bool {
    &&& now.len() == before.len() + added.len()
    &&& forall|i: int| 0 <= i < before.len() ==> #[trigger] now[i] == before[i]
    &&& forall|i: int| 0 <= i < added.len() ==> now[before.len() + i] == #[trigger] added[i]
}

proof fn lemma_le_bytes(n: nat)
    requires
        n <= u32::MAX,
    ensures
        encode::le_bytes(n).len() == 4,
        little_endian(encode::le_bytes(n), 0) == n,
{
}

/// A number is written in four bytes, the low byte first.
pub proof fn law_u32_raw(buf: &mut Vec<u8>, n: u32)
    requires
        call_ensures(encode_u32_raw, (buf, n), ()),
    ensures
        final(buf)@.len() == old(buf)@.len() + 4,
        little_endian(final(buf)@, old(buf)@.len() as int) == n,
        forall|i: int| 0 <= i < old(buf)@.len() ==> #[trigger] final(buf)@[i] == old(buf)@[i],
{
    lemma_le_bytes(n as nat);
}

/// Bytes are written behind their length.
pub proof fn law_length_delimited(buf: &mut Vec<u8>, bytes: &[u8])
    requires
        call_ensures(encode_length_delimited, (buf, bytes), ()),
        bytes@.len() <= u32::MAX,
    ensures
        little_endian(final(buf)@, old(buf)@.len() as int) == bytes@.len(),
        final(buf)@.skip(old(buf)@.len() + 4int) == bytes@,
        final(buf)@.len() == old(buf)@.len() + 4 + bytes@.len(),
        forall|i: int| 0 <= i < old(buf)@.len() ==> #[trigger] final(buf)@[i] == old(buf)@[i],
{
    lemma_le_bytes(bytes@.len());
    let length = encode::le_bytes(bytes@.len());
    let n = old(buf)@.len() as int;
    let now = final(buf)@;
    assert(now[n] == length[0] && now[n + 1] == length[1] && now[n + 2] == length[2] && now[n + 3]
        == length[3]);
    assert(now.skip(n + 4) =~= bytes@);
}

/// A key is written as its UTF-8 bytes behind their number.
pub proof fn law_key(buf: &mut Vec<u8>, key: &str)
    requires
        call_ensures(encode_key, (buf, key), ()),
        vstd::utf8::encode_utf8(key@).len() <= u32::MAX,
    ensures
        little_endian(final(buf)@, old(buf)@.len() as int) == vstd::utf8::encode_utf8(key@).len(),
        final(buf)@.skip(old(buf)@.len() + 4int) == vstd::utf8::encode_utf8(key@),
        forall|i: int| 0 <= i < old(buf)@.len() ==> #[trigger] final(buf)@[i] == old(buf)@[i],
{
    let bytes = vstd::utf8::encode_utf8(key@);
    lemma_le_bytes(bytes.len());
    let length = encode::le_bytes(bytes.len());
    let n = old(buf)@.len() as int;
    let now = final(buf)@;
    assert(now[n] == length[0] && now[n + 1] == length[1] && now[n + 2] == length[2] && now[n + 3]
        == length[3]);
    assert(now.skip(n + 4) =~= bytes);
}

/// A value is written as a tag and what it holds: nothing for null, one byte for a boolean, four
/// for a number, a length and the bytes for a text or bytes, a count and the items for a list or
/// a map.
pub proof fn law_value_bytes(v: Value)
    ensures
        match v {
            Value::Null => encode::encode_value(v) == seq![0u8],
            Value::Bool(b) => encode::encode_value(v) == seq![
                1u8,
                if b {
                    1u8
                } else {
                    0u8
                },
            ],
            Value::U32(u) => {
                &&& encode::encode_value(v).len() == 5
                &&& encode::encode_value(v)[0] == 2
                &&& little_endian(encode::encode_value(v), 1) == u
            },
            Value::Text(s) => {
                &&& encode::encode_value(v)[0] == 3
                &&& encode::encode_value(v).skip(5) == vstd::utf8::encode_utf8(s)
                &&& vstd::utf8::encode_utf8(s).len() <= u32::MAX ==> little_endian(
                    encode::encode_value(v),
                    1,
                ) == vstd::utf8::encode_utf8(s).len()
            },
            Value::Bytes(b) => {
                &&& encode::encode_value(v)[0] == 4
                &&& encode::encode_value(v).skip(5) == b
                &&& b.len() <= u32::MAX ==> little_endian(encode::encode_value(v), 1) == b.len()
            },
            Value::List(l) => {
                &&& encode::encode_value(v)[0] == 5
                &&& l.len() <= u32::MAX ==> little_endian(encode::encode_value(v), 1) == l.len()
                &&& l.len() == 0 ==> encode::encode_value(v).len() == 5
            },
            Value::Dict(d) => {
                &&& encode::encode_value(v)[0] == 6
                &&& d.len() <= u32::MAX ==> little_endian(encode::encode_value(v), 1) == d.len()
                &&& d.len() == 0 ==> encode::encode_value(v).len() == 5
            },
        },
{
    let e = encode::encode_value(v);
    match v {
        Value::U32(u) => lemma_after_tag(2, u as nat, Seq::empty(), e),
        Value::Text(s) => {
            let b = vstd::utf8::encode_utf8(s);
            lemma_after_tag(3, b.len(), b, e);
        },
        Value::Bytes(b) => lemma_after_tag(4, b.len(), b, e),
        Value::List(l) => lemma_after_tag(
            5,
            l.len(),
            encode::encode_values(l, l.len()),
            e,
        ),
        Value::Dict(d) => lemma_after_tag(
            6,
            d.len(),
            encode::encode_entries(d, d.len()),
            e,
        ),
        _ => {},
    }
}

proof fn lemma_after_tag(tag: u8, n: nat, rest: Seq<u8>, e: Seq<u8>)
    requires
        e =~= seq![tag] + encode::le_bytes(n) + rest || e =~= seq![tag] + (encode::le_bytes(n)
            + rest) || (rest.len() == 0 && e =~= seq![tag] + encode::le_bytes(n)),
    ensures
        e.len() == 5 + rest.len(),
        e[0] == tag,
        e.skip(5) == rest,
        n <= u32::MAX ==> little_endian(e, 1) == n,
{
    let length = encode::le_bytes(n);
    assert(e[1] == length[0] && e[2] == length[1] && e[3] == length[2] && e[4] == length[3]);
    assert(e.skip(5) =~= rest);
    if n <= u32::MAX {
        lemma_le_bytes(n);
    }
}

/// One item more at the end of a list is written behind the others.
pub proof fn law_list_grows(l: Seq<Value>, last: Value)
    ensures
        encode::encode_value(Value::List(l.push(last))).skip(5) == encode::encode_value(
            Value::List(l),
        ).skip(5) + encode::encode_value(last),
{
    lemma_values_front(l, last, l.len());
    let more = encode::encode_values(l.push(last), l.len() + 1);
    assert(l.push(last)[l.len() as int] == last);
    assert(more == encode::encode_values(l, l.len()) + encode::encode_value(last));
    lemma_after_tag(
        5,
        l.len(),
        encode::encode_values(l, l.len()),
        encode::encode_value(Value::List(l)),
    );
    lemma_after_tag(5, l.len() + 1, more, encode::encode_value(Value::List(l.push(last))));
}

proof fn lemma_values_front(l: Seq<Value>, last: Value, n: nat)
    requires
        n <= l.len(),
    ensures
        encode::encode_values(l.push(last), n) == encode::encode_values(l, n),
    decreases n,
{
    if n > 0 {
        lemma_values_front(l, last, (n - 1) as nat);
    }
}

/// One entry more at the end of a map is written behind the others: the key behind the number of
/// its bytes, and then the value.
pub proof fn law_map_grows(d: Seq<(Seq<char>, Value)>, key: Seq<char>, last: Value)
    ensures
        ({
            let bytes = vstd::utf8::encode_utf8(key);
            let before = encode::encode_value(Value::Dict(d)).skip(5);
            let now = encode::encode_value(Value::Dict(d.push((key, last)))).skip(5);
            let n = before.len() as int;
            &&& now.take(n) == before
            &&& bytes.len() <= u32::MAX ==> little_endian(now, n) == bytes.len()
            &&& now.skip(n + 4) == bytes + encode::encode_value(last)
        }),
{
    let bytes = vstd::utf8::encode_utf8(key);
    let more = d.push((key, last));
    lemma_entries_front(d, (key, last), d.len());
    assert(more[d.len() as int] == (key, last));
    let before = encode::encode_entries(d, d.len());
    let now = encode::encode_entries(more, d.len() + 1);
    let length = encode::le_bytes(bytes.len());
    assert(now =~= before + length + bytes + encode::encode_value(last));
    lemma_after_tag(6, d.len(), before, encode::encode_value(Value::Dict(d)));
    lemma_after_tag(6, d.len() + 1, now, encode::encode_value(Value::Dict(more)));
    let n = before.len() as int;
    assert(now.take(n) =~= before);
    assert(now[n] == length[0] && now[n + 1] == length[1] && now[n + 2] == length[2] && now[n + 3]
        == length[3]);
    assert(now.skip(n + 4) =~= bytes + encode::encode_value(last));
    if bytes.len() <= u32::MAX {
        lemma_le_bytes(bytes.len());
    }
}

proof fn lemma_entries_front(d: Seq<(Seq<char>, Value)>, last: (Seq<char>, Value), n: nat)
    requires
        n <= d.len(),
    ensures
        encode::encode_entries(d.push(last), n) == encode::encode_entries(d, n),
    decreases n,
{
    if n > 0 {
        lemma_entries_front(d, last, (n - 1) as nat);
    }
}

/// What is written for a value goes behind what was written before.
pub proof fn law_any_value_written(v: AnyValue, buf: &mut Vec<u8>)
    requires
        call_ensures(<AnyValue as Encode>::encode_into, (&v, buf), ()),
    ensures
        appended(old(buf)@, final(buf)@, encode::encode_value(v@)),
{
}

/// A packet is written as its length, its number with a bit that tells a response from a request,
/// and its value.
pub proof fn law_packet_written(x: ProtocolPacket, buf: &mut Vec<u8>)
    requires
        call_ensures(ProtocolPacket::encode_into, (&x, buf), ()),
        x.id < 0x8000_0000,
        final(buf)@.len() - old(buf)@.len() <= u32::MAX,
    ensures
        ({
            let n = old(buf)@.len() as int;
            let now = final(buf)@;
            &&& now.len() >= n + 8
            &&& little_endian(now, n) == now.len() - n - 4
            &&& little_endian(now, n + 4) == 2 * x.id + if x.is_request {
                0int
            } else {
                1int
            }
            &&& now.skip(n + 8) == encode::encode_value(x.value.wire())
            &&& forall|i: int| 0 <= i < n ==> #[trigger] now[i] == old(buf)@[i]
        }),
{
    lemma_packet_written(x.model(), old(buf)@, final(buf)@);
}

proof fn lemma_packet_written(packet: PacketModel, before: Seq<u8>, now: Seq<u8>)
    requires
        now == before + encode::delimited(encoders::encode_packet(packet)),
        packet.id < 0x8000_0000,
        now.len() - before.len() <= u32::MAX,
    ensures
        now.len() >= before.len() + 8,
        little_endian(now, before.len() as int) == now.len() - before.len() - 4,
        little_endian(now, before.len() + 4int) == 2 * packet.id + if packet.is_request {
            0int
        } else {
            1int
        },
        now.skip(before.len() + 8int) == encode::encode_value(packet.value),
        forall|i: int| 0 <= i < before.len() ==> #[trigger] now[i] == before[i],
{
    let number = (2 * packet.id + if packet.is_request {
        0int
    } else {
        1int
    }) as nat;
    let v = encode::encode_value(packet.value);
    let message = encoders::encode_packet(packet);
    let a = encode::le_bytes(message.len());
    let b = encode::le_bytes(number);
    let n = before.len() as int;
    assert(now =~= before + a + b + v);
    lemma_le_bytes(message.len());
    lemma_le_bytes(number);
    assert(now[n] == a[0] && now[n + 1] == a[1] && now[n + 2] == a[2] && now[n + 3] == a[3]);
    assert(now[n + 4] == b[0] && now[n + 5] == b[1] && now[n + 6] == b[2] && now[n + 7] == b[3]);
    assert(now.skip(n + 8) =~= v);
}

/// Whether `r` is a packet that holds `v`.
pub open spec fn holds(r: Option<Result<AnyPacket, ProtocolError>>, v: Value) -> bool {
    r matches Some(Ok(p)) && p.value@ == v
}

/// The first four bytes of a packet are its number with the bit that tells a response from a
/// request. What follows is read by its tag; another tag than those is refused, and bytes that
/// end too early are no packet.
pub proof fn law_packet_bytes_read(
    bytes: &[u8],
    r: Option<Result<AnyPacket, ProtocolError>>,
)
    requires
        call_ensures(wire::try_decode_any_packet, (bytes,), r),
    ensures
        bytes@.len() < 5 ==> r is None,
        r matches Some(Ok(p)) ==> {
            &&& p.id == little_endian(bytes@, 0) / 2
            &&& p.is_request <==> little_endian(bytes@, 0) % 2 == 0
        },
        bytes@.len() >= 5 ==> {
            let b = bytes@;
            let tag = b[4];
            &&& tag == 0 ==> holds(r, Value::Null)
            &&& tag == 1 ==> if b.len() >= 6 {
                holds(r, Value::Bool(b[5] == 1))
            } else {
                r is None
            }
            &&& tag == 2 ==> if b.len() >= 9 {
                holds(r, Value::U32(little_endian(b, 5) as u32))
            } else {
                r is None
            }
            &&& tag == 3 || tag == 4 ==> if b.len() >= 9 && b.len() >= 9 + little_endian(b, 5) {
                let part = b.subrange(9, 9 + little_endian(b, 5));
                if tag == 4 {
                    holds(r, Value::Bytes(part))
                } else if vstd::utf8::valid_utf8(part) {
                    holds(r, Value::Text(vstd::utf8::decode_utf8(part)))
                } else {
                    r matches Some(Err(e)) && e is UndecodableString
                }
            } else {
                r is None
            }
            &&& tag > 6 ==> (r matches Some(Err(ProtocolError::InvalidTag(t))) && t == tag)
        },
{
}

/// A packet that does not end too early is decoded alike by both functions.
pub proof fn law_decode_any_packet(
    bytes: &[u8],
    one: Result<AnyPacket, ProtocolError>,
    two: Option<Result<AnyPacket, ProtocolError>>,
)
    requires
        call_ensures(wire::decode_any_packet, (bytes,), one),
        call_ensures(wire::try_decode_any_packet, (bytes,), two),
        two is Some,
    ensures
        match (one, two) {
            (Ok(p), Some(Ok(q))) => p.id == q.id && p.is_request == q.is_request && p.value@
                == q.value@,
            (Err(e), Some(Err(f))) => e@ == f@,
            _ => false,
        },
{
}

/// A cursor starts at the first byte.
pub proof fn law_cursor_starts(bytes: &[u8], r: Buf<'_>)
    requires
        call_ensures(Buf::<'_>::new, (bytes,), r),
    ensures
        r.bytes() == bytes@,
        r.at() == 0,
{
}

/// A byte is read and the cursor goes on by one.
pub proof fn law_byte_read<'a>(buf: &mut Buf<'a>, r: u8)
    requires
        call_ensures(Buf::<'a>::read_u8, (buf,), r),
    ensures
        r == old(buf).bytes()[old(buf).at() as int],
        final(buf).at() == old(buf).at() + 1,
        final(buf).bytes() == old(buf).bytes(),
{
}

/// Four bytes are read as a number and the cursor goes on by four.
pub proof fn law_number_read<'a>(buf: &mut Buf<'a>, r: u32)
    requires
        call_ensures(Buf::<'a>::read_u32, (buf,), r),
    ensures
        r == little_endian(old(buf).bytes(), old(buf).at() as int),
        final(buf).at() == old(buf).at() + 4,
        final(buf).bytes() == old(buf).bytes(),
{
}

/// Bytes are copied in order and the cursor goes on by their number.
pub proof fn law_bytes_copied<'a>(buf: &mut Buf<'a>, n: usize, into: &mut [u8])
    requires
        call_ensures(Buf::<'a>::read_n, (buf, n, into), ()),
    ensures
        final(into)@ == old(buf).bytes().subrange(old(buf).at() as int, old(buf).at() + n),
        final(buf).at() == old(buf).at() + n,
        final(buf).bytes() == old(buf).bytes(),
{
}

/// A boolean is one byte, and only the byte 1 is `true`.
pub proof fn law_bool_decoded<'a>(buf: &mut Buf<'a>, r: Option<Result<bool, ProtocolError>>)
    requires
        call_ensures(<bool as Decode>::try_decode_from, (buf,), r),
    ensures
        if old(buf).at() < old(buf).bytes().len() {
            &&& r matches Some(Ok(x)) && x == (old(buf).bytes()[old(buf).at() as int] == 1)
            &&& final(buf).at() == old(buf).at() + 1
        } else {
            r is None
        },
{
}

/// A number is four bytes, the low byte first.
pub proof fn law_u32_decoded<'a>(buf: &mut Buf<'a>, r: Option<Result<u32, ProtocolError>>)
    requires
        call_ensures(<u32 as Decode>::try_decode_from, (buf,), r),
    ensures
        if old(buf).at() + 4 <= old(buf).bytes().len() {
            &&& r matches Some(Ok(x)) && x == little_endian(
                old(buf).bytes(),
                old(buf).at() as int,
            )
            &&& final(buf).at() == old(buf).at() + 4
        } else {
            r is None
        },
{
}

/// The bytes that stand behind their number at `at`, if they are all there.
pub open spec fn counted(b: Seq<u8>, at: int) -> Option<Seq<u8>> {
    if at + 4 <= b.len() && at + 4 + little_endian(b, at) <= b.len() {
        Some(b.subrange(at + 4, at + 4 + little_endian(b, at)))
    } else {
        None
    }
}

/// Bytes are their number and then the bytes.
pub proof fn law_bytes_decoded<'a>(buf: &mut Buf<'a>, r: Option<Result<Vec<u8>, ProtocolError>>)
    requires
        call_ensures(<Vec<u8> as Decode>::try_decode_from, (buf,), r),
    ensures
        match counted(old(buf).bytes(), old(buf).at() as int) {
            Some(b) => {
                &&& r matches Some(Ok(x)) && x@ == b
                &&& final(buf).at() == old(buf).at() + 4 + b.len()
            },
            None => r is None,
        },
{
    if let Some(Ok(x)) = r {
        assert(x.deep_view() =~= x@);
    }
}

/// A string is the number of its UTF-8 bytes and then those bytes; other bytes are refused.
pub proof fn law_string_decoded<'a>(buf: &mut Buf<'a>, r: Option<Result<String, ProtocolError>>)
    requires
        call_ensures(<String as Decode>::try_decode_from, (buf,), r),
    ensures
        match counted(old(buf).bytes(), old(buf).at() as int) {
            Some(b) => {
                &&& if vstd::utf8::valid_utf8(b) {
                    r matches Some(Ok(x)) && x@ == vstd::utf8::decode_utf8(b)
                } else {
                    r matches Some(Err(e)) && e is UndecodableString
                }
                &&& final(buf).at() == old(buf).at() + 4 + b.len()
            },
            None => r is None,
        },
{
}

/// A value is decoded from where the cursor stands, and the cursor goes on behind it. By
/// [`roundtrip::lemma_list_by_items`] and [`roundtrip::lemma_map_by_entries`] that is known of
/// lists and maps once it is known of what they hold.
pub proof fn law_value_decoded<'a>(
    buf: &mut Buf<'a>,
    r: Option<Result<AnyValue, ProtocolError>>,
)
    requires
        call_ensures(<AnyValue as Decode>::try_decode_from, (buf,), r),
        old(buf).at() <= old(buf).bytes().len(),
    ensures
        match roundtrip::decoded(old(buf).bytes().skip(old(buf).at() as int)) {
            Parse::Done(v, used) => {
                &&& r matches Some(Ok(x)) && x@ == v
                &&& final(buf).at() == old(buf).at() + used
            },
            Parse::Failed(f, _) => r matches Some(Err(e)) && e@ == f,
            Parse::Short => r is None,
        },
        final(buf).bytes() == old(buf).bytes(),
{
    reveal(roundtrip::decoded);
    roundtrip::lemma_value_shift(old(buf).bytes(), old(buf).at(), 0);
}

/// What follows the number of a packet is decoded as a value.
pub proof fn law_packet_value_decoded(
    bytes: &[u8],
    r: Option<Result<AnyPacket, ProtocolError>>,
)
    requires
        call_ensures(wire::try_decode_any_packet, (bytes,), r),
        bytes@.len() >= 4,
    ensures
        match roundtrip::decoded(bytes@.skip(4)) {
            Parse::Done(v, _) => r matches Some(Ok(p)) && p.value@ == v,
            Parse::Failed(f, _) => r matches Some(Err(e)) && e@ == f,
            Parse::Short => r is None,
        },
{
    reveal(roundtrip::decoded);
    roundtrip::lemma_value_shift(bytes@, 4, 0);
}

/// A list or a map without items is decoded to one.
pub proof fn law_empty_decoded(more: Seq<u8>)
    ensures
        roundtrip::decoded(roundtrip::list_bytes(0, more)) matches Parse::Done(v, _) && v
            == Value::List(Seq::empty()),
        roundtrip::decoded(roundtrip::map_bytes(0, more)) matches Parse::Done(v, _) && v
            == Value::Dict(Seq::empty()),
{
    roundtrip::lemma_list_decoded(0, more);
    roundtrip::lemma_map_decoded(0, more);
}

/// A list of one type is a count and then its items, each read where the one before ended.
pub proof fn law_list_decoded<'a, T: Decode>(
    buf: &mut Buf<'a>,
    r: Option<Result<Vec<T>, ProtocolError>>,
)
    requires
        call_ensures(<Vec<T> as Decode>::try_decode_from, (buf,), r),
    ensures
        old(buf).at() + 4 > old(buf).bytes().len() ==> r is None,
        r matches Some(Ok(x)) ==> x@.len() == little_endian(
            old(buf).bytes(),
            old(buf).at() as int,
        ),
{
    let b = old(buf).bytes();
    let at = old(buf).at();
    if at + 4 <= b.len() {
        let n = little_endian(b, at as int) as nat;
        lemma_items_len::<T>(b, at + 4, n);
        if let Some(Ok(x)) = r {
            assert(x.deep_view().len() == x@.len());
        }
    }
}

proof fn lemma_items_len<T: Decode>(bytes: Seq<u8>, at: nat, n: nat)
    ensures
        wire::parse_items::<T>(bytes, at, n) matches Parse::Done(items, _) ==> items.len() == n,
    decreases n,
{
    if n > 0 {
        if let Parse::Done(_, used) = T::parse(bytes, at) {
            lemma_items_len::<T>(bytes, at + used, (n - 1) as nat);
        }
    }
}

} // verus!
