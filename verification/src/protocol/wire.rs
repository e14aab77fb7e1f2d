//! Decoding of packets.
//!
//! Every value starts with a one-byte tag; lengths and integers are four bytes, the low byte
//! first. `parse_*` say what is decoded at a position of a byte sequence and how many bytes that
//! takes; the functions that do it follow a cursor, [`Buf`].
use crate::protocol::error::{Fault, ProtocolError};
use crate::protocol::value;
use crate::protocol::value::{AnyValue, Value, ValueMap};
use vstd::prelude::*;

verus! {

/// What decoding at a position comes to.
#[verifier::ext_equal]
pub enum Parse<T> {
    /// The value that is there, and the number of bytes it takes.
    Done(T, nat),
    /// The failure, and the number of bytes read up to it.
    Failed(Fault, nat),
    /// The bytes end too early.
    Short,
}

impl<T> Parse<T> {
    /// The same outcome with `f` applied to the value, where `before` bytes were read already.
    pub open spec fn mapped<U>(self, f: spec_fn(T) -> U, before: nat) -> Parse<U> {
        match self {
            Parse::Done(v, used) => Parse::Done(f(v), before + used),
            Parse::Failed(fault, used) => Parse::Failed(fault, before + used),
            Parse::Short => Parse::Short,
        }
    }

    /// The number of bytes that were read; 0 where they ended too early.
    pub open spec fn used(self) -> nat {
        match self {
            Parse::Done(_, used) => used,
            Parse::Failed(_, used) => used,
            Parse::Short => 0,
        }
    }
}

/// The four bytes at `at`, the low byte first, as an integer.
pub open spec fn le_u32(bytes: Seq<u8>, at: int) -> int {
    bytes[at] + 0x100 * bytes[at + 1] + 0x1_0000 * bytes[at + 2] + 0x100_0000 * bytes[at + 3]
}

pub open spec fn parse_u8(bytes: Seq<u8>, at: nat) -> Parse<u8> {
    if at < bytes.len() {
        Parse::Done(bytes[at as int], 1)
    } else {
        Parse::Short
    }
}

pub open spec fn parse_u32(bytes: Seq<u8>, at: nat) -> Parse<u32> {
    if at + 4 <= bytes.len() {
        Parse::Done(le_u32(bytes, at as int) as u32, 4)
    } else {
        Parse::Short
    }
}

/// Only the byte 1 is `true`.
pub open spec fn parse_bool(bytes: Seq<u8>, at: nat) -> Parse<bool> {
    parse_u8(bytes, at).mapped(|b: u8| b == 1, 0)
}

/// A length, then that many bytes.
pub open spec fn parse_bytes(bytes: Seq<u8>, at: nat) -> Parse<Seq<u8>> {
    match parse_u32(bytes, at) {
        Parse::Done(n, _) if at + 4 + n <= bytes.len() => Parse::Done(
            bytes.subrange(at + 4int, at + 4int + n),
            (4 + n) as nat,
        ),
        _ => Parse::Short,
    }
}

/// Bytes with their length that are the UTF-8 encoding of the string.
pub open spec fn parse_string(bytes: Seq<u8>, at: nat) -> Parse<Seq<char>> {
    match parse_bytes(bytes, at) {
        Parse::Done(b, used) if !vstd::utf8::valid_utf8(b) => Parse::Failed(
            Fault::UndecodableString(utf8_reason(b)),
            used,
        ),
        parsed => parsed.mapped(|b: Seq<u8>| vstd::utf8::decode_utf8(b), 0),
    }
}

/// The number of bytes from `at` on.
pub open spec fn bytes_left(bytes: Seq<u8>, at: nat) -> nat {
    if at <= bytes.len() {
        (bytes.len() - at) as nat
    } else {
        0
    }
}

/// A tag, then what the tag announces.
pub open spec fn parse_value(bytes: Seq<u8>, at: nat) -> Parse<Value>
    decreases bytes_left(bytes, at), 0nat,
{
    if at >= bytes.len() {
        Parse::Short
    } else {
        let tag = bytes[at as int];
        if tag == 0 {
            Parse::Done(Value::Null, 1)
        } else if tag == 1 {
            parse_bool(bytes, at + 1).mapped(|b: bool| Value::Bool(b), 1)
        } else if tag == 2 {
            parse_u32(bytes, at + 1).mapped(|u: u32| Value::U32(u), 1)
        } else if tag == 3 {
            parse_string(bytes, at + 1).mapped(|s: Seq<char>| Value::Text(s), 1)
        } else if tag == 4 {
            parse_bytes(bytes, at + 1).mapped(|b: Seq<u8>| Value::Bytes(b), 1)
        } else if tag == 5 {
            parse_list(bytes, at + 1).mapped(|items: Seq<Value>| Value::List(items), 1)
        } else if tag == 6 {
            parse_map(bytes, at + 1).mapped(
                |entries: Seq<(Seq<char>, Value)>| Value::Dict(entries),
                1,
            )
        } else {
            Parse::Failed(Fault::InvalidTag(tag), 1)
        }
    }
}

/// A count, then that many values.
pub open spec fn parse_list(bytes: Seq<u8>, at: nat) -> Parse<Seq<Value>>
    decreases bytes_left(bytes, at), 1nat,
{
    match parse_u32(bytes, at) {
        Parse::Done(n, _) => parse_values(bytes, at + 4, n as nat).mapped(
            |items: Seq<Value>| items,
            4,
        ),
        _ => Parse::Short,
    }
}

/// A count, then that many keys, each with its value after it.
pub open spec fn parse_map(bytes: Seq<u8>, at: nat) -> Parse<Seq<(Seq<char>, Value)>>
    decreases bytes_left(bytes, at), 1nat,
{
    match parse_u32(bytes, at) {
        Parse::Done(n, _) => parse_entries(bytes, at + 4, n as nat, Seq::empty()).mapped(
            |entries: Seq<(Seq<char>, Value)>| entries,
            4,
        ),
        _ => Parse::Short,
    }
}

/// `n` values, one after the other.
pub open spec fn parse_values(bytes: Seq<u8>, at: nat, n: nat) -> Parse<Seq<Value>>
    decreases bytes_left(bytes, at), n + 1,
{
    if n == 0 {
        Parse::Done(Seq::empty(), 0)
    } else {
        match parse_value(bytes, at) {
            Parse::Done(v, used) => parse_values(bytes, at + used, (n - 1) as nat).mapped(
                |rest: Seq<Value>| seq![v] + rest,
                used,
            ),
            Parse::Failed(f, used) => Parse::Failed(f, used),
            Parse::Short => Parse::Short,
        }
    }
}

/// `n` keys, each with its value after it, stored one after the other into `entries`.
pub open spec fn parse_entries(
    bytes: Seq<u8>,
    at: nat,
    n: nat,
    entries: Seq<(Seq<char>, Value)>,
) -> Parse<Seq<(Seq<char>, Value)>>
    decreases bytes_left(bytes, at), n + 1,
{
    if n == 0 {
        Parse::Done(entries, 0)
    } else {
        match parse_string(bytes, at) {
            Parse::Done(key, k) => match parse_value(bytes, at + k) {
                Parse::Done(v, used) => parse_entries(
                    bytes,
                    at + k + used,
                    (n - 1) as nat,
                    value::put(entries, key, v),
                ).mapped(|all: Seq<(Seq<char>, Value)>| all, k + used),
                Parse::Failed(f, used) => Parse::Failed(f, k + used),
                Parse::Short => Parse::Short,
            },
            Parse::Failed(f, used) => Parse::Failed(f, used),
            Parse::Short => Parse::Short,
        }
    }
}

/// The model of an [`AnyPacket`].
pub struct PacketModel {
    pub id: u32,
    pub is_request: bool,
    pub value: Value,
}

/// Twice the packet's number, plus one for a response; then the value. What follows is ignored.
pub open spec fn parse_packet(bytes: Seq<u8>, at: nat) -> Parse<PacketModel> {
    match parse_u32(bytes, at) {
        Parse::Done(raw, _) => parse_value(bytes, at + 4).mapped(
            |v: Value| PacketModel { id: raw / 2, is_request: raw % 2 == 0, value: v },
            4,
        ),
        _ => Parse::Short,
    }
}

/// A position in a byte sequence, from which values are read one after the other.
#[derive(Debug, Clone)]
pub struct Buf<'a> {
    buf: &'a [u8],
    idx: usize,
}

impl<'a> Buf<'a> {
    /// All the bytes, those already read among them.
    pub closed spec fn bytes(&self) -> Seq<u8> {
        self.buf@
    }

    /// The position of the next byte.
    pub closed spec fn at(&self) -> nat {
        self.idx as nat
    }

    /// The start of `buf`.
    pub fn new(buf: &'a [u8]) -> (r: Self)
        ensures
            r.bytes() == buf@,
            r.at() == 0,
    {
        Self { buf, idx: 0 }
    }

    /// Whether `n` more bytes are there.
    fn has(&self, n: usize) -> (r: bool)
        ensures
            r == (self.at() + n <= self.bytes().len()),
    {
        self.idx <= self.buf.len() && n <= self.buf.len() - self.idx
    }

    /// Reads the next byte.
    pub fn read_u8(&mut self) -> (value: u8)
        requires
            old(self).at() < old(self).bytes().len(),
        ensures
            final(self).bytes() == old(self).bytes(),
            final(self).at() == old(self).at() + 1,
            value == old(self).bytes()[old(self).at() as int],
    {
        let value: u8 = self.buf[self.idx];
        self.idx += 1;
        value
    }

    /// Reads the next `n` bytes into `into`.
    pub fn read_n(&mut self, n: usize, into: &mut [u8])
        requires
            old(self).at() + n <= old(self).bytes().len(),
            old(into)@.len() == n,
        ensures
            final(self).bytes() == old(self).bytes(),
            final(self).at() == old(self).at() + n,
            final(into)@ == old(self).bytes().subrange(
                old(self).at() as int,
                old(self).at() + n,
            ),
    {
        let total: usize = self.buf.len();
        for i in 0..n
            invariant
                into@.len() == n,
                total == self.buf@.len(),
                self.idx + n <= total,
                forall|j: int| 0 <= j < i ==> #[trigger] into@[j] == self.buf@[self.idx + j],
        {
            into[i] = self.buf[self.idx + i];
        }
        assert(into@ =~= self.buf@.subrange(self.idx as int, self.idx + n));
        self.idx += n;
    }

    /// Reads the next four bytes, the low byte first.
    pub fn read_u32(&mut self) -> (value: u32)
        requires
            old(self).at() + 4 <= old(self).bytes().len(),
        ensures
            final(self).bytes() == old(self).bytes(),
            final(self).at() == old(self).at() + 4,
            value == le_u32(old(self).bytes(), old(self).at() as int),
    {
        let i: usize = self.idx;
        let value: u32 = self.buf[i] as u32 + 0x100 * (self.buf[i + 1] as u32) + 0x1_0000 * (
        self.buf[i + 2] as u32) + 0x100_0000 * (self.buf[i + 3] as u32);
        self.idx += 4;
        value
    }
}

/// A type whose values can be read from bytes.
///
/// Reading past the end of the bytes is no failure that can be reported: [`Decode::decode_from`]
/// must not be called where [`Decode::parse`] is `Short`. [`Decode::try_decode_from`] can.
pub trait Decode: DeepView + Sized {
    /// What stands at position `at` of `bytes`.
    spec fn parse(bytes: Seq<u8>, at: nat) -> Parse<Self::V>;

    /// Reads a value, or gives `None` if the bytes end too early.
    fn try_decode_from<'a>(buf: &mut Buf<'a>) -> (r: Option<Result<Self, ProtocolError>>)
        ensures
            final(buf).bytes() == old(buf).bytes(),
            match Self::parse(old(buf).bytes(), old(buf).at()) {
                Parse::Done(v, used) => {
                    &&& r matches Some(Ok(x)) && x.deep_view() == v
                    &&& final(buf).at() == old(buf).at() + used
                },
                Parse::Failed(f, used) => {
                    &&& r matches Some(Err(e)) && e@ == f
                    &&& final(buf).at() == old(buf).at() + used
                },
                Parse::Short => r is None,
            },
    ;

    /// Reads a value.
    fn decode_from<'a>(buf: &mut Buf<'a>) -> (r: Result<Self, ProtocolError>)
        requires
            Self::parse(old(buf).bytes(), old(buf).at()) !is Short,
        ensures
            final(buf).bytes() == old(buf).bytes(),
            match Self::parse(old(buf).bytes(), old(buf).at()) {
                Parse::Done(v, used) => {
                    &&& r matches Ok(x) && x.deep_view() == v
                    &&& final(buf).at() == old(buf).at() + used
                },
                Parse::Failed(f, used) => {
                    &&& r matches Err(e) && e@ == f
                    &&& final(buf).at() == old(buf).at() + used
                },
                Parse::Short => true,
            },
    {
        Self::try_decode_from(buf).unwrap()
    }
}

impl Decode for bool {
    open spec fn parse(bytes: Seq<u8>, at: nat) -> Parse<bool> {
        parse_bool(bytes, at)
    }

    fn try_decode_from<'a>(buf: &mut Buf<'a>) -> (r: Option<Result<Self, ProtocolError>>) {
        if buf.has(1) {
            Some(Ok(buf.read_u8() == 1))
        } else {
            None
        }
    }
}

impl Decode for u32 {
    open spec fn parse(bytes: Seq<u8>, at: nat) -> Parse<u32> {
        parse_u32(bytes, at)
    }

    fn try_decode_from<'a>(buf: &mut Buf<'a>) -> (r: Option<Result<Self, ProtocolError>>) {
        if buf.has(4) {
            Some(Ok(buf.read_u32()))
        } else {
            None
        }
    }
}

/// Why `String::from_utf8` refuses bytes that are not UTF-8, as its error is displayed.
pub uninterp spec fn utf8_reason(bytes: Seq<u8>) -> Seq<char>;

/// `String::from_utf8`: the string whose UTF-8 encoding the bytes are, if they are one, and the
/// text of the error if not.
#[verifier::external_body]
pub(crate) fn string_from_utf8(bytes: Vec<u8>) -> (r: Result<String, String>)
    ensures
        match r {
            Ok(s) => vstd::utf8::valid_utf8(bytes@) && s@ == vstd::utf8::decode_utf8(bytes@),
            Err(reason) => !vstd::utf8::valid_utf8(bytes@) && reason@ == utf8_reason(bytes@),
        },
{
    match String::from_utf8(bytes) {
        Ok(s) => Ok(s),
        Err(e) => Err(e.to_string()),
    }
}

/// Reads a length and that many bytes.
fn read_length_delimited<'a>(buf: &mut Buf<'a>) -> (r: Option<Vec<u8>>)
    ensures
        final(buf).bytes() == old(buf).bytes(),
        match parse_bytes(old(buf).bytes(), old(buf).at()) {
            Parse::Done(b, used) => {
                &&& r matches Some(x) && x@ == b
                &&& final(buf).at() == old(buf).at() + used
            },
            _ => r is None,
        },
{
    if !buf.has(4) {
        return None;
    }
    let length: usize = buf.read_u32() as usize;
    if !buf.has(length) {
        return None;
    }
    let mut read: Vec<u8> = vec![0; length];
    buf.read_n(length, &mut read);
    Some(read)
}

impl Decode for String {
    open spec fn parse(bytes: Seq<u8>, at: nat) -> Parse<Seq<char>> {
        parse_string(bytes, at)
    }

    fn try_decode_from<'a>(buf: &mut Buf<'a>) -> (r: Option<Result<Self, ProtocolError>>) {
        match read_length_delimited(buf) {
            Some(bytes) => match string_from_utf8(bytes) {
                Ok(s) => Some(Ok(s)),
                Err(reason) => Some(Err(ProtocolError::UndecodableString(reason))),
            },
            None => None,
        }
    }
}

impl Decode for Vec<u8> {
    open spec fn parse(bytes: Seq<u8>, at: nat) -> Parse<Seq<u8>> {
        parse_bytes(bytes, at)
    }

    fn try_decode_from<'a>(buf: &mut Buf<'a>) -> (r: Option<Result<Self, ProtocolError>>) {
        match read_length_delimited(buf) {
            Some(bytes) => {
                assert(bytes.deep_view() =~= bytes@);
                Some(Ok(bytes))
            },
            None => None,
        }
    }
}

/// `n` values of a type, one after the other.
pub open spec fn parse_items<T: Decode>(bytes: Seq<u8>, at: nat, n: nat) -> Parse<Seq<T::V>>
    decreases n,
{
    if n == 0 {
        Parse::Done(Seq::empty(), 0)
    } else {
        match T::parse(bytes, at) {
            Parse::Done(v, used) => parse_items::<T>(bytes, at + used, (n - 1) as nat).mapped(
                |rest: Seq<T::V>| seq![v] + rest,
                used,
            ),
            Parse::Failed(f, used) => Parse::Failed(f, used),
            Parse::Short => Parse::Short,
        }
    }
}

impl<T: Decode> Decode for Vec<T> {
    /// A count, then that many items.
    open spec fn parse(bytes: Seq<u8>, at: nat) -> Parse<Seq<T::V>> {
        match parse_u32(bytes, at) {
            Parse::Done(n, _) => parse_items::<T>(bytes, at + 4, n as nat).mapped(
                |items: Seq<T::V>| items,
                4,
            ),
            _ => Parse::Short,
        }
    }

    fn try_decode_from<'a>(buf: &mut Buf<'a>) -> (r: Option<Result<Self, ProtocolError>>) {
        if !buf.has(4) {
            return None;
        }
        let count: u32 = buf.read_u32();
        let ghost bytes = buf.bytes();
        let ghost start = buf.at();
        let ghost whole = parse_items::<T>(bytes, start, count as nat);
        let mut items: Vec<T> = Vec::new();
        assert(items.deep_view() =~= Seq::empty());
        for i in 0..count
            invariant
                buf.bytes() == bytes,
                bytes == old(buf).bytes(),
                start == old(buf).at() + 4,
                parse_u32(bytes, old(buf).at()) == Parse::Done(count, 4),
                whole == parse_items::<T>(bytes, start, count as nat),
                start <= buf.at(),
                whole == parse_items::<T>(bytes, buf.at(), (count - i) as nat).mapped(
                    |rest: Seq<T::V>| items.deep_view() + rest,
                    (buf.at() - start) as nat,
                ),
        {
            let ghost here = buf.at();
            let ghost before = items.deep_view();
            match T::try_decode_from(buf) {
                Some(Ok(item)) => {
                    items.push(item);
                    proof {
                        assert(items.deep_view() =~= before.push(item.deep_view()));
                        let rest = parse_items::<T>(bytes, buf.at(), (count - i - 1) as nat);
                        if let Parse::Done(r, _) = rest {
                            assert(before + (seq![item.deep_view()] + r) =~= items.deep_view() + r);
                        }
                    }
                },
                Some(Err(e)) => {
                    return Some(Err(e));
                },
                None => {
                    return None;
                },
            }
        }
        assert(items.deep_view() + Seq::<T::V>::empty() =~= items.deep_view());
        Some(Ok(items))
    }
}

/// The outcome of reading with a cursor is the one that `parsed` says.
pub open spec fn read_as<T, M>(
    r: Option<Result<T, ProtocolError>>,
    view: spec_fn(T) -> M,
    parsed: Parse<M>,
    before: Buf,
    after: Buf,
) -> bool {
    &&& after.bytes() == before.bytes()
    &&& match parsed {
        Parse::Done(v, used) => {
            &&& r matches Some(Ok(x)) && view(x) == v
            &&& after.at() == before.at() + used
        },
        Parse::Failed(f, used) => {
            &&& r matches Some(Err(e)) && e@ == f
            &&& after.at() == before.at() + used
        },
        Parse::Short => r is None,
    }
}

/// Reads a value.
fn decode_value<'a>(buf: &mut Buf<'a>) -> (r: Option<Result<AnyValue, ProtocolError>>)
    ensures
        read_as(
            r,
            |v: AnyValue| v@,
            parse_value(old(buf).bytes(), old(buf).at()),
            *old(buf),
            *final(buf),
        ),
    decreases bytes_left(old(buf).bytes(), old(buf).at()), 0nat,
{
    if !buf.has(1) {
        return None;
    }
    let tag: u8 = buf.read_u8();
    if tag == 0 {
        Some(Ok(AnyValue::Null))
    } else if tag == 1 {
        match bool::try_decode_from(buf) {
            Some(Ok(b)) => Some(Ok(AnyValue::Bool(b))),
            Some(Err(e)) => Some(Err(e)),
            None => None,
        }
    } else if tag == 2 {
        match u32::try_decode_from(buf) {
            Some(Ok(u)) => Some(Ok(AnyValue::U32(u))),
            Some(Err(e)) => Some(Err(e)),
            None => None,
        }
    } else if tag == 3 {
        match String::try_decode_from(buf) {
            Some(Ok(s)) => Some(Ok(AnyValue::String(s))),
            Some(Err(e)) => Some(Err(e)),
            None => None,
        }
    } else if tag == 4 {
        match read_length_delimited(buf) {
            Some(b) => Some(Ok(AnyValue::Bytes(b))),
            None => None,
        }
    } else if tag == 5 {
        match decode_values(buf) {
            Some(Ok(items)) => Some(Ok(AnyValue::Vec(items))),
            Some(Err(e)) => Some(Err(e)),
            None => None,
        }
    } else if tag == 6 {
        match decode_entries(buf) {
            Some(Ok(m)) => Some(Ok(AnyValue::Mapping(m))),
            Some(Err(e)) => Some(Err(e)),
            None => None,
        }
    } else {
        Some(Err(ProtocolError::InvalidTag(tag)))
    }
}

/// Reads a count and that many values.
fn decode_values<'a>(buf: &mut Buf<'a>) -> (r: Option<Result<Vec<AnyValue>, ProtocolError>>)
    ensures
        read_as(
            r,
            |items: Vec<AnyValue>| value::models(items@),
            parse_list(old(buf).bytes(), old(buf).at()),
            *old(buf),
            *final(buf),
        ),
    decreases bytes_left(old(buf).bytes(), old(buf).at()), 1nat,
{
    if !buf.has(4) {
        return None;
    }
    let count: u32 = buf.read_u32();
    let ghost bytes = buf.bytes();
    let ghost start = buf.at();
    let ghost whole = parse_values(bytes, start, count as nat);
    let mut items: Vec<AnyValue> = Vec::new();
    assert(value::models(items@) =~= Seq::empty());
    for i in 0..count
        invariant
            buf.bytes() == bytes,
            bytes == old(buf).bytes(),
            start == old(buf).at() + 4,
            parse_u32(bytes, old(buf).at()) == Parse::Done(count, 4),
            whole == parse_values(bytes, start, count as nat),
            start <= buf.at(),
            whole == parse_values(bytes, buf.at(), (count - i) as nat).mapped(
                |rest: Seq<Value>| value::models(items@) + rest,
                (buf.at() - start) as nat,
            ),
    {
        let ghost before = value::models(items@);
        match decode_value(buf) {
            Some(Ok(item)) => {
                items.push(item);
                proof {
                    assert(value::models(items@) =~= before.push(item@));
                    let rest = parse_values(bytes, buf.at(), (count - i - 1) as nat);
                    if let Parse::Done(r, _) = rest {
                        assert(before + (seq![item@] + r) =~= value::models(items@) + r);
                    }
                }
            },
            Some(Err(e)) => {
                return Some(Err(e));
            },
            None => {
                return None;
            },
        }
    }
    assert(value::models(items@) + Seq::<Value>::empty() =~= value::models(items@));
    Some(Ok(items))
}

/// Reads a count and that many keys with their values.
fn decode_entries<'a>(buf: &mut Buf<'a>) -> (r: Option<Result<ValueMap, ProtocolError>>)
    ensures
        read_as(
            r,
            |m: ValueMap| m@,
            parse_map(old(buf).bytes(), old(buf).at()),
            *old(buf),
            *final(buf),
        ),
    decreases bytes_left(old(buf).bytes(), old(buf).at()), 1nat,
{
    if !buf.has(4) {
        return None;
    }
    let count: u32 = buf.read_u32();
    let ghost bytes = buf.bytes();
    let ghost start = buf.at();
    let ghost whole = parse_entries(bytes, start, count as nat, Seq::empty());
    let mut map = ValueMap::new();
    for i in 0..count
        invariant
            buf.bytes() == bytes,
            bytes == old(buf).bytes(),
            start == old(buf).at() + 4,
            parse_u32(bytes, old(buf).at()) == Parse::Done(count, 4),
            whole == parse_entries(bytes, start, count as nat, Seq::empty()),
            start <= buf.at(),
            whole == parse_entries(bytes, buf.at(), (count - i) as nat, map@).mapped(
                |all: Seq<(Seq<char>, Value)>| all,
                (buf.at() - start) as nat,
            ),
    {
        let key = match String::try_decode_from(buf) {
            Some(Ok(key)) => key,
            Some(Err(e)) => {
                return Some(Err(e));
            },
            None => {
                return None;
            },
        };
        match decode_value(buf) {
            Some(Ok(v)) => {
                map.insert(key, v);
            },
            Some(Err(e)) => {
                return Some(Err(e));
            },
            None => {
                return None;
            },
        }
    }
    Some(Ok(map))
}

impl Decode for AnyValue {
    open spec fn parse(bytes: Seq<u8>, at: nat) -> Parse<Value> {
        parse_value(bytes, at)
    }

    fn try_decode_from<'a>(buf: &mut Buf<'a>) -> (r: Option<Result<Self, ProtocolError>>) {
        decode_value(buf)
    }
}

impl Decode for ValueMap {
    open spec fn parse(bytes: Seq<u8>, at: nat) -> Parse<Seq<(Seq<char>, Value)>> {
        parse_map(bytes, at)
    }

    fn try_decode_from<'a>(buf: &mut Buf<'a>) -> (r: Option<Result<Self, ProtocolError>>) {
        decode_entries(buf)
    }
}

/// A packet whose value has no fixed type.
#[derive(Debug)]
pub struct AnyPacket {
    pub id: u32,
    pub is_request: bool,
    pub value: AnyValue,
}

impl View for AnyPacket {
    type V = PacketModel;

    open spec fn view(&self) -> PacketModel {
        PacketModel { id: self.id, is_request: self.is_request, value: self.value@ }
    }
}

impl DeepView for AnyPacket {
    type V = PacketModel;

    open spec fn deep_view(&self) -> PacketModel {
        self@
    }
}

impl Clone for AnyPacket {
    fn clone(&self) -> (r: AnyPacket)
        ensures
            r@ == self@,
    {
        AnyPacket { id: self.id, is_request: self.is_request, value: self.value.clone() }
    }
}

impl Decode for AnyPacket {
    open spec fn parse(bytes: Seq<u8>, at: nat) -> Parse<PacketModel> {
        parse_packet(bytes, at)
    }

    fn try_decode_from<'a>(buf: &mut Buf<'a>) -> (r: Option<Result<Self, ProtocolError>>) {
        let raw: u32 = match u32::try_decode_from(buf) {
            Some(Ok(raw)) => raw,
            Some(Err(e)) => {
                return Some(Err(e));
            },
            None => {
                return None;
            },
        };
        let is_request: bool = raw & 1 == 0;
        let id: u32 = raw >> 1;
        assert(raw & 1 == raw % 2) by (bit_vector);
        assert(raw >> 1 == raw / 2) by (bit_vector);
        match decode_value(buf) {
            Some(Ok(value)) => Some(Ok(AnyPacket { id, is_request, value })),
            Some(Err(e)) => Some(Err(e)),
            None => None,
        }
    }
}

/// Decodes the packet at the start of `buf`.
pub fn decode_any_packet(buf: &[u8]) -> (r: Result<AnyPacket, ProtocolError>)
    requires
        parse_packet(buf@, 0) !is Short,
    ensures
        match parse_packet(buf@, 0) {
            Parse::Done(p, _) => r matches Ok(x) && x@ == p,
            Parse::Failed(f, _) => r matches Err(e) && e@ == f,
            Parse::Short => true,
        },
{
    let mut buf = Buf::new(buf);
    AnyPacket::decode_from(&mut buf)
}

/// Decodes the packet at the start of `buf`, or gives `None` if the bytes end too early for
/// [`decode_any_packet`].
pub fn try_decode_any_packet(buf: &[u8]) -> (r: Option<Result<AnyPacket, ProtocolError>>)
    ensures
        match parse_packet(buf@, 0) {
            Parse::Done(p, _) => r matches Some(Ok(x)) && x@ == p,
            Parse::Failed(f, _) => r matches Some(Err(e)) && e@ == f,
            Parse::Short => r is None,
        },
{
    let mut buf = Buf::new(buf);
    AnyPacket::try_decode_from(&mut buf)
}

} // verus!
