//! Values as they are printed, on one line, in the texts of errors.
use crate::protocol::value;
use crate::protocol::value::{AnyValue, Value, ValueMap};
use crate::text;
use vstd::prelude::*;
use vstd::string::StringExecFns;

verus! {

/// A string as `str`'s `Debug` prints it.
pub uninterp spec fn quoted_text(s: Seq<char>) -> Seq<char>;

/// `str`'s `Debug`: the string in double quotes, some of its characters escaped. Which ones, and
/// how, is not stated.
#[verifier::external_body]
fn quoted(s: &str) -> (r: String)
    ensures
        r@ == quoted_text(s@),
{
    format!("{:?}", s)
}

/// What stands before item number `i` of a list.
pub open spec fn separator(i: nat) -> Seq<char> {
    if i == 0 {
        Seq::empty()
    } else {
        ", "@
    }
}

/// A value as it is printed: its kind, and in brackets what it holds.
pub open spec fn value_text(v: Value) -> Seq<char>
    decreases v, 0nat,
{
    match v {
        Value::Null => "Null"@,
        Value::Bool(b) => "Bool("@ + text::bool_text(b) + ")"@,
        Value::U32(u) => "U32("@ + text::decimal(u as nat) + ")"@,
        Value::Text(s) => "String("@ + quoted_text(s) + ")"@,
        Value::Bytes(b) => "Bytes(["@ + bytes_text(b, b.len()) + "])"@,
        Value::List(items) => "Vec(["@ + items_text(items, items.len()) + "])"@,
        Value::Dict(entries) => "Map({"@ + entries_text(entries, entries.len()) + "})"@,
    }
}

/// The first `n` bytes, as numbers.
pub open spec fn bytes_text(bytes: Seq<u8>, n: nat) -> Seq<char>
    decreases n,
{
    if n == 0 {
        Seq::empty()
    } else {
        bytes_text(bytes, (n - 1) as nat) + separator((n - 1) as nat) + text::decimal(
            bytes[n - 1] as nat,
        )
    }
}

/// The first `n` items.
pub open spec fn items_text(items: Seq<Value>, n: nat) -> Seq<char>
    decreases items, n,
{
    if n == 0 || n > items.len() {
        Seq::empty()
    } else {
        items_text(items, (n - 1) as nat) + separator((n - 1) as nat) + value_text(items[n - 1])
    }
}

/// The first `n` entries.
pub open spec fn entries_text(entries: Seq<(Seq<char>, Value)>, n: nat) -> Seq<char>
    decreases entries, n,
{
    if n == 0 || n > entries.len() {
        Seq::empty()
    } else {
        entries_text(entries, (n - 1) as nat) + separator((n - 1) as nat) + quoted_text(
            entries[n - 1].0,
        ) + ": "@ + value_text(entries[n - 1].1)
    }
}

/// `text` between `before` and `after`.
fn enclosed(before: &str, text: &str, after: &str) -> (r: String)
    ensures
        r@ == before@ + text@ + after@,
{
    let mut r: String = before.to_owned();
    r.append(text);
    r.append(after);
    r
}

/// Appends what stands before item number `i` of a list.
fn separate(text: &mut String, i: usize)
    ensures
        final(text)@ == old(text)@ + separator(i as nat),
{
    if i != 0 {
        text.append(", ");
    } else {
        assert(text@ =~= old(text)@ + separator(i as nat));
    }
}

fn print_bytes(bytes: &Vec<u8>) -> (r: String)
    ensures
        r@ == bytes_text(bytes@, bytes@.len()),
{
    let mut r: String = String::new();
    assert(r@ =~= bytes_text(bytes@, 0));
    for i in 0..bytes.len()
        invariant
            r@ == bytes_text(bytes@, i as nat),
    {
        separate(&mut r, i);
        r.append(text::u32_to_string(bytes[i] as u32).as_str());
    }
    r
}

/// Prints a value.
pub fn print_value(v: &AnyValue) -> (r: String)
    ensures
        r@ == value_text(v@),
    decreases v@, 1nat,
{
    match v {
        AnyValue::Null => "Null".to_owned(),
        AnyValue::Bool(b) => enclosed("Bool(", text::bool_to_string(*b).as_str(), ")"),
        AnyValue::U32(u) => enclosed("U32(", text::u32_to_string(*u).as_str(), ")"),
        AnyValue::String(s) => enclosed("String(", quoted(s.as_str()).as_str(), ")"),
        AnyValue::Bytes(b) => enclosed("Bytes([", print_bytes(b).as_str(), "])"),
        AnyValue::Vec(items) => {
            let ghost all = value::models(items@);
            let mut r: String = String::new();
            assert(r@ =~= items_text(all, 0));
            for i in 0..items.len()
                invariant
                    v@ == Value::List(all),
                    all == value::models(items@),
                    r@ == items_text(all, i as nat),
            {
                assert(all[i as int] == items@[i as int]@);
                assert(decreases_to!(v@ => v@->List_0));
                assert(decreases_to!(v@->List_0 => v@->List_0[i as int]));
                separate(&mut r, i);
                r.append(print_value(&items[i]).as_str());
            }
            enclosed("Vec([", r.as_str(), "])")
        },
        AnyValue::Mapping(m) => print_map(m),
    }
}

fn print_map(m: &ValueMap) -> (r: String)
    ensures
        r@ == value_text(Value::Dict(m@)),
    decreases Value::Dict(m@), 0nat,
{
    let entries = m.entries();
    let ghost v = Value::Dict(m@);
    let mut r: String = String::new();
    assert(r@ =~= entries_text(m@, 0));
    for i in 0..entries.len()
        invariant
            v == Value::Dict(m@),
            entries@.len() == m@.len(),
            forall|j: int|
                0 <= j < entries@.len() ==> m@[j] == (
                    (#[trigger] entries@[j]).0@,
                    entries@[j].1@,
                ),
            r@ == entries_text(m@, i as nat),
    {
        proof {
            assert(m@[i as int] == (entries@[i as int].0@, entries@[i as int].1@));
            assert(decreases_to!(v => v->Dict_0));
            assert(decreases_to!(v->Dict_0 => v->Dict_0[i as int]));
            assert(decreases_to!(v->Dict_0[i as int] => v->Dict_0[i as int].1));
        }
        separate(&mut r, i);
        r.append(quoted(entries[i].0.as_str()).as_str());
        r.append(": ");
        r.append(print_value(entries[i].1).as_str());
    }
    enclosed("Map({", r.as_str(), "})")
}

} // verus!
