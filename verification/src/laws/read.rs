//! What values are read as, field by field.
use crate::protocol::convert;
use crate::protocol::convert::{FromAnyValue, FromMap, MessageFromAnyValue};
use crate::protocol::error::{Fault, ProtocolError};
use crate::protocol::maps;
use crate::protocol::messages::{
    BuildOutputFile, BuildResponse, ImportKind, Location, MangleCacheEntry, MangleModel, Message,
    Note, OnEndRequest, OnLoadRequest, OnResolveRequest, OnStartRequest, PartialMessage,
    RebuildResponse,
};
use crate::protocol::value;
use crate::protocol::value::{AnyValue, Value, ValueMap};
use indexmap::IndexMap;
use vstd::prelude::*;

verus! {

/// `v` is the text `s`, as a string or as the UTF-8 bytes of it.
pub open spec fn says(v: Value, s: Seq<char>) -> bool {
    match v {
        Value::Text(t) => t == s,
        Value::Bytes(b) => vstd::utf8::valid_utf8(b) && vstd::utf8::decode_utf8(b) == s,
        _ => false,
    }
}

/// `v` is a text.
pub open spec fn is_text(v: Value) -> bool {
    v is Text || (v matches Value::Bytes(b) && vstd::utf8::valid_utf8(b))
}

/// The name of a kind of import.
pub open spec fn import_name(kind: ImportKind) -> Seq<char> {
    match kind {
        ImportKind::EntryPoint => "entry-point"@,
        ImportKind::ImportStatement => "import-statement"@,
        ImportKind::RequireCall => "require-call"@,
        ImportKind::DynamicImport => "dynamic-import"@,
        ImportKind::RequireResolve => "require-resolve"@,
        ImportKind::ImportRule => "import-rule"@,
        ImportKind::ComposesFrom => "composes-from"@,
        ImportKind::UrlToken => "url-token"@,
    }
}

/// `v` names a kind of import.
pub open spec fn names_import(v: Value) -> bool {
    exists|kind: ImportKind| v == Value::Text(#[trigger] import_name(kind))
}

/// `v` is a list whose items can be read.
pub open spec fn all_readable(v: Value, readable: spec_fn(Value) -> bool) -> bool {
    v matches Value::List(l) && forall|i: int| 0 <= i < l.len() ==> readable(#[trigger] l[i])
}

/// `v` is a map whose values can be read.
pub open spec fn map_readable(v: Value, readable: spec_fn(Value) -> bool) -> bool {
    v matches Value::Dict(d) && forall|i: int| 0 <= i < d.len() ==> readable((#[trigger] d[i]).1)
}

/// The list holds these numbers.
pub open spec fn numbers_read(v: Value, x: Seq<u32>) -> bool {
    v matches Value::List(l) && l.len() == x.len() && forall|i: int|
        0 <= i < l.len() ==> #[trigger] l[i] == Value::U32(x[i])
}

/// The map holds these texts, under the same keys in the same order.
pub open spec fn strings_read(v: Value, x: IndexMap<String, String>) -> bool {
    v matches Value::Dict(d) && d.len() == maps::string_entries(x).len() && forall|i: int|
        0 <= i < d.len() ==> (#[trigger] d[i]).0 == maps::string_entries(x)[i].0 && says(
            d[i].1,
            maps::string_entries(x)[i].1,
        )
}

/// The map holds these strings and booleans, under the same keys in the same order.
pub open spec fn mangle_cache_read(v: Value, x: IndexMap<String, MangleCacheEntry>) -> bool {
    v matches Value::Dict(d) && d.len() == maps::mangle_entries(x).len() && forall|i: int|
        0 <= i < d.len() ==> (#[trigger] d[i]).0 == maps::mangle_entries(x)[i].0 && d[i].1
            == match maps::mangle_entries(x)[i].1 {
            MangleModel::Text(s) => Value::Text(s),
            MangleModel::Bool(b) => Value::Bool(b),
        }
}

/// The failure where an entry is missing.
pub open spec fn missing(key: Seq<char>) -> Fault {
    Fault::OnKey(key, Box::new(Fault::MissingField(key)))
}

/// The failure of `r` is that the entry under `key` is missing, or that of this entry.
pub open spec fn blames<T>(
    r: Result<T, ProtocolError>,
    m: Seq<(Seq<char>, Value)>,
    key: Seq<char>,
) -> bool {
    match r {
        Ok(_) => false,
        Err(e) => if value::lookup(m, key) is None {
            e@ == missing(key)
        } else {
            e matches ProtocolError::OnKey(k, _) && k@ == key
        },
    }
}

/// Converting the items of a list fails where converting one of them does.
proof fn lemma_first_fault<T: FromAnyValue>(items: Seq<Value>)
    ensures
        convert::first_fault::<T>(items) is None <==> forall|i: int|
            0 <= i < items.len() ==> T::fault(#[trigger] items[i]) is None,
    decreases items.len(),
{
    if items.len() > 0 {
        let rest = items.drop_first();
        lemma_first_fault::<T>(rest);
        if convert::first_fault::<T>(items) is None {
            assert forall|i: int| 0 <= i < items.len() implies T::fault(
                #[trigger] items[i],
            ) is None by {
                if i > 0 {
                    assert(rest[i - 1] == items[i]);
                }
            }
        } else if T::fault(items[0]) is None {
            let j = choose|j: int| 0 <= j < rest.len() && T::fault(#[trigger] rest[j]) is Some;
            assert(rest[j] == items[j + 1]);
        }
    }
}

/// Converting the values of a map fails where converting one of them does.
proof fn lemma_first_entry_fault<T: FromAnyValue>(entries: Seq<(Seq<char>, Value)>)
    ensures
        convert::first_entry_fault::<T>(entries) is None <==> forall|i: int|
            0 <= i < entries.len() ==> T::fault((#[trigger] entries[i]).1) is None,
    decreases entries.len(),
{
    if entries.len() > 0 {
        let rest = entries.drop_first();
        lemma_first_entry_fault::<T>(rest);
        if convert::first_entry_fault::<T>(entries) is None {
            assert forall|i: int| 0 <= i < entries.len() implies T::fault(
                (#[trigger] entries[i]).1,
            ) is None by {
                if i > 0 {
                    assert(rest[i - 1] == entries[i]);
                }
            }
        } else if T::fault(entries[0].1) is None {
            let j = choose|j: int|
                0 <= j < rest.len() && T::fault((#[trigger] rest[j]).1) is Some;
            assert(rest[j] == entries[j + 1]);
        }
    }
}

proof fn lemma_names_import(v: Value)
    ensures
        ImportKind::fault(v) is None <==> names_import(v),
        forall|x: ImportKind| #[trigger] x.represents(v) ==> v == Value::Text(import_name(x)),
{
    if let Value::Text(s) = v {
        if let Some(kind) = convert::import_kind_named(s) {
            assert(import_name(kind) == s);
        }
    }
    if names_import(v) {
        let kind = choose|kind: ImportKind| v == Value::Text(#[trigger] import_name(kind));
        assert(convert::import_kind_named(import_name(kind)) is Some);
    }
}

proof fn lemma_numbers_read(v: Value, x: Vec<u32>)
    ensures
        Vec::<u32>::fault(v) is None <==> all_readable(v, |w: Value| w is U32),
        x.represents(v) ==> numbers_read(v, x@),
{
    if let Value::List(l) = v {
        lemma_first_fault::<u32>(l);
    }
    if x.represents(v) {
        if let Value::List(l) = v {
            assert forall|i: int| 0 <= i < l.len() implies #[trigger] l[i] == Value::U32(
                x@[i],
            ) by {
                assert(x@[i].represents(l[i]));
            }
        }
    }
}

proof fn lemma_strings_read(v: Value, x: IndexMap<String, String>)
    ensures
        IndexMap::<String, String>::fault(v) is None <==> map_readable(v, |w: Value| is_text(w)),
        x.represents(v) ==> strings_read(v, x),
{
    if let Value::Dict(d) = v {
        lemma_first_entry_fault::<String>(d);
        if x.represents(v) {
            assert forall|i: int| 0 <= i < d.len() implies (#[trigger] d[i]).0
                == maps::string_entries(x)[i].0 && says(
                d[i].1,
                maps::string_entries(x)[i].1,
            ) by {
                assert(maps::string_entries(x)[i].0 == d[i].0);
            }
        }
    }
}

proof fn lemma_mangle_cache_read(v: Value, x: IndexMap<String, MangleCacheEntry>)
    ensures
        IndexMap::<String, MangleCacheEntry>::fault(v) is None <==> map_readable(
            v,
            |w: Value| w is Text || w is Bool,
        ),
        x.represents(v) ==> mangle_cache_read(v, x),
{
    if let Value::Dict(d) = v {
        lemma_first_entry_fault::<MangleCacheEntry>(d);
    }
}

/// `x` holds what the map `v` holds: each field is what stands under its name.
pub open spec fn location_read(v: Value, x: Location) -> bool {
    &&& v matches Value::Dict(m)
    &&& value::lookup(m, "file"@) matches Some(f) && says(f, x.file@)
    &&& value::lookup(m, "namespace"@) matches Some(f) && says(f, x.namespace@)
    &&& value::lookup(m, "line"@) matches Some(f) && f == Value::U32(x.line)
    &&& value::lookup(m, "column"@) matches Some(f) && f == Value::U32(x.column)
    &&& value::lookup(m, "length"@) matches Some(f) && f == Value::U32(x.length)
    &&& value::lookup(m, "lineText"@) matches Some(f) && says(f, x.line_text@)
    &&& value::lookup(m, "suggestion"@) matches Some(f) && says(f, x.suggestion@)
}

/// The first `n` fields are there, as far as they must be, each of them of its kind.
pub open spec fn location_good(m: Seq<(Seq<char>, Value)>, n: int) -> bool {
    &&& n > 0 ==> (value::lookup(m, "file"@) matches Some(f) && is_text(f))
    &&& n > 1 ==> (value::lookup(m, "namespace"@) matches Some(f) && is_text(f))
    &&& n > 2 ==> (value::lookup(m, "line"@) matches Some(f) && f is U32)
    &&& n > 3 ==> (value::lookup(m, "column"@) matches Some(f) && f is U32)
    &&& n > 4 ==> (value::lookup(m, "length"@) matches Some(f) && f is U32)
    &&& n > 5 ==> (value::lookup(m, "lineText"@) matches Some(f) && is_text(f))
    &&& n > 6 ==> (value::lookup(m, "suggestion"@) matches Some(f) && is_text(f))
}

/// `v` is a map with every field that there must be, each of them of its kind.
pub open spec fn location_readable(v: Value) -> bool {
    v matches Value::Dict(m) && location_good(m, 7)
}

pub proof fn lemma_location_read(v: Value, x: Location)
    ensures
        Location::fault(v) is None <==> location_readable(v),
        x.represents(v) ==> location_read(v, x),
{
    if let Value::Dict(m) = v {
    }
}

/// A map is read as one exactly where it holds every field that there must be, each of its kind,
/// and each field is then what stands under its name. Else the first field that is missing or
/// not of its kind is named.
pub proof fn law_location_read(map: ValueMap, r: Result<Location, ProtocolError>)
    requires
        call_ensures(<Location as FromMap>::from_map, (&map,), r),
    ensures
        r is Ok <==> location_readable(Value::Dict(map@)),
        r matches Ok(x) ==> location_read(Value::Dict(map@), x),
        location_good(map@, 0) && !location_good(map@, 1) ==> blames(
            r,
            map@,
            "file"@,
        ),
        location_good(map@, 1) && !location_good(map@, 2) ==> blames(
            r,
            map@,
            "namespace"@,
        ),
        location_good(map@, 2) && !location_good(map@, 3) ==> blames(
            r,
            map@,
            "line"@,
        ),
        location_good(map@, 3) && !location_good(map@, 4) ==> blames(
            r,
            map@,
            "column"@,
        ),
        location_good(map@, 4) && !location_good(map@, 5) ==> blames(
            r,
            map@,
            "length"@,
        ),
        location_good(map@, 5) && !location_good(map@, 6) ==> blames(
            r,
            map@,
            "lineText"@,
        ),
        location_good(map@, 6) && !location_good(map@, 7) ==> blames(
            r,
            map@,
            "suggestion"@,
        ),
{
    let m = map@;
    let v = Value::Dict(m);
    let x: Location = match r {
        Ok(x) => x,
        Err(_) => arbitrary(),
    };
    lemma_location_read(v, x);
}

/// `x` holds what the map `v` holds: each field is what stands under its name.
pub open spec fn note_read(v: Value, x: Note) -> bool {
    &&& v matches Value::Dict(m)
    &&& value::lookup(m, "text"@) matches Some(f) && says(f, x.text@)
    &&& match value::lookup(m, "location"@) {
        None => x.location is None,
        Some(Value::Null) => x.location is None,
        Some(f) => x.location matches Some(y) && location_read(f, y),
    }
}

/// The first `n` fields are there, as far as they must be, each of them of its kind.
pub open spec fn note_good(m: Seq<(Seq<char>, Value)>, n: int) -> bool {
    &&& n > 0 ==> (value::lookup(m, "text"@) matches Some(f) && is_text(f))
    &&& n > 1 ==> (value::lookup(m, "location"@) matches Some(f) ==> f is Null || location_readable(f))
}

/// `v` is a map with every field that there must be, each of them of its kind.
pub open spec fn note_readable(v: Value) -> bool {
    v matches Value::Dict(m) && note_good(m, 2)
}

pub proof fn lemma_note_read(v: Value, x: Note)
    ensures
        Note::fault(v) is None <==> note_readable(v),
        x.represents(v) ==> note_read(v, x),
{
    if let Value::Dict(m) = v {
        if let Some(f) = value::lookup(m, "location"@) {
            if let Some(y) = x.location {
                lemma_location_read(f, y);
            } else {
                let y: Location = arbitrary();
                lemma_location_read(f, y);
            }
        }
    }
}

/// The list holds these.
pub open spec fn notes_read(v: Value, x: Seq<Note>) -> bool {
    v matches Value::List(l) && l.len() == x.len() && forall|i: int|
        0 <= i < l.len() ==> note_read(#[trigger] l[i], x[i])
}

proof fn lemma_notes_read(v: Value, x: Vec<Note>)
    ensures
        Vec::<Note>::fault(v) is None <==> all_readable(v, |w: Value| note_readable(w)),
        x.represents(v) ==> notes_read(v, x@),
{
    if let Value::List(l) = v {
        lemma_first_fault::<Note>(l);
        assert forall|i: int| 0 <= i < l.len() implies (Note::fault(#[trigger] l[i]) is None <==> (
        |w: Value| note_readable(w))(l[i])) by {
            lemma_note_read(l[i], arbitrary());
        }
        if x.represents(v) {
            assert forall|i: int| 0 <= i < l.len() implies note_read(#[trigger] l[i], x@[i]) by {
                assert(x@[i].represents(l[i]));
                lemma_note_read(l[i], x@[i]);
            }
        }
    }
}

/// A map is read as one exactly where it holds every field that there must be, each of its kind,
/// and each field is then what stands under its name. Else the first field that is missing or
/// not of its kind is named.
pub proof fn law_note_read(map: ValueMap, r: Result<Note, ProtocolError>)
    requires
        call_ensures(<Note as FromMap>::from_map, (&map,), r),
    ensures
        r is Ok <==> note_readable(Value::Dict(map@)),
        r matches Ok(x) ==> note_read(Value::Dict(map@), x),
        note_good(map@, 0) && !note_good(map@, 1) ==> blames(
            r,
            map@,
            "text"@,
        ),
{
    let m = map@;
    let v = Value::Dict(m);
    let x: Note = match r {
        Ok(x) => x,
        Err(_) => arbitrary(),
    };
    lemma_note_read(v, x);
        if let Some(f) = value::lookup(m, "location"@) {
            if let Some(y) = x.location {
                lemma_location_read(f, y);
            } else {
                let y: Location = arbitrary();
                lemma_location_read(f, y);
            }
        }
}

/// `x` holds what the map `v` holds: each field is what stands under its name.
pub open spec fn message_read(v: Value, x: Message) -> bool {
    &&& v matches Value::Dict(m)
    &&& value::lookup(m, "id"@) matches Some(f) && says(f, x.id@)
    &&& value::lookup(m, "pluginName"@) matches Some(f) && says(f, x.plugin_name@)
    &&& value::lookup(m, "text"@) matches Some(f) && says(f, x.text@)
    &&& match value::lookup(m, "location"@) {
        None => x.location is None,
        Some(Value::Null) => x.location is None,
        Some(f) => x.location matches Some(y) && location_read(f, y),
    }
    &&& value::lookup(m, "notes"@) matches Some(f) && notes_read(f, x.notes@)
    &&& match value::lookup(m, "detail"@) {
        None => x.detail is None,
        Some(Value::Null) => x.detail is None,
        Some(f) => x.detail matches Some(y) && f == y@,
    }
}

/// The first `n` fields are there, as far as they must be, each of them of its kind.
pub open spec fn message_good(m: Seq<(Seq<char>, Value)>, n: int) -> bool {
    &&& n > 0 ==> (value::lookup(m, "id"@) matches Some(f) && is_text(f))
    &&& n > 1 ==> (value::lookup(m, "pluginName"@) matches Some(f) && is_text(f))
    &&& n > 2 ==> (value::lookup(m, "text"@) matches Some(f) && is_text(f))
    &&& n > 3 ==> (value::lookup(m, "location"@) matches Some(f) ==> f is Null || location_readable(f))
    &&& n > 4 ==> (value::lookup(m, "notes"@) matches Some(f) && all_readable(f, |w: Value| note_readable(w)))
    &&& n > 5 ==> (value::lookup(m, "detail"@) matches Some(f) ==> f is Null || true)
}

/// `v` is a map with every field that there must be, each of them of its kind.
pub open spec fn message_readable(v: Value) -> bool {
    v matches Value::Dict(m) && message_good(m, 6)
}

pub proof fn lemma_message_read(v: Value, x: Message)
    ensures
        Message::fault(v) is None <==> message_readable(v),
        x.represents(v) ==> message_read(v, x),
{
    if let Value::Dict(m) = v {
        if let Some(f) = value::lookup(m, "location"@) {
            if let Some(y) = x.location {
                lemma_location_read(f, y);
            } else {
                let y: Location = arbitrary();
                lemma_location_read(f, y);
            }
        }
        if let Some(f) = value::lookup(m, "notes"@) {
            lemma_notes_read(f, x.notes);
        }
    }
}

/// The list holds these.
pub open spec fn messages_read(v: Value, x: Seq<Message>) -> bool {
    v matches Value::List(l) && l.len() == x.len() && forall|i: int|
        0 <= i < l.len() ==> message_read(#[trigger] l[i], x[i])
}

proof fn lemma_messages_read(v: Value, x: Vec<Message>)
    ensures
        Vec::<Message>::fault(v) is None <==> all_readable(v, |w: Value| message_readable(w)),
        x.represents(v) ==> messages_read(v, x@),
{
    if let Value::List(l) = v {
        lemma_first_fault::<Message>(l);
        assert forall|i: int| 0 <= i < l.len() implies (Message::fault(#[trigger] l[i]) is None <==> (
        |w: Value| message_readable(w))(l[i])) by {
            lemma_message_read(l[i], arbitrary());
        }
        if x.represents(v) {
            assert forall|i: int| 0 <= i < l.len() implies message_read(#[trigger] l[i], x@[i]) by {
                assert(x@[i].represents(l[i]));
                lemma_message_read(l[i], x@[i]);
            }
        }
    }
}

/// A map is read as one exactly where it holds every field that there must be, each of its kind,
/// and each field is then what stands under its name. Else the first field that is missing or
/// not of its kind is named.
pub proof fn law_message_read(map: ValueMap, r: Result<Message, ProtocolError>)
    requires
        call_ensures(<Message as FromMap>::from_map, (&map,), r),
    ensures
        r is Ok <==> message_readable(Value::Dict(map@)),
        r matches Ok(x) ==> message_read(Value::Dict(map@), x),
        message_good(map@, 0) && !message_good(map@, 1) ==> blames(
            r,
            map@,
            "id"@,
        ),
        message_good(map@, 1) && !message_good(map@, 2) ==> blames(
            r,
            map@,
            "pluginName"@,
        ),
        message_good(map@, 2) && !message_good(map@, 3) ==> blames(
            r,
            map@,
            "text"@,
        ),
        message_good(map@, 4) && !message_good(map@, 5) ==> blames(
            r,
            map@,
            "notes"@,
        ),
{
    let m = map@;
    let v = Value::Dict(m);
    let x: Message = match r {
        Ok(x) => x,
        Err(_) => arbitrary(),
    };
    lemma_message_read(v, x);
        if let Some(f) = value::lookup(m, "location"@) {
            if let Some(y) = x.location {
                lemma_location_read(f, y);
            } else {
                let y: Location = arbitrary();
                lemma_location_read(f, y);
            }
        }
        if let Some(f) = value::lookup(m, "notes"@) {
            lemma_notes_read(f, x.notes);
        }
}

/// `x` holds what the map `v` holds: each field is what stands under its name.
pub open spec fn partial_message_read(v: Value, x: PartialMessage) -> bool {
    &&& v matches Value::Dict(m)
    &&& value::lookup(m, "id"@) matches Some(f) && says(f, x.id@)
    &&& value::lookup(m, "pluginName"@) matches Some(f) && says(f, x.plugin_name@)
    &&& value::lookup(m, "text"@) matches Some(f) && says(f, x.text@)
    &&& match value::lookup(m, "location"@) {
        None => x.location is None,
        Some(Value::Null) => x.location is None,
        Some(f) => x.location matches Some(y) && location_read(f, y),
    }
    &&& value::lookup(m, "notes"@) matches Some(f) && notes_read(f, x.notes@)
    &&& value::lookup(m, "detail"@) matches Some(f) && f == Value::U32(x.detail)
}

/// The first `n` fields are there, as far as they must be, each of them of its kind.
pub open spec fn partial_message_good(m: Seq<(Seq<char>, Value)>, n: int) -> bool {
    &&& n > 0 ==> (value::lookup(m, "id"@) matches Some(f) && is_text(f))
    &&& n > 1 ==> (value::lookup(m, "pluginName"@) matches Some(f) && is_text(f))
    &&& n > 2 ==> (value::lookup(m, "text"@) matches Some(f) && is_text(f))
    &&& n > 3 ==> (value::lookup(m, "location"@) matches Some(f) ==> f is Null || location_readable(f))
    &&& n > 4 ==> (value::lookup(m, "notes"@) matches Some(f) && all_readable(f, |w: Value| note_readable(w)))
    &&& n > 5 ==> (value::lookup(m, "detail"@) matches Some(f) && f is U32)
}

/// `v` is a map with every field that there must be, each of them of its kind.
pub open spec fn partial_message_readable(v: Value) -> bool {
    v matches Value::Dict(m) && partial_message_good(m, 6)
}

pub proof fn lemma_partial_message_read(v: Value, x: PartialMessage)
    ensures
        PartialMessage::fault(v) is None <==> partial_message_readable(v),
        x.represents(v) ==> partial_message_read(v, x),
{
    if let Value::Dict(m) = v {
        if let Some(f) = value::lookup(m, "location"@) {
            if let Some(y) = x.location {
                lemma_location_read(f, y);
            } else {
                let y: Location = arbitrary();
                lemma_location_read(f, y);
            }
        }
        if let Some(f) = value::lookup(m, "notes"@) {
            lemma_notes_read(f, x.notes);
        }
    }
}

/// A map is read as one exactly where it holds every field that there must be, each of its kind,
/// and each field is then what stands under its name. Else the first field that is missing or
/// not of its kind is named.
pub proof fn law_partial_message_read(map: ValueMap, r: Result<PartialMessage, ProtocolError>)
    requires
        call_ensures(<PartialMessage as FromMap>::from_map, (&map,), r),
    ensures
        r is Ok <==> partial_message_readable(Value::Dict(map@)),
        r matches Ok(x) ==> partial_message_read(Value::Dict(map@), x),
        partial_message_good(map@, 0) && !partial_message_good(map@, 1) ==> blames(
            r,
            map@,
            "id"@,
        ),
        partial_message_good(map@, 1) && !partial_message_good(map@, 2) ==> blames(
            r,
            map@,
            "pluginName"@,
        ),
        partial_message_good(map@, 2) && !partial_message_good(map@, 3) ==> blames(
            r,
            map@,
            "text"@,
        ),
        partial_message_good(map@, 4) && !partial_message_good(map@, 5) ==> blames(
            r,
            map@,
            "notes"@,
        ),
        partial_message_good(map@, 5) && !partial_message_good(map@, 6) ==> blames(
            r,
            map@,
            "detail"@,
        ),
{
    let m = map@;
    let v = Value::Dict(m);
    let x: PartialMessage = match r {
        Ok(x) => x,
        Err(_) => arbitrary(),
    };
    lemma_partial_message_read(v, x);
        if let Some(f) = value::lookup(m, "location"@) {
            if let Some(y) = x.location {
                lemma_location_read(f, y);
            } else {
                let y: Location = arbitrary();
                lemma_location_read(f, y);
            }
        }
        if let Some(f) = value::lookup(m, "notes"@) {
            lemma_notes_read(f, x.notes);
        }
}

/// `x` holds what the map `v` holds: each field is what stands under its name.
pub open spec fn build_output_file_read(v: Value, x: BuildOutputFile) -> bool {
    &&& v matches Value::Dict(m)
    &&& value::lookup(m, "path"@) matches Some(f) && says(f, x.path@)
    &&& value::lookup(m, "contents"@) matches Some(f) && f == Value::Bytes(x.contents@)
    &&& value::lookup(m, "hash"@) matches Some(f) && says(f, x.hash@)
}

/// The first `n` fields are there, as far as they must be, each of them of its kind.
pub open spec fn build_output_file_good(m: Seq<(Seq<char>, Value)>, n: int) -> bool {
    &&& n > 0 ==> (value::lookup(m, "path"@) matches Some(f) && is_text(f))
    &&& n > 1 ==> (value::lookup(m, "contents"@) matches Some(f) && f is Bytes)
    &&& n > 2 ==> (value::lookup(m, "hash"@) matches Some(f) && is_text(f))
}

/// `v` is a map with every field that there must be, each of them of its kind.
pub open spec fn build_output_file_readable(v: Value) -> bool {
    v matches Value::Dict(m) && build_output_file_good(m, 3)
}

pub proof fn lemma_build_output_file_read(v: Value, x: BuildOutputFile)
    ensures
        BuildOutputFile::fault(v) is None <==> build_output_file_readable(v),
        x.represents(v) ==> build_output_file_read(v, x),
{
    if let Value::Dict(m) = v {
    }
}

/// The list holds these.
pub open spec fn build_output_files_read(v: Value, x: Seq<BuildOutputFile>) -> bool {
    v matches Value::List(l) && l.len() == x.len() && forall|i: int|
        0 <= i < l.len() ==> build_output_file_read(#[trigger] l[i], x[i])
}

proof fn lemma_build_output_files_read(v: Value, x: Vec<BuildOutputFile>)
    ensures
        Vec::<BuildOutputFile>::fault(v) is None <==> all_readable(v, |w: Value| build_output_file_readable(w)),
        x.represents(v) ==> build_output_files_read(v, x@),
{
    if let Value::List(l) = v {
        lemma_first_fault::<BuildOutputFile>(l);
        assert forall|i: int| 0 <= i < l.len() implies (BuildOutputFile::fault(#[trigger] l[i]) is None <==> (
        |w: Value| build_output_file_readable(w))(l[i])) by {
            lemma_build_output_file_read(l[i], arbitrary());
        }
        if x.represents(v) {
            assert forall|i: int| 0 <= i < l.len() implies build_output_file_read(#[trigger] l[i], x@[i]) by {
                assert(x@[i].represents(l[i]));
                lemma_build_output_file_read(l[i], x@[i]);
            }
        }
    }
}

/// A map is read as one exactly where it holds every field that there must be, each of its kind,
/// and each field is then what stands under its name. Else the first field that is missing or
/// not of its kind is named.
pub proof fn law_build_output_file_read(map: ValueMap, r: Result<BuildOutputFile, ProtocolError>)
    requires
        call_ensures(<BuildOutputFile as FromMap>::from_map, (&map,), r),
    ensures
        r is Ok <==> build_output_file_readable(Value::Dict(map@)),
        r matches Ok(x) ==> build_output_file_read(Value::Dict(map@), x),
        build_output_file_good(map@, 0) && !build_output_file_good(map@, 1) ==> blames(
            r,
            map@,
            "path"@,
        ),
        build_output_file_good(map@, 1) && !build_output_file_good(map@, 2) ==> blames(
            r,
            map@,
            "contents"@,
        ),
        build_output_file_good(map@, 2) && !build_output_file_good(map@, 3) ==> blames(
            r,
            map@,
            "hash"@,
        ),
{
    let m = map@;
    let v = Value::Dict(m);
    let x: BuildOutputFile = match r {
        Ok(x) => x,
        Err(_) => arbitrary(),
    };
    lemma_build_output_file_read(v, x);
}

/// `x` holds what the map `v` holds: each field is what stands under its name.
pub open spec fn build_response_read(v: Value, x: BuildResponse) -> bool {
    &&& v matches Value::Dict(m)
    &&& value::lookup(m, "errors"@) matches Some(f) && messages_read(f, x.errors@)
    &&& value::lookup(m, "warnings"@) matches Some(f) && messages_read(f, x.warnings@)
    &&& match value::lookup(m, "outputFiles"@) {
        None => x.output_files is None,
        Some(Value::Null) => x.output_files is None,
        Some(f) => x.output_files matches Some(y) && build_output_files_read(f, y@),
    }
    &&& match value::lookup(m, "metafile"@) {
        None => x.metafile is None,
        Some(Value::Null) => x.metafile is None,
        Some(f) => x.metafile matches Some(y) && says(f, y@),
    }
    &&& match value::lookup(m, "mangleCache"@) {
        None => x.mangle_cache is None,
        Some(Value::Null) => x.mangle_cache is None,
        Some(f) => x.mangle_cache matches Some(y) && mangle_cache_read(f, y),
    }
    &&& match value::lookup(m, "writeToStdout"@) {
        None => x.write_to_stdout is None,
        Some(Value::Null) => x.write_to_stdout is None,
        Some(f) => x.write_to_stdout matches Some(y) && f == Value::Bytes(y@),
    }
}

/// The first `n` fields are there, as far as they must be, each of them of its kind.
pub open spec fn build_response_good(m: Seq<(Seq<char>, Value)>, n: int) -> bool {
    &&& n > 0 ==> (value::lookup(m, "errors"@) matches Some(f) && all_readable(f, |w: Value| message_readable(w)))
    &&& n > 1 ==> (value::lookup(m, "warnings"@) matches Some(f) && all_readable(f, |w: Value| message_readable(w)))
    &&& n > 2 ==> (value::lookup(m, "outputFiles"@) matches Some(f) ==> f is Null || all_readable(f, |w: Value| build_output_file_readable(w)))
    &&& n > 3 ==> (value::lookup(m, "metafile"@) matches Some(f) ==> f is Null || is_text(f))
    &&& n > 4 ==> (value::lookup(m, "mangleCache"@) matches Some(f) ==> f is Null || map_readable(f, |w: Value| w is Text || w is Bool))
    &&& n > 5 ==> (value::lookup(m, "writeToStdout"@) matches Some(f) ==> f is Null || f is Bytes)
}

/// `v` is a map with every field that there must be, each of them of its kind.
pub open spec fn build_response_readable(v: Value) -> bool {
    v matches Value::Dict(m) && build_response_good(m, 6)
}

pub proof fn lemma_build_response_read(v: Value, x: BuildResponse)
    ensures
        BuildResponse::fault(v) is None <==> build_response_readable(v),
        x.represents(v) ==> build_response_read(v, x),
{
    if let Value::Dict(m) = v {
        if let Some(f) = value::lookup(m, "errors"@) {
            lemma_messages_read(f, x.errors);
        }
        if let Some(f) = value::lookup(m, "warnings"@) {
            lemma_messages_read(f, x.warnings);
        }
        if let Some(f) = value::lookup(m, "outputFiles"@) {
            if let Some(y) = x.output_files {
                lemma_build_output_files_read(f, y);
            } else {
                let y: Vec<BuildOutputFile> = arbitrary();
                lemma_build_output_files_read(f, y);
            }
        }
        if let Some(f) = value::lookup(m, "mangleCache"@) {
            if let Some(y) = x.mangle_cache {
                lemma_mangle_cache_read(f, y);
            } else {
                let y: IndexMap<String, MangleCacheEntry> = arbitrary();
                lemma_mangle_cache_read(f, y);
            }
        }
    }
}

/// A map is read as one exactly where it holds every field that there must be, each of its kind,
/// and each field is then what stands under its name. Else the first field that is missing or
/// not of its kind is named.
pub proof fn law_build_response_read(map: ValueMap, r: Result<BuildResponse, ProtocolError>)
    requires
        call_ensures(<BuildResponse as FromMap>::from_map, (&map,), r),
    ensures
        r is Ok <==> build_response_readable(Value::Dict(map@)),
        r matches Ok(x) ==> build_response_read(Value::Dict(map@), x),
        build_response_good(map@, 0) && !build_response_good(map@, 1) ==> blames(
            r,
            map@,
            "errors"@,
        ),
        build_response_good(map@, 1) && !build_response_good(map@, 2) ==> blames(
            r,
            map@,
            "warnings"@,
        ),
{
    let m = map@;
    let v = Value::Dict(m);
    let x: BuildResponse = match r {
        Ok(x) => x,
        Err(_) => arbitrary(),
    };
    lemma_build_response_read(v, x);
        if let Some(f) = value::lookup(m, "errors"@) {
            lemma_messages_read(f, x.errors);
        }
        if let Some(f) = value::lookup(m, "warnings"@) {
            lemma_messages_read(f, x.warnings);
        }
        if let Some(f) = value::lookup(m, "outputFiles"@) {
            if let Some(y) = x.output_files {
                lemma_build_output_files_read(f, y);
            } else {
                let y: Vec<BuildOutputFile> = arbitrary();
                lemma_build_output_files_read(f, y);
            }
        }
        if let Some(f) = value::lookup(m, "mangleCache"@) {
            if let Some(y) = x.mangle_cache {
                lemma_mangle_cache_read(f, y);
            } else {
                let y: IndexMap<String, MangleCacheEntry> = arbitrary();
                lemma_mangle_cache_read(f, y);
            }
        }
}

/// `x` holds what the map `v` holds: each field is what stands under its name.
pub open spec fn on_end_request_read(v: Value, x: OnEndRequest) -> bool {
    &&& v matches Value::Dict(m)
    &&& value::lookup(m, "errors"@) matches Some(f) && messages_read(f, x.errors@)
    &&& value::lookup(m, "warnings"@) matches Some(f) && messages_read(f, x.warnings@)
    &&& match value::lookup(m, "outputFiles"@) {
        None => x.output_files is None,
        Some(Value::Null) => x.output_files is None,
        Some(f) => x.output_files matches Some(y) && build_output_files_read(f, y@),
    }
    &&& match value::lookup(m, "metafile"@) {
        None => x.metafile is None,
        Some(Value::Null) => x.metafile is None,
        Some(f) => x.metafile matches Some(y) && says(f, y@),
    }
    &&& match value::lookup(m, "mangleCache"@) {
        None => x.mangle_cache is None,
        Some(Value::Null) => x.mangle_cache is None,
        Some(f) => x.mangle_cache matches Some(y) && mangle_cache_read(f, y),
    }
    &&& match value::lookup(m, "writeToStdout"@) {
        None => x.write_to_stdout is None,
        Some(Value::Null) => x.write_to_stdout is None,
        Some(f) => x.write_to_stdout matches Some(y) && f == Value::Bytes(y@),
    }
}

/// The first `n` fields are there, as far as they must be, each of them of its kind.
pub open spec fn on_end_request_good(m: Seq<(Seq<char>, Value)>, n: int) -> bool {
    &&& n > 0 ==> (value::lookup(m, "errors"@) matches Some(f) && all_readable(f, |w: Value| message_readable(w)))
    &&& n > 1 ==> (value::lookup(m, "warnings"@) matches Some(f) && all_readable(f, |w: Value| message_readable(w)))
    &&& n > 2 ==> (value::lookup(m, "outputFiles"@) matches Some(f) ==> f is Null || all_readable(f, |w: Value| build_output_file_readable(w)))
    &&& n > 3 ==> (value::lookup(m, "metafile"@) matches Some(f) ==> f is Null || is_text(f))
    &&& n > 4 ==> (value::lookup(m, "mangleCache"@) matches Some(f) ==> f is Null || map_readable(f, |w: Value| w is Text || w is Bool))
    &&& n > 5 ==> (value::lookup(m, "writeToStdout"@) matches Some(f) ==> f is Null || f is Bytes)
}

/// `v` is a map with every field that there must be, each of them of its kind.
pub open spec fn on_end_request_readable(v: Value) -> bool {
    v matches Value::Dict(m) && on_end_request_good(m, 6)
}

pub proof fn lemma_on_end_request_read(v: Value, x: OnEndRequest)
    ensures
        OnEndRequest::fault(v) is None <==> on_end_request_readable(v),
        x.represents(v) ==> on_end_request_read(v, x),
{
    if let Value::Dict(m) = v {
        if let Some(f) = value::lookup(m, "errors"@) {
            lemma_messages_read(f, x.errors);
        }
        if let Some(f) = value::lookup(m, "warnings"@) {
            lemma_messages_read(f, x.warnings);
        }
        if let Some(f) = value::lookup(m, "outputFiles"@) {
            if let Some(y) = x.output_files {
                lemma_build_output_files_read(f, y);
            } else {
                let y: Vec<BuildOutputFile> = arbitrary();
                lemma_build_output_files_read(f, y);
            }
        }
        if let Some(f) = value::lookup(m, "mangleCache"@) {
            if let Some(y) = x.mangle_cache {
                lemma_mangle_cache_read(f, y);
            } else {
                let y: IndexMap<String, MangleCacheEntry> = arbitrary();
                lemma_mangle_cache_read(f, y);
            }
        }
    }
}

/// A map is read as one exactly where it holds every field that there must be, each of its kind,
/// and each field is then what stands under its name. Else the first field that is missing or
/// not of its kind is named.
pub proof fn law_on_end_request_read(map: ValueMap, r: Result<OnEndRequest, ProtocolError>)
    requires
        call_ensures(<OnEndRequest as FromMap>::from_map, (&map,), r),
    ensures
        r is Ok <==> on_end_request_readable(Value::Dict(map@)),
        r matches Ok(x) ==> on_end_request_read(Value::Dict(map@), x),
        on_end_request_good(map@, 0) && !on_end_request_good(map@, 1) ==> blames(
            r,
            map@,
            "errors"@,
        ),
        on_end_request_good(map@, 1) && !on_end_request_good(map@, 2) ==> blames(
            r,
            map@,
            "warnings"@,
        ),
{
    let m = map@;
    let v = Value::Dict(m);
    let x: OnEndRequest = match r {
        Ok(x) => x,
        Err(_) => arbitrary(),
    };
    lemma_on_end_request_read(v, x);
        if let Some(f) = value::lookup(m, "errors"@) {
            lemma_messages_read(f, x.errors);
        }
        if let Some(f) = value::lookup(m, "warnings"@) {
            lemma_messages_read(f, x.warnings);
        }
        if let Some(f) = value::lookup(m, "outputFiles"@) {
            if let Some(y) = x.output_files {
                lemma_build_output_files_read(f, y);
            } else {
                let y: Vec<BuildOutputFile> = arbitrary();
                lemma_build_output_files_read(f, y);
            }
        }
        if let Some(f) = value::lookup(m, "mangleCache"@) {
            if let Some(y) = x.mangle_cache {
                lemma_mangle_cache_read(f, y);
            } else {
                let y: IndexMap<String, MangleCacheEntry> = arbitrary();
                lemma_mangle_cache_read(f, y);
            }
        }
}

/// `x` holds what the map `v` holds: each field is what stands under its name.
pub open spec fn rebuild_response_read(v: Value, x: RebuildResponse) -> bool {
    &&& v matches Value::Dict(m)
    &&& value::lookup(m, "errors"@) matches Some(f) && messages_read(f, x.errors@)
    &&& value::lookup(m, "warnings"@) matches Some(f) && messages_read(f, x.warnings@)
}

/// The first `n` fields are there, as far as they must be, each of them of its kind.
pub open spec fn rebuild_response_good(m: Seq<(Seq<char>, Value)>, n: int) -> bool {
    &&& n > 0 ==> (value::lookup(m, "errors"@) matches Some(f) && all_readable(f, |w: Value| message_readable(w)))
    &&& n > 1 ==> (value::lookup(m, "warnings"@) matches Some(f) && all_readable(f, |w: Value| message_readable(w)))
}

/// `v` is a map with every field that there must be, each of them of its kind.
pub open spec fn rebuild_response_readable(v: Value) -> bool {
    v matches Value::Dict(m) && rebuild_response_good(m, 2)
}

pub proof fn lemma_rebuild_response_read(v: Value, x: RebuildResponse)
    ensures
        RebuildResponse::fault(v) is None <==> rebuild_response_readable(v),
        x.represents(v) ==> rebuild_response_read(v, x),
{
    if let Value::Dict(m) = v {
        if let Some(f) = value::lookup(m, "errors"@) {
            lemma_messages_read(f, x.errors);
        }
        if let Some(f) = value::lookup(m, "warnings"@) {
            lemma_messages_read(f, x.warnings);
        }
    }
}

/// A map is read as one exactly where it holds every field that there must be, each of its kind,
/// and each field is then what stands under its name. Else the first field that is missing or
/// not of its kind is named.
pub proof fn law_rebuild_response_read(map: ValueMap, r: Result<RebuildResponse, ProtocolError>)
    requires
        call_ensures(<RebuildResponse as FromMap>::from_map, (&map,), r),
    ensures
        r is Ok <==> rebuild_response_readable(Value::Dict(map@)),
        r matches Ok(x) ==> rebuild_response_read(Value::Dict(map@), x),
        rebuild_response_good(map@, 0) && !rebuild_response_good(map@, 1) ==> blames(
            r,
            map@,
            "errors"@,
        ),
        rebuild_response_good(map@, 1) && !rebuild_response_good(map@, 2) ==> blames(
            r,
            map@,
            "warnings"@,
        ),
{
    let m = map@;
    let v = Value::Dict(m);
    let x: RebuildResponse = match r {
        Ok(x) => x,
        Err(_) => arbitrary(),
    };
    lemma_rebuild_response_read(v, x);
        if let Some(f) = value::lookup(m, "errors"@) {
            lemma_messages_read(f, x.errors);
        }
        if let Some(f) = value::lookup(m, "warnings"@) {
            lemma_messages_read(f, x.warnings);
        }
}

/// `x` holds what the map `v` holds: each field is what stands under its name.
pub open spec fn on_resolve_request_read(v: Value, x: OnResolveRequest) -> bool {
    &&& v matches Value::Dict(m)
    &&& value::lookup(m, "key"@) matches Some(f) && f == Value::U32(x.key)
    &&& value::lookup(m, "ids"@) matches Some(f) && numbers_read(f, x.ids@)
    &&& value::lookup(m, "path"@) matches Some(f) && says(f, x.path@)
    &&& value::lookup(m, "importer"@) matches Some(f) && says(f, x.importer@)
    &&& value::lookup(m, "namespace"@) matches Some(f) && says(f, x.namespace@)
    &&& match value::lookup(m, "resolveDir"@) {
        None => x.resolve_dir is None,
        Some(Value::Null) => x.resolve_dir is None,
        Some(f) => x.resolve_dir matches Some(y) && says(f, y@),
    }
    &&& value::lookup(m, "kind"@) matches Some(f) && f == Value::Text(import_name(x.kind))
    &&& match value::lookup(m, "pluginData"@) {
        None => x.plugin_data is None,
        Some(Value::Null) => x.plugin_data is None,
        Some(f) => x.plugin_data matches Some(y) && f == Value::U32(y),
    }
    &&& value::lookup(m, "with"@) matches Some(f) && strings_read(f, x.with)
}

/// The first `n` fields are there, as far as they must be, each of them of its kind.
pub open spec fn on_resolve_request_good(m: Seq<(Seq<char>, Value)>, n: int) -> bool {
    &&& n > 0 ==> (value::lookup(m, "key"@) matches Some(f) && f is U32)
    &&& n > 1 ==> (value::lookup(m, "ids"@) matches Some(f) && all_readable(f, |w: Value| w is U32))
    &&& n > 2 ==> (value::lookup(m, "path"@) matches Some(f) && is_text(f))
    &&& n > 3 ==> (value::lookup(m, "importer"@) matches Some(f) && is_text(f))
    &&& n > 4 ==> (value::lookup(m, "namespace"@) matches Some(f) && is_text(f))
    &&& n > 5 ==> (value::lookup(m, "resolveDir"@) matches Some(f) ==> f is Null || is_text(f))
    &&& n > 6 ==> (value::lookup(m, "kind"@) matches Some(f) && names_import(f))
    &&& n > 7 ==> (value::lookup(m, "pluginData"@) matches Some(f) ==> f is Null || f is U32)
    &&& n > 8 ==> (value::lookup(m, "with"@) matches Some(f) && map_readable(f, |w: Value| is_text(w)))
}

/// `v` is a map with every field that there must be, each of them of its kind.
pub open spec fn on_resolve_request_readable(v: Value) -> bool {
    v matches Value::Dict(m) && on_resolve_request_good(m, 9)
}

pub proof fn lemma_on_resolve_request_read(v: Value, x: OnResolveRequest)
    ensures
        OnResolveRequest::fault(v) is None <==> on_resolve_request_readable(v),
        x.represents(v) ==> on_resolve_request_read(v, x),
{
    if let Value::Dict(m) = v {
        if let Some(f) = value::lookup(m, "ids"@) {
            lemma_numbers_read(f, x.ids);
        }
        if let Some(f) = value::lookup(m, "kind"@) {
            lemma_names_import(f);
        }
        if let Some(f) = value::lookup(m, "with"@) {
            lemma_strings_read(f, x.with);
        }
    }
}

/// A map is read as one exactly where it holds every field that there must be, each of its kind,
/// and each field is then what stands under its name. Else the first field that is missing or
/// not of its kind is named.
pub proof fn law_on_resolve_request_read(map: ValueMap, r: Result<OnResolveRequest, ProtocolError>)
    requires
        call_ensures(<OnResolveRequest as FromMap>::from_map, (&map,), r),
    ensures
        r is Ok <==> on_resolve_request_readable(Value::Dict(map@)),
        r matches Ok(x) ==> on_resolve_request_read(Value::Dict(map@), x),
        on_resolve_request_good(map@, 0) && !on_resolve_request_good(map@, 1) ==> blames(
            r,
            map@,
            "key"@,
        ),
        on_resolve_request_good(map@, 1) && !on_resolve_request_good(map@, 2) ==> blames(
            r,
            map@,
            "ids"@,
        ),
        on_resolve_request_good(map@, 2) && !on_resolve_request_good(map@, 3) ==> blames(
            r,
            map@,
            "path"@,
        ),
        on_resolve_request_good(map@, 3) && !on_resolve_request_good(map@, 4) ==> blames(
            r,
            map@,
            "importer"@,
        ),
        on_resolve_request_good(map@, 4) && !on_resolve_request_good(map@, 5) ==> blames(
            r,
            map@,
            "namespace"@,
        ),
        on_resolve_request_good(map@, 6) && !on_resolve_request_good(map@, 7) ==> blames(
            r,
            map@,
            "kind"@,
        ),
        on_resolve_request_good(map@, 8) && !on_resolve_request_good(map@, 9) ==> blames(
            r,
            map@,
            "with"@,
        ),
{
    let m = map@;
    let v = Value::Dict(m);
    let x: OnResolveRequest = match r {
        Ok(x) => x,
        Err(_) => arbitrary(),
    };
    lemma_on_resolve_request_read(v, x);
        if let Some(f) = value::lookup(m, "ids"@) {
            lemma_numbers_read(f, x.ids);
        }
        if let Some(f) = value::lookup(m, "kind"@) {
            lemma_names_import(f);
        }
        if let Some(f) = value::lookup(m, "with"@) {
            lemma_strings_read(f, x.with);
        }
}

/// `x` holds what the map `v` holds: each field is what stands under its name.
pub open spec fn on_load_request_read(v: Value, x: OnLoadRequest) -> bool {
    &&& v matches Value::Dict(m)
    &&& value::lookup(m, "key"@) matches Some(f) && f == Value::U32(x.key)
    &&& value::lookup(m, "ids"@) matches Some(f) && numbers_read(f, x.ids@)
    &&& value::lookup(m, "path"@) matches Some(f) && says(f, x.path@)
    &&& value::lookup(m, "namespace"@) matches Some(f) && says(f, x.namespace@)
    &&& value::lookup(m, "suffix"@) matches Some(f) && says(f, x.suffix@)
    &&& match value::lookup(m, "pluginData"@) {
        None => x.plugin_data is None,
        Some(Value::Null) => x.plugin_data is None,
        Some(f) => x.plugin_data matches Some(y) && f == Value::U32(y),
    }
    &&& value::lookup(m, "with"@) matches Some(f) && strings_read(f, x.with)
}

/// The first `n` fields are there, as far as they must be, each of them of its kind.
pub open spec fn on_load_request_good(m: Seq<(Seq<char>, Value)>, n: int) -> bool {
    &&& n > 0 ==> (value::lookup(m, "key"@) matches Some(f) && f is U32)
    &&& n > 1 ==> (value::lookup(m, "ids"@) matches Some(f) && all_readable(f, |w: Value| w is U32))
    &&& n > 2 ==> (value::lookup(m, "path"@) matches Some(f) && is_text(f))
    &&& n > 3 ==> (value::lookup(m, "namespace"@) matches Some(f) && is_text(f))
    &&& n > 4 ==> (value::lookup(m, "suffix"@) matches Some(f) && is_text(f))
    &&& n > 5 ==> (value::lookup(m, "pluginData"@) matches Some(f) ==> f is Null || f is U32)
    &&& n > 6 ==> (value::lookup(m, "with"@) matches Some(f) && map_readable(f, |w: Value| is_text(w)))
}

/// `v` is a map with every field that there must be, each of them of its kind.
pub open spec fn on_load_request_readable(v: Value) -> bool {
    v matches Value::Dict(m) && on_load_request_good(m, 7)
}

pub proof fn lemma_on_load_request_read(v: Value, x: OnLoadRequest)
    ensures
        OnLoadRequest::fault(v) is None <==> on_load_request_readable(v),
        x.represents(v) ==> on_load_request_read(v, x),
{
    if let Value::Dict(m) = v {
        if let Some(f) = value::lookup(m, "ids"@) {
            lemma_numbers_read(f, x.ids);
        }
        if let Some(f) = value::lookup(m, "with"@) {
            lemma_strings_read(f, x.with);
        }
    }
}

/// A map is read as one exactly where it holds every field that there must be, each of its kind,
/// and each field is then what stands under its name. Else the first field that is missing or
/// not of its kind is named.
pub proof fn law_on_load_request_read(map: ValueMap, r: Result<OnLoadRequest, ProtocolError>)
    requires
        call_ensures(<OnLoadRequest as FromMap>::from_map, (&map,), r),
    ensures
        r is Ok <==> on_load_request_readable(Value::Dict(map@)),
        r matches Ok(x) ==> on_load_request_read(Value::Dict(map@), x),
        on_load_request_good(map@, 0) && !on_load_request_good(map@, 1) ==> blames(
            r,
            map@,
            "key"@,
        ),
        on_load_request_good(map@, 1) && !on_load_request_good(map@, 2) ==> blames(
            r,
            map@,
            "ids"@,
        ),
        on_load_request_good(map@, 2) && !on_load_request_good(map@, 3) ==> blames(
            r,
            map@,
            "path"@,
        ),
        on_load_request_good(map@, 3) && !on_load_request_good(map@, 4) ==> blames(
            r,
            map@,
            "namespace"@,
        ),
        on_load_request_good(map@, 4) && !on_load_request_good(map@, 5) ==> blames(
            r,
            map@,
            "suffix"@,
        ),
        on_load_request_good(map@, 6) && !on_load_request_good(map@, 7) ==> blames(
            r,
            map@,
            "with"@,
        ),
{
    let m = map@;
    let v = Value::Dict(m);
    let x: OnLoadRequest = match r {
        Ok(x) => x,
        Err(_) => arbitrary(),
    };
    lemma_on_load_request_read(v, x);
        if let Some(f) = value::lookup(m, "ids"@) {
            lemma_numbers_read(f, x.ids);
        }
        if let Some(f) = value::lookup(m, "with"@) {
            lemma_strings_read(f, x.with);
        }
}

/// `x` holds what the map `v` holds: each field is what stands under its name.
pub open spec fn on_start_request_read(v: Value, x: OnStartRequest) -> bool {
    &&& v matches Value::Dict(m)
    &&& value::lookup(m, "key"@) matches Some(f) && f == Value::U32(x.key)
}

/// The first `n` fields are there, as far as they must be, each of them of its kind.
pub open spec fn on_start_request_good(m: Seq<(Seq<char>, Value)>, n: int) -> bool {
    &&& n > 0 ==> (value::lookup(m, "key"@) matches Some(f) && f is U32)
}

/// `v` is a map with every field that there must be, each of them of its kind.
pub open spec fn on_start_request_readable(v: Value) -> bool {
    v matches Value::Dict(m) && on_start_request_good(m, 1)
}

pub proof fn lemma_on_start_request_read(v: Value, x: OnStartRequest)
    ensures
        OnStartRequest::fault(v) is None <==> on_start_request_readable(v),
        x.represents(v) ==> on_start_request_read(v, x),
{
    if let Value::Dict(m) = v {
    }
}

/// A map is read as one exactly where it holds every field that there must be, each of its kind,
/// and each field is then what stands under its name. Else the first field that is missing or
/// not of its kind is named.
pub proof fn law_on_start_request_read(map: ValueMap, r: Result<OnStartRequest, ProtocolError>)
    requires
        call_ensures(<OnStartRequest as FromMap>::from_map, (&map,), r),
    ensures
        r is Ok <==> on_start_request_readable(Value::Dict(map@)),
        r matches Ok(x) ==> on_start_request_read(Value::Dict(map@), x),
        on_start_request_good(map@, 0) && !on_start_request_good(map@, 1) ==> blames(
            r,
            map@,
            "key"@,
        ),
{
    let m = map@;
    let v = Value::Dict(m);
    let x: OnStartRequest = match r {
        Ok(x) => x,
        Err(_) => arbitrary(),
    };
    lemma_on_start_request_read(v, x);
}

/// A string is read from a string, or from the UTF-8 bytes of one; bytes that are not UTF-8 and
/// other values are refused.
pub proof fn law_string_read(v: AnyValue, r: Result<String, ProtocolError>)
    requires
        call_ensures(<String as FromAnyValue>::from_any_value, (v,), r),
    ensures
        r is Ok <==> is_text(v@),
        r matches Ok(s) ==> says(v@, s@),
        v@ is Bytes && r is Err ==> r matches Err(ProtocolError::InvalidUtf8(_)),
        !(v@ is Text) && !(v@ is Bytes) ==> (r matches Err(ProtocolError::StringExpected(w))
            && w@ == v@),
{
}

/// A number is read from a number, and from nothing else.
pub proof fn law_u32_read(v: AnyValue, r: Result<u32, ProtocolError>)
    requires
        call_ensures(<u32 as FromAnyValue>::from_any_value, (v,), r),
    ensures
        match r {
            Ok(x) => v@ == Value::U32(x),
            Err(e) => !(v@ is U32) && (e matches ProtocolError::U32Expected(w) && w@ == v@),
        },
{
}

/// A boolean is read from a boolean, and from nothing else.
pub proof fn law_bool_read(v: AnyValue, r: Result<bool, ProtocolError>)
    requires
        call_ensures(<bool as FromAnyValue>::from_any_value, (v,), r),
    ensures
        match r {
            Ok(x) => v@ == Value::Bool(x),
            Err(e) => !(v@ is Bool) && e is BoolExpected,
        },
{
}

/// Bytes are read from bytes, and from nothing else.
pub proof fn law_bytes_read(v: AnyValue, r: Result<Vec<u8>, ProtocolError>)
    requires
        call_ensures(<Vec<u8> as FromAnyValue>::from_any_value, (v,), r),
    ensures
        match r {
            Ok(x) => v@ == Value::Bytes(x@),
            Err(e) => !(v@ is Bytes) && e is BytesExpected,
        },
{
}

/// Any value is read as itself.
pub proof fn law_any_value_read(v: AnyValue, r: Result<AnyValue, ProtocolError>)
    requires
        call_ensures(<AnyValue as FromAnyValue>::from_any_value, (v,), r),
    ensures
        r matches Ok(x) && x@ == v@,
{
}

/// A list is read item by item; the failure is that of the first item that cannot be read.
pub proof fn law_list_read<T: FromAnyValue>(v: AnyValue, r: Result<Vec<T>, ProtocolError>)
    requires
        call_ensures(<Vec<T> as FromAnyValue>::from_any_value, (v,), r),
    ensures
        match v@ {
            Value::List(l) => match r {
                Ok(x) => x@.len() == l.len() && forall|i: int|
                    0 <= i < l.len() ==> (#[trigger] x@[i]).represents(l[i]),
                Err(e) => exists|i: int|
                    {
                        &&& 0 <= i < l.len()
                        &&& #[trigger] T::fault(l[i]) == Some(e@)
                        &&& forall|j: int| 0 <= j < i ==> T::fault(#[trigger] l[j]) is None
                    },
            },
            _ => r matches Err(e) && e is VecExpected,
        },
{
    if let Value::List(l) = v@ {
        if let Err(e) = r {
            let i = lemma_first_fault_at::<T>(l);
            assert(T::fault(l[i]) == Some(e@));
        }
    }
}

proof fn lemma_first_fault_at<T: FromAnyValue>(items: Seq<Value>) -> (i: int)
    requires
        convert::first_fault::<T>(items) is Some,
    ensures
        0 <= i < items.len(),
        convert::first_fault::<T>(items) == T::fault(items[i]),
        forall|j: int| 0 <= j < i ==> T::fault(#[trigger] items[j]) is None,
    decreases items.len(),
{
    if T::fault(items[0]) is Some {
        0
    } else {
        let rest = items.drop_first();
        let i = lemma_first_fault_at::<T>(rest);
        assert forall|j: int| 0 <= j < i + 1 implies T::fault(#[trigger] items[j]) is None by {
            if j > 0 {
                assert(rest[j - 1] == items[j]);
            }
        }
        assert(rest[i] == items[i + 1]);
        i + 1
    }
}

/// Null is read as the absence of a value, and any other value as what it stands for.
pub proof fn law_option_read<T: FromAnyValue>(v: AnyValue, r: Result<Option<T>, ProtocolError>)
    requires
        call_ensures(<Option<T> as FromAnyValue>::from_any_value, (v,), r),
    ensures
        match r {
            Ok(None) => v@ is Null,
            Ok(Some(x)) => !(v@ is Null) && x.represents(v@) && T::fault(v@) is None,
            Err(e) => !(v@ is Null) && T::fault(v@) == Some(e@),
        },
{
}

/// What is read from a map is refused where there is no map.
pub proof fn law_only_maps_are_read<T: FromMap>(v: AnyValue, r: Result<T, ProtocolError>)
    requires
        call_ensures(<T as FromAnyValue>::from_any_value, (v,), r),
    ensures
        match v@ {
            Value::Dict(m) => match r {
                Ok(x) => x.represents_map(m) && T::map_fault(m) is None,
                Err(e) => T::map_fault(m) == Some(e@),
            },
            _ => r matches Err(e) && e is NotAMap,
        },
{
}

/// A map of values is read as itself.
pub proof fn law_value_map_read(v: AnyValue, r: Result<ValueMap, ProtocolError>)
    requires
        call_ensures(<ValueMap as FromAnyValue>::from_any_value, (v,), r),
    ensures
        match r {
            Ok(m) => v@ == Value::Dict(m@),
            Err(e) => !(v@ is Dict) && e is MapExpected,
        },
{
}

/// A map of strings is read from a map of texts, entry by entry in order.
pub proof fn law_strings_read(v: AnyValue, r: Result<IndexMap<String, String>, ProtocolError>)
    requires
        call_ensures(<IndexMap<String, String> as FromAnyValue>::from_any_value, (v,), r),
    ensures
        r is Ok <==> map_readable(v@, |w: Value| is_text(w)),
        r matches Ok(x) ==> strings_read(v@, x),
        !(v@ is Dict) ==> (r matches Err(e) && e is MapExpected),
{
    lemma_strings_read(
        v@,
        match r {
            Ok(x) => x,
            Err(_) => arbitrary(),
        },
    );
}

/// A mangle cache is read from a map of strings and booleans, entry by entry in order.
pub proof fn law_mangle_cache_read(
    v: AnyValue,
    r: Result<IndexMap<String, MangleCacheEntry>, ProtocolError>,
)
    requires
        call_ensures(<IndexMap<String, MangleCacheEntry> as FromAnyValue>::from_any_value, (v,), r),
    ensures
        r is Ok <==> map_readable(v@, |w: Value| w is Text || w is Bool),
        r matches Ok(x) ==> mangle_cache_read(v@, x),
        !(v@ is Dict) ==> (r matches Err(e) && e is MapExpected),
{
    lemma_mangle_cache_read(
        v@,
        match r {
            Ok(x) => x,
            Err(_) => arbitrary(),
        },
    );
}

/// An entry of a mangle cache is a string or a boolean.
pub proof fn law_mangle_cache_entry_read(v: AnyValue, r: Result<MangleCacheEntry, ProtocolError>)
    requires
        call_ensures(<MangleCacheEntry as FromAnyValue>::from_any_value, (v,), r),
    ensures
        match r {
            Ok(MangleCacheEntry::StringValue(s)) => v@ == Value::Text(s@),
            Ok(MangleCacheEntry::BoolValue(b)) => v@ == Value::Bool(b),
            Err(e) => !(v@ is Text) && !(v@ is Bool) && (e
                matches ProtocolError::InvalidMangleCacheEntry(w) && w@ == v@),
        },
{
}

/// A kind of import is read from its name. Another text is no kind of import, and what is not a
/// string is refused as such.
pub proof fn law_import_kind_read(v: AnyValue, r: Result<ImportKind, ProtocolError>)
    requires
        call_ensures(<ImportKind as FromAnyValue>::from_any_value, (v,), r),
    ensures
        match r {
            Ok(kind) => v@ == Value::Text(import_name(kind)),
            Err(e) => !names_import(v@) && match v@ {
                Value::Text(s) => e matches ProtocolError::InvalidImportKind(t) && t@ == s,
                _ => e is NotAString,
            },
        },
{
    lemma_names_import(v@);
}

/// A message is read from a map, or from a string that is its text.
pub proof fn law_message_or_text_read(
    v: AnyValue,
    r: Result<MessageFromAnyValue, ProtocolError>,
)
    requires
        call_ensures(<MessageFromAnyValue as FromAnyValue>::from_any_value, (v,), r),
    ensures
        match v@ {
            Value::Dict(_) => {
                &&& r is Ok <==> message_readable(v@)
                &&& r matches Ok(x) ==> message_read(v@, x.0)
            },
            Value::Text(s) => r matches Ok(x) && {
                &&& x.0.text@ == s
                &&& x.0.id@.len() == 0
                &&& x.0.plugin_name@.len() == 0
                &&& x.0.location is None
                &&& x.0.notes@.len() == 0
                &&& x.0.detail is None
            },
            _ => r matches Err(e) && e is NotAMap,
        },
{
    lemma_message_read(
        v@,
        match r {
            Ok(x) => x.0,
            Err(_) => arbitrary(),
        },
    );
}

/// Whether an entry `error` holds a message or the text of one.
pub open spec fn error_read(f: Value, x: Message) -> bool {
    match f {
        Value::Text(s) => {
            &&& x.text@ == s
            &&& x.id@.len() == 0
            &&& x.plugin_name@.len() == 0
            &&& x.location is None
            &&& x.notes@.len() == 0
            &&& x.detail is None
        },
        _ => message_read(f, x),
    }
}

/// A reply with an entry `error` is that error, whatever else it holds; a reply without one is the
/// outcome of the build.
pub proof fn law_build_reply_read(
    map: ValueMap,
    r: Result<Result<BuildResponse, Message>, ProtocolError>,
)
    requires
        call_ensures(<Result<BuildResponse, Message> as FromMap>::from_map, (&map,), r),
    ensures
        match value::lookup(map@, "error"@) {
            Some(f) => {
                &&& r is Ok <==> f is Text || message_readable(f)
                &&& r matches Ok(y) ==> (y matches Err(x) && error_read(f, x))
            },
            None => {
                &&& r is Ok <==> build_response_readable(Value::Dict(map@))
                &&& r matches Ok(y) ==> (y matches Ok(x) && build_response_read(
                    Value::Dict(map@),
                    x,
                ))
            },
        },
{
    lemma_build_reply(map@, r);
}

pub proof fn lemma_build_reply(
    m: Seq<(Seq<char>, Value)>,
    r: Result<Result<BuildResponse, Message>, ProtocolError>,
)
    ensures
        value::lookup(m, "error"@) matches Some(f) ==> {
            &&& MessageFromAnyValue::fault(f) is None <==> f is Text || message_readable(f)
            &&& r matches Ok(Err(x)) ==> (MessageFromAnyValue(x).represents(f) ==> error_read(f, x))
        },
        BuildResponse::fault(Value::Dict(m)) is None <==> build_response_readable(Value::Dict(m)),
        r matches Ok(Ok(x)) ==> (x.represents_map(m) ==> build_response_read(Value::Dict(m), x)),
{
    if let Some(f) = value::lookup(m, "error"@) {
        lemma_message_read(
            f,
            match r {
                Ok(Err(x)) => x,
                _ => arbitrary(),
            },
        );
    }
    lemma_build_response_read(
        Value::Dict(m),
        match r {
            Ok(Ok(x)) => x,
            _ => arbitrary(),
        },
    );
}

/// A reply with an entry `error` is that error, whatever else it holds; a reply without one is the
/// outcome of the repeated build.
pub proof fn law_rebuild_reply_read(
    map: ValueMap,
    r: Result<Result<RebuildResponse, Message>, ProtocolError>,
)
    requires
        call_ensures(<Result<RebuildResponse, Message> as FromMap>::from_map, (&map,), r),
    ensures
        match value::lookup(map@, "error"@) {
            Some(f) => {
                &&& r is Ok <==> f is Text || message_readable(f)
                &&& r matches Ok(y) ==> (y matches Err(x) && error_read(f, x))
            },
            None => {
                &&& r is Ok <==> rebuild_response_readable(Value::Dict(map@))
                &&& r matches Ok(y) ==> (y matches Ok(x) && rebuild_response_read(
                    Value::Dict(map@),
                    x,
                ))
            },
        },
{
    let m = map@;
    if let Some(f) = value::lookup(m, "error"@) {
        lemma_message_read(
            f,
            match r {
                Ok(Err(x)) => x,
                _ => arbitrary(),
            },
        );
    }
    lemma_rebuild_response_read(
        Value::Dict(m),
        match r {
            Ok(Ok(x)) => x,
            _ => arbitrary(),
        },
    );
}

/// The files of a build are those that its outcome lists, as many and in the same order.
pub proof fn law_output_files_kept(
    map: ValueMap,
    files: Seq<Value>,
    r: Result<BuildResponse, ProtocolError>,
    i: int,
)
    requires
        call_ensures(<BuildResponse as FromMap>::from_map, (&map,), r),
        value::lookup(map@, "outputFiles"@) == Some(Value::List(files)),
        r is Ok,
        0 <= i < files.len(),
    ensures
        r matches Ok(x) && x.output_files matches Some(y) && files[i] matches Value::Dict(m) && {
            &&& y@.len() == files.len()
            &&& value::lookup(m, "path"@) matches Some(f) && says(f, y@[i].path@)
            &&& value::lookup(m, "contents"@) == Some(Value::Bytes(y@[i].contents@))
            &&& value::lookup(m, "hash"@) matches Some(f) && says(f, y@[i].hash@)
        },
{
    law_build_response_read(map, r);
    if let Ok(x) = r {
        if let Some(y) = x.output_files {
            assert(build_output_file_read(files[i], y@[i]));
        }
    }
}

/// What an end hook is told is read like the outcome of a build.
pub proof fn law_end_request_read_like_response(
    map: ValueMap,
    one: Result<OnEndRequest, ProtocolError>,
    two: Result<BuildResponse, ProtocolError>,
)
    requires
        call_ensures(<OnEndRequest as FromMap>::from_map, (&map,), one),
        call_ensures(<BuildResponse as FromMap>::from_map, (&map,), two),
    ensures
        one is Ok <==> two is Ok,
        one matches Ok(x) ==> (two matches Ok(y) && {
            &&& x.errors@.len() == y.errors@.len()
            &&& x.warnings@.len() == y.warnings@.len()
            &&& x.output_files is Some <==> y.output_files is Some
            &&& x.metafile is Some <==> y.metafile is Some
            &&& x.mangle_cache is Some <==> y.mangle_cache is Some
            &&& x.write_to_stdout is Some <==> y.write_to_stdout is Some
        }),
{
    law_on_end_request_read(map, one);
    law_build_response_read(map, two);
}

/// A value is taken as a string where it is one.
pub proof fn law_as_string(v: AnyValue, r: Result<&String, ProtocolError>)
    requires
        call_ensures(AnyValue::as_string, (&v,), r),
    ensures
        match r {
            Ok(s) => v@ == Value::Text(s@),
            Err(e) => !(v@ is Text) && e is NotAString,
        },
{
}

/// A value is taken as a map where it is one.
pub proof fn law_as_map(v: AnyValue, r: Result<&ValueMap, ProtocolError>)
    requires
        call_ensures(AnyValue::as_map, (&v,), r),
    ensures
        match r {
            Ok(m) => v@ == Value::Dict(m@),
            Err(e) => !(v@ is Dict) && e is NotAMap,
        },
{
}

/// A value is turned to a type as it is read as one.
pub proof fn law_to_type<T: FromAnyValue>(v: AnyValue, r: Result<T, ProtocolError>)
    requires
        call_ensures(AnyValue::to_type::<T>, (v,), r),
    ensures
        match r {
            Ok(x) => T::fault(v@) is None && x.represents(v@),
            Err(e) => T::fault(v@) == Some(e@),
        },
{
}

} // verus!
