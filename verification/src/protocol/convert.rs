//! Conversion of protocol values to values of fixed types.
use crate::protocol::error::{Fault, ProtocolError};
use crate::protocol::maps;
use crate::protocol::messages::{
    BuildOutputFile, BuildResponse, ImportKind, Location, MangleCacheEntry, Message, Note,
    OnEndRequest, OnLoadRequest, OnResolveRequest, OnStartRequest, PartialMessage, RebuildResponse,
};
use crate::protocol::value;
use crate::protocol::value::{AnyValue, Value, ValueMap};
use crate::protocol::wire;
use crate::text::is_text;
use indexmap::IndexMap;
use vstd::prelude::*;

verus! {

/// A type to which values can be converted.
pub trait FromAnyValue: Sized {
    /// How the conversion of `v` fails; `None` if it succeeds.
    spec fn fault(v: Value) -> Option<Fault>;

    /// `self` is what `v` is converted to.
    spec fn represents(&self, v: Value) -> bool;

    fn from_any_value(value: AnyValue) -> (r: Result<Self, ProtocolError>)
        ensures
            match r {
                Ok(x) => Self::fault(value@) is None && x.represents(value@),
                Err(e) => Self::fault(value@) == Some(e@),
            },
    ;
}

/// A type to which maps can be converted.
pub trait FromMap: Sized {
    /// How the conversion of a map with these entries fails; `None` if it succeeds.
    spec fn map_fault(m: Seq<(Seq<char>, Value)>) -> Option<Fault>;

    /// `self` is what a map with these entries is converted to.
    spec fn represents_map(&self, m: Seq<(Seq<char>, Value)>) -> bool;

    fn from_map(map: &ValueMap) -> (r: Result<Self, ProtocolError>)
        ensures
            match r {
                Ok(x) => Self::map_fault(map@) is None && x.represents_map(map@),
                Err(e) => Self::map_fault(map@) == Some(e@),
            },
    ;
}

impl AnyValue {
    /// The string that the value is.
    pub fn as_string(&self) -> (r: Result<&String, ProtocolError>)
        ensures
            match r {
                Ok(s) => self@ == Value::Text(s@),
                Err(e) => self@ !is Text && e@ == Fault::NotAString,
            },
    {
        match self {
            AnyValue::String(s) => Ok(s),
            _ => Err(ProtocolError::NotAString),
        }
    }

    /// The map that the value is.
    pub fn as_map(&self) -> (r: Result<&ValueMap, ProtocolError>)
        ensures
            match r {
                Ok(m) => self@ == Value::Dict(m@),
                Err(e) => self@ !is Dict && e@ == Fault::NotAMap,
            },
    {
        match self {
            AnyValue::Mapping(m) => Ok(m),
            _ => Err(ProtocolError::NotAMap),
        }
    }

    /// Converts the value to a type.
    pub fn to_type<T: FromAnyValue>(self) -> (r: Result<T, ProtocolError>)
        ensures
            match r {
                Ok(x) => T::fault(self@) is None && x.represents(self@),
                Err(e) => T::fault(self@) == Some(e@),
            },
    {
        T::from_any_value(self)
    }
}

impl FromAnyValue for AnyValue {
    open spec fn fault(v: Value) -> Option<Fault> {
        None
    }

    open spec fn represents(&self, v: Value) -> bool {
        self@ == v
    }

    fn from_any_value(value: AnyValue) -> (r: Result<Self, ProtocolError>) {
        Ok(value)
    }
}

/// The string that a value stands for. Some texts are sent as bytes.
pub open spec fn string_of(v: Value) -> Result<Seq<char>, Fault> {
    match v {
        Value::Text(s) => Ok(s),
        Value::Bytes(b) => if vstd::utf8::valid_utf8(b) {
            Ok(vstd::utf8::decode_utf8(b))
        } else {
            Err(Fault::InvalidUtf8(wire::utf8_reason(b)))
        },
        _ => Err(Fault::StringExpected(v)),
    }
}

impl FromAnyValue for String {
    open spec fn fault(v: Value) -> Option<Fault> {
        string_of(v).err()
    }

    open spec fn represents(&self, v: Value) -> bool {
        string_of(v) == Ok::<Seq<char>, Fault>(self@)
    }

    fn from_any_value(value: AnyValue) -> (r: Result<Self, ProtocolError>) {
        match value {
            AnyValue::String(s) => Ok(s),
            AnyValue::Bytes(b) => match wire::string_from_utf8(b) {
                Ok(s) => Ok(s),
                Err(reason) => Err(ProtocolError::InvalidUtf8(reason)),
            },
            _ => Err(ProtocolError::StringExpected(value)),
        }
    }
}

impl FromAnyValue for u32 {
    open spec fn fault(v: Value) -> Option<Fault> {
        if v is U32 {
            None
        } else {
            Some(Fault::U32Expected(v))
        }
    }

    open spec fn represents(&self, v: Value) -> bool {
        v == Value::U32(*self)
    }

    fn from_any_value(value: AnyValue) -> (r: Result<Self, ProtocolError>) {
        match value {
            AnyValue::U32(u) => Ok(u),
            _ => Err(ProtocolError::U32Expected(value)),
        }
    }
}

impl FromAnyValue for bool {
    open spec fn fault(v: Value) -> Option<Fault> {
        if v is Bool {
            None
        } else {
            Some(Fault::BoolExpected)
        }
    }

    open spec fn represents(&self, v: Value) -> bool {
        v == Value::Bool(*self)
    }

    fn from_any_value(value: AnyValue) -> (r: Result<Self, ProtocolError>) {
        match value {
            AnyValue::Bool(b) => Ok(b),
            _ => Err(ProtocolError::BoolExpected),
        }
    }
}

impl FromAnyValue for Vec<u8> {
    open spec fn fault(v: Value) -> Option<Fault> {
        if v is Bytes {
            None
        } else {
            Some(Fault::BytesExpected)
        }
    }

    open spec fn represents(&self, v: Value) -> bool {
        v == Value::Bytes(self@)
    }

    fn from_any_value(value: AnyValue) -> (r: Result<Self, ProtocolError>) {
        match value {
            AnyValue::Bytes(b) => Ok(b),
            _ => Err(ProtocolError::BytesExpected),
        }
    }
}

/// The failure of the first item that cannot be converted.
pub open spec fn first_fault<T: FromAnyValue>(items: Seq<Value>) -> Option<Fault>
    decreases items.len(),
{
    if items.len() == 0 {
        None
    } else if T::fault(items[0]) is Some {
        T::fault(items[0])
    } else {
        first_fault::<T>(items.drop_first())
    }
}

impl<T: FromAnyValue> FromAnyValue for Vec<T> {
    open spec fn fault(v: Value) -> Option<Fault> {
        match v {
            Value::List(items) => first_fault::<T>(items),
            _ => Some(Fault::VecExpected),
        }
    }

    open spec fn represents(&self, v: Value) -> bool {
        v matches Value::List(items) && self@.len() == items.len() && forall|i: int|
            0 <= i < items.len() ==> (#[trigger] self@[i]).represents(items[i])
    }

    fn from_any_value(value: AnyValue) -> (r: Result<Self, ProtocolError>) {
        match value {
            AnyValue::Vec(items) => {
                let ghost all = value::models(items@);
                let mut converted: Vec<T> = Vec::new();
                assert(all.skip(0) =~= all);
                for item in it: items
                    invariant
                        it.seq() == items@,
                        all == value::models(items@),
                        value@ == Value::List(all),
                        converted@.len() == it.index(),
                        forall|j: int|
                            0 <= j < it.index() ==> (#[trigger] converted@[j]).represents(all[j]),
                        first_fault::<T>(all.skip(it.index() as int)) == first_fault::<T>(all),
                {
                    proof {
                        let i = it.index() as int;
                        assert(all.skip(i)[0] == item@);
                        assert(all.skip(i).drop_first() =~= all.skip(i + 1));
                    }
                    match T::from_any_value(item) {
                        Ok(x) => {
                            converted.push(x);
                        },
                        Err(e) => {
                            return Err(e);
                        },
                    }
                }
                Ok(converted)
            },
            _ => Err(ProtocolError::VecExpected),
        }
    }
}

impl<T: FromAnyValue> FromAnyValue for Option<T> {
    open spec fn fault(v: Value) -> Option<Fault> {
        if v is Null {
            None
        } else {
            T::fault(v)
        }
    }

    open spec fn represents(&self, v: Value) -> bool {
        match self {
            None => v is Null,
            Some(x) => v !is Null && x.represents(v),
        }
    }

    fn from_any_value(value: AnyValue) -> (r: Result<Self, ProtocolError>) {
        match value {
            AnyValue::Null => Ok(None),
            _ => match T::from_any_value(value) {
                Ok(x) => Ok(Some(x)),
                Err(e) => Err(e),
            },
        }
    }
}

impl<T: FromMap> FromAnyValue for T {
    open spec fn fault(v: Value) -> Option<Fault> {
        match v {
            Value::Dict(m) => T::map_fault(m),
            _ => Some(Fault::NotAMap),
        }
    }

    open spec fn represents(&self, v: Value) -> bool {
        v matches Value::Dict(m) && self.represents_map(m)
    }

    fn from_any_value(value: AnyValue) -> (r: Result<Self, ProtocolError>) {
        T::from_map(value.as_map()?)
    }
}

impl FromAnyValue for ValueMap {
    open spec fn fault(v: Value) -> Option<Fault> {
        if v is Dict {
            None
        } else {
            Some(Fault::MapExpected)
        }
    }

    open spec fn represents(&self, v: Value) -> bool {
        v == Value::Dict(self@)
    }

    fn from_any_value(value: AnyValue) -> (r: Result<Self, ProtocolError>) {
        match value {
            AnyValue::Mapping(m) => Ok(m),
            _ => Err(ProtocolError::MapExpected),
        }
    }
}

/// The failure of the first entry whose value cannot be converted.
pub open spec fn first_entry_fault<T: FromAnyValue>(entries: Seq<(Seq<char>, Value)>) -> Option<
    Fault,
>
    decreases entries.len(),
{
    if entries.len() == 0 {
        None
    } else if T::fault(entries[0].1) is Some {
        T::fault(entries[0].1)
    } else {
        first_entry_fault::<T>(entries.drop_first())
    }
}

impl FromAnyValue for IndexMap<String, String> {
    open spec fn fault(v: Value) -> Option<Fault> {
        match v {
            Value::Dict(m) => first_entry_fault::<String>(m),
            _ => Some(Fault::MapExpected),
        }
    }

    /// The same keys in the same order, each with the string that its value stands for.
    open spec fn represents(&self, v: Value) -> bool {
        v matches Value::Dict(m) && maps::string_entries(*self).len() == m.len() && forall|i: int|
            0 <= i < m.len() ==> {
                &&& (#[trigger] maps::string_entries(*self)[i]).0 == m[i].0
                &&& string_of(m[i].1) == Ok::<Seq<char>, Fault>(maps::string_entries(*self)[i].1)
            }
    }

    fn from_any_value(value: AnyValue) -> (r: Result<Self, ProtocolError>) {
        match value {
            AnyValue::Mapping(m) => {
                let ghost all = m@;
                let entries = m.into_entries();
                let mut map = maps::string_map_new();
                assert(all.skip(0) =~= all);
                for entry in it: entries
                    invariant
                        it.seq() == entries@,
                        value@ == Value::Dict(all),
                        entries@.len() == all.len(),
                        forall|i: int|
                            0 <= i < entries@.len() ==> all[i] == (
                                (#[trigger] entries@[i]).0@,
                                entries@[i].1@,
                            ),
                        value::distinct_keys(all),
                        maps::string_entries(map).len() == it.index(),
                        forall|j: int|
                            0 <= j < it.index() ==> {
                                &&& (#[trigger] maps::string_entries(map)[j]).0 == all[j].0
                                &&& string_of(all[j].1) == Ok::<Seq<char>, Fault>(
                                    maps::string_entries(map)[j].1,
                                )
                            },
                        first_entry_fault::<String>(all.skip(it.index() as int))
                            == first_entry_fault::<String>(all),
                {
                    proof {
                        let i = it.index() as int;
                        assert(all[i] == (entries@[i].0@, entries@[i].1@));
                        assert(all.skip(i)[0] == all[i]);
                        assert(all.skip(i).drop_first() =~= all.skip(i + 1));
                        value::lemma_key_index(maps::string_entries(map), all[i].0);
                    }
                    let converted = String::from_any_value(entry.1)?;
                    maps::string_map_insert(&mut map, entry.0, converted);
                }
                Ok(map)
            },
            _ => Err(ProtocolError::MapExpected),
        }
    }
}

impl FromAnyValue for MangleCacheEntry {
    open spec fn fault(v: Value) -> Option<Fault> {
        if v is Bool || v is Text {
            None
        } else {
            Some(Fault::InvalidMangleCacheEntry(v))
        }
    }

    open spec fn represents(&self, v: Value) -> bool {
        self@.value() == v
    }

    fn from_any_value(value: AnyValue) -> (r: Result<Self, ProtocolError>) {
        match value {
            AnyValue::Bool(b) => Ok(MangleCacheEntry::BoolValue(b)),
            AnyValue::String(s) => Ok(MangleCacheEntry::StringValue(s)),
            value => Err(ProtocolError::InvalidMangleCacheEntry(value)),
        }
    }
}

impl FromAnyValue for IndexMap<String, MangleCacheEntry> {
    open spec fn fault(v: Value) -> Option<Fault> {
        match v {
            Value::Dict(m) => first_entry_fault::<MangleCacheEntry>(m),
            _ => Some(Fault::MapExpected),
        }
    }

    /// The same keys in the same order, with the same values.
    open spec fn represents(&self, v: Value) -> bool {
        v == Value::Dict(maps::mangle_values(maps::mangle_entries(*self)))
    }

    fn from_any_value(value: AnyValue) -> (r: Result<Self, ProtocolError>) {
        match value {
            AnyValue::Mapping(m) => {
                let ghost all = m@;
                let entries = m.into_entries();
                let mut map = maps::mangle_map_new();
                assert(maps::mangle_values(maps::mangle_entries(map)) =~= Seq::empty());
                assert(all.skip(0) =~= all);
                assert(all.take(0) =~= Seq::empty());
                for entry in it: entries
                    invariant
                        it.seq() == entries@,
                        value@ == Value::Dict(all),
                        entries@.len() == all.len(),
                        forall|i: int|
                            0 <= i < entries@.len() ==> all[i] == (
                                (#[trigger] entries@[i]).0@,
                                entries@[i].1@,
                            ),
                        value::distinct_keys(all),
                        maps::mangle_values(maps::mangle_entries(map)) == all.take(
                            it.index() as int,
                        ),
                        first_entry_fault::<MangleCacheEntry>(all.skip(it.index() as int))
                            == first_entry_fault::<MangleCacheEntry>(all),
                {
                    proof {
                        let i = it.index() as int;
                        assert(all[i] == (entries@[i].0@, entries@[i].1@));
                        assert(all.skip(i)[0] == all[i]);
                        assert(all.skip(i).drop_first() =~= all.skip(i + 1));
                        assert(all.take(i + 1) =~= all.take(i).push(all[i]));
                    }
                    let ghost i = it.index() as int;
                    let ghost before = maps::mangle_entries(map);
                    let converted = MangleCacheEntry::from_any_value(entry.1)?;
                    proof {
                        value::lemma_key_index(before, all[i].0);
                        let at = value::key_index(before, all[i].0);
                        if at < before.len() {
                            assert(maps::mangle_values(before)[at] == all.take(i)[at]);
                        }
                        assert(maps::mangle_values(before.push((all[i].0, converted@)))
                            =~= all.take(i + 1));
                    }
                    maps::mangle_map_insert(&mut map, entry.0, converted);
                }
                assert(all.take(all.len() as int) =~= all);
                Ok(map)
            },
            _ => Err(ProtocolError::MapExpected),
        }
    }
}

/// The kind of import with this name.
pub open spec fn import_kind_named(name: Seq<char>) -> Option<ImportKind> {
    if name == "entry-point"@ {
        Some(ImportKind::EntryPoint)
    } else if name == "import-statement"@ {
        Some(ImportKind::ImportStatement)
    } else if name == "require-call"@ {
        Some(ImportKind::RequireCall)
    } else if name == "dynamic-import"@ {
        Some(ImportKind::DynamicImport)
    } else if name == "require-resolve"@ {
        Some(ImportKind::RequireResolve)
    } else if name == "import-rule"@ {
        Some(ImportKind::ImportRule)
    } else if name == "composes-from"@ {
        Some(ImportKind::ComposesFrom)
    } else if name == "url-token"@ {
        Some(ImportKind::UrlToken)
    } else {
        None
    }
}

impl FromAnyValue for ImportKind {
    open spec fn fault(v: Value) -> Option<Fault> {
        match v {
            Value::Text(s) => if import_kind_named(s) is Some {
                None
            } else {
                Some(Fault::InvalidImportKind(s))
            },
            _ => Some(Fault::NotAString),
        }
    }

    open spec fn represents(&self, v: Value) -> bool {
        v matches Value::Text(s) && import_kind_named(s) == Some(*self)
    }

    fn from_any_value(value: AnyValue) -> (r: Result<Self, ProtocolError>) {
        let s = value.as_string()?;
        if is_text(s, "entry-point") {
            Ok(ImportKind::EntryPoint)
        } else if is_text(s, "import-statement") {
            Ok(ImportKind::ImportStatement)
        } else if is_text(s, "require-call") {
            Ok(ImportKind::RequireCall)
        } else if is_text(s, "dynamic-import") {
            Ok(ImportKind::DynamicImport)
        } else if is_text(s, "require-resolve") {
            Ok(ImportKind::RequireResolve)
        } else if is_text(s, "import-rule") {
            Ok(ImportKind::ImportRule)
        } else if is_text(s, "composes-from") {
            Ok(ImportKind::ComposesFrom)
        } else if is_text(s, "url-token") {
            Ok(ImportKind::UrlToken)
        } else {
            Err(ProtocolError::InvalidImportKind(s.clone()))
        }
    }
}

/// The earlier of two failures.
pub open spec fn earlier(a: Option<Fault>, b: Option<Fault>) -> Option<Fault> {
    if a is Some {
        a
    } else {
        b
    }
}

/// How converting the entry under `key` fails, which must be there.
pub open spec fn required_fault<T: FromAnyValue>(
    m: Seq<(Seq<char>, Value)>,
    key: Seq<char>,
) -> Option<Fault> {
    match value::lookup(m, key) {
        None => Some(Fault::OnKey(key, Box::new(Fault::MissingField(key)))),
        Some(v) => match T::fault(v) {
            Some(f) => Some(Fault::OnKey(key, Box::new(f))),
            None => None,
        },
    }
}

/// How converting the entry under `key` fails, which may be absent or null.
pub open spec fn optional_fault<T: FromAnyValue>(
    m: Seq<(Seq<char>, Value)>,
    key: Seq<char>,
) -> Option<Fault> {
    match value::lookup(m, key) {
        None => None,
        Some(v) => Option::<T>::fault(v),
    }
}

/// `x` is what the entry under `key` is converted to.
pub open spec fn required_is<T: FromAnyValue>(
    x: T,
    m: Seq<(Seq<char>, Value)>,
    key: Seq<char>,
) -> bool {
    value::lookup(m, key) matches Some(v) && x.represents(v)
}

/// `x` is what the entry under `key` is converted to, or `None` where there is no such entry.
pub open spec fn optional_is<T: FromAnyValue>(
    x: Option<T>,
    m: Seq<(Seq<char>, Value)>,
    key: Seq<char>,
) -> bool {
    match value::lookup(m, key) {
        None => x is None,
        Some(v) => x.represents(v),
    }
}

/// Converts the entry under `key`.
fn required<T: FromAnyValue>(map: &ValueMap, key: &str) -> (r: Result<T, ProtocolError>)
    ensures
        match r {
            Ok(x) => required_fault::<T>(map@, key@) is None && required_is(x, map@, key@),
            Err(e) => required_fault::<T>(map@, key@) == Some(e@),
        },
{
    match map.get(key) {
        Some(v) => match v.clone().to_type() {
            Ok(x) => Ok(x),
            Err(e) => {
                let r = ProtocolError::OnKey(key.to_owned(), Box::new(e));
                assert(r@ == Fault::OnKey(key@, Box::new(e@)));
                Err(r)
            },
        },
        None => {
            let e = ProtocolError::MissingField(key.to_owned());
            let r = ProtocolError::OnKey(key.to_owned(), Box::new(e));
            assert(r@ == Fault::OnKey(key@, Box::new(e@)));
            Err(r)
        },
    }
}

/// Converts the entry under `key` if there is one.
fn optional<T: FromAnyValue>(map: &ValueMap, key: &str) -> (r: Result<Option<T>, ProtocolError>)
    ensures
        match r {
            Ok(x) => optional_fault::<T>(map@, key@) is None && optional_is(x, map@, key@),
            Err(e) => optional_fault::<T>(map@, key@) == Some(e@),
        },
{
    match map.get(key) {
        Some(v) => v.clone().to_type(),
        None => Ok(None),
    }
}

impl FromMap for Message {
    open spec fn map_fault(m: Seq<(Seq<char>, Value)>) -> Option<Fault> {
        earlier(
            required_fault::<String>(m, "id"@),
            earlier(
                required_fault::<String>(m, "pluginName"@),
                earlier(
                    required_fault::<String>(m, "text"@),
                    earlier(
                        optional_fault::<Location>(m, "location"@),
                        earlier(
                            required_fault::<Vec<Note>>(m, "notes"@),
                            optional_fault::<AnyValue>(m, "detail"@),
                        ),
                    ),
                ),
            ),
        )
    }

    open spec fn represents_map(&self, m: Seq<(Seq<char>, Value)>) -> bool {
        &&& required_is(self.id, m, "id"@)
        &&& required_is(self.plugin_name, m, "pluginName"@)
        &&& required_is(self.text, m, "text"@)
        &&& optional_is(self.location, m, "location"@)
        &&& required_is(self.notes, m, "notes"@)
        &&& optional_is(self.detail, m, "detail"@)
    }

    fn from_map(map: &ValueMap) -> (r: Result<Self, ProtocolError>) {
        let id = required(map, "id")?;
        let plugin_name = required(map, "pluginName")?;
        let text = required(map, "text")?;
        let location = optional(map, "location")?;
        let notes = required(map, "notes")?;
        let detail = optional(map, "detail")?;
        Ok(Message { id, plugin_name, text, location, notes, detail })
    }
}

impl FromMap for Note {
    open spec fn map_fault(m: Seq<(Seq<char>, Value)>) -> Option<Fault> {
        earlier(
            required_fault::<String>(m, "text"@),
            optional_fault::<Location>(m, "location"@),
        )
    }

    open spec fn represents_map(&self, m: Seq<(Seq<char>, Value)>) -> bool {
        &&& required_is(self.text, m, "text"@)
        &&& optional_is(self.location, m, "location"@)
    }

    fn from_map(map: &ValueMap) -> (r: Result<Self, ProtocolError>) {
        let text = required(map, "text")?;
        let location = optional(map, "location")?;
        Ok(Note { text, location })
    }
}

impl FromMap for Location {
    open spec fn map_fault(m: Seq<(Seq<char>, Value)>) -> Option<Fault> {
        earlier(
            required_fault::<String>(m, "file"@),
            earlier(
                required_fault::<String>(m, "namespace"@),
                earlier(
                    required_fault::<u32>(m, "line"@),
                    earlier(
                        required_fault::<u32>(m, "column"@),
                        earlier(
                            required_fault::<u32>(m, "length"@),
                            earlier(
                                required_fault::<String>(m, "lineText"@),
                                required_fault::<String>(m, "suggestion"@),
                            ),
                        ),
                    ),
                ),
            ),
        )
    }

    open spec fn represents_map(&self, m: Seq<(Seq<char>, Value)>) -> bool {
        &&& required_is(self.file, m, "file"@)
        &&& required_is(self.namespace, m, "namespace"@)
        &&& required_is(self.line, m, "line"@)
        &&& required_is(self.column, m, "column"@)
        &&& required_is(self.length, m, "length"@)
        &&& required_is(self.line_text, m, "lineText"@)
        &&& required_is(self.suggestion, m, "suggestion"@)
    }

    fn from_map(map: &ValueMap) -> (r: Result<Self, ProtocolError>) {
        let file = required(map, "file")?;
        let namespace = required(map, "namespace")?;
        let line = required(map, "line")?;
        let column = required(map, "column")?;
        let length = required(map, "length")?;
        let line_text = required(map, "lineText")?;
        let suggestion = required(map, "suggestion")?;
        Ok(Location { file, namespace, line, column, length, line_text, suggestion })
    }
}

impl FromMap for PartialMessage {
    open spec fn map_fault(m: Seq<(Seq<char>, Value)>) -> Option<Fault> {
        earlier(
            required_fault::<String>(m, "id"@),
            earlier(
                required_fault::<String>(m, "pluginName"@),
                earlier(
                    required_fault::<String>(m, "text"@),
                    earlier(
                        optional_fault::<Location>(m, "location"@),
                        earlier(
                            required_fault::<Vec<Note>>(m, "notes"@),
                            required_fault::<u32>(m, "detail"@),
                        ),
                    ),
                ),
            ),
        )
    }

    open spec fn represents_map(&self, m: Seq<(Seq<char>, Value)>) -> bool {
        &&& required_is(self.id, m, "id"@)
        &&& required_is(self.plugin_name, m, "pluginName"@)
        &&& required_is(self.text, m, "text"@)
        &&& optional_is(self.location, m, "location"@)
        &&& required_is(self.notes, m, "notes"@)
        &&& required_is(self.detail, m, "detail"@)
    }

    fn from_map(map: &ValueMap) -> (r: Result<Self, ProtocolError>) {
        let id = required(map, "id")?;
        let plugin_name = required(map, "pluginName")?;
        let text = required(map, "text")?;
        let location = optional(map, "location")?;
        let notes = required(map, "notes")?;
        let detail = required(map, "detail")?;
        Ok(PartialMessage { id, plugin_name, text, location, notes, detail })
    }
}

impl FromMap for BuildResponse {
    open spec fn map_fault(m: Seq<(Seq<char>, Value)>) -> Option<Fault> {
        earlier(
            required_fault::<Vec<Message>>(m, "errors"@),
            earlier(
                required_fault::<Vec<Message>>(m, "warnings"@),
                earlier(
                    optional_fault::<Vec<BuildOutputFile>>(m, "outputFiles"@),
                    earlier(
                        optional_fault::<String>(m, "metafile"@),
                        earlier(
                            optional_fault::<IndexMap<String, MangleCacheEntry>>(m, "mangleCache"@),
                            optional_fault::<Vec<u8>>(m, "writeToStdout"@),
                        ),
                    ),
                ),
            ),
        )
    }

    open spec fn represents_map(&self, m: Seq<(Seq<char>, Value)>) -> bool {
        &&& required_is(self.errors, m, "errors"@)
        &&& required_is(self.warnings, m, "warnings"@)
        &&& optional_is(self.output_files, m, "outputFiles"@)
        &&& optional_is(self.metafile, m, "metafile"@)
        &&& optional_is(self.mangle_cache, m, "mangleCache"@)
        &&& optional_is(self.write_to_stdout, m, "writeToStdout"@)
    }

    fn from_map(map: &ValueMap) -> (r: Result<Self, ProtocolError>) {
        let errors = required(map, "errors")?;
        let warnings = required(map, "warnings")?;
        let output_files = optional(map, "outputFiles")?;
        let metafile = optional(map, "metafile")?;
        let mangle_cache = optional(map, "mangleCache")?;
        let write_to_stdout = optional(map, "writeToStdout")?;
        Ok(BuildResponse { errors, warnings, output_files, metafile, mangle_cache, write_to_stdout })
    }
}

impl FromMap for OnEndRequest {
    open spec fn map_fault(m: Seq<(Seq<char>, Value)>) -> Option<Fault> {
        earlier(
            required_fault::<Vec<Message>>(m, "errors"@),
            earlier(
                required_fault::<Vec<Message>>(m, "warnings"@),
                earlier(
                    optional_fault::<Vec<BuildOutputFile>>(m, "outputFiles"@),
                    earlier(
                        optional_fault::<String>(m, "metafile"@),
                        earlier(
                            optional_fault::<IndexMap<String, MangleCacheEntry>>(m, "mangleCache"@),
                            optional_fault::<Vec<u8>>(m, "writeToStdout"@),
                        ),
                    ),
                ),
            ),
        )
    }

    open spec fn represents_map(&self, m: Seq<(Seq<char>, Value)>) -> bool {
        &&& required_is(self.errors, m, "errors"@)
        &&& required_is(self.warnings, m, "warnings"@)
        &&& optional_is(self.output_files, m, "outputFiles"@)
        &&& optional_is(self.metafile, m, "metafile"@)
        &&& optional_is(self.mangle_cache, m, "mangleCache"@)
        &&& optional_is(self.write_to_stdout, m, "writeToStdout"@)
    }

    fn from_map(map: &ValueMap) -> (r: Result<Self, ProtocolError>) {
        let errors = required(map, "errors")?;
        let warnings = required(map, "warnings")?;
        let output_files = optional(map, "outputFiles")?;
        let metafile = optional(map, "metafile")?;
        let mangle_cache = optional(map, "mangleCache")?;
        let write_to_stdout = optional(map, "writeToStdout")?;
        Ok(OnEndRequest { errors, warnings, output_files, metafile, mangle_cache, write_to_stdout })
    }
}

impl FromMap for BuildOutputFile {
    open spec fn map_fault(m: Seq<(Seq<char>, Value)>) -> Option<Fault> {
        earlier(
            required_fault::<String>(m, "path"@),
            earlier(
                required_fault::<Vec<u8>>(m, "contents"@),
                required_fault::<String>(m, "hash"@),
            ),
        )
    }

    open spec fn represents_map(&self, m: Seq<(Seq<char>, Value)>) -> bool {
        &&& required_is(self.path, m, "path"@)
        &&& required_is(self.contents, m, "contents"@)
        &&& required_is(self.hash, m, "hash"@)
    }

    fn from_map(map: &ValueMap) -> (r: Result<Self, ProtocolError>) {
        let path = required(map, "path")?;
        let contents = required(map, "contents")?;
        let hash = required(map, "hash")?;
        Ok(BuildOutputFile { path, contents, hash })
    }
}

impl FromMap for RebuildResponse {
    open spec fn map_fault(m: Seq<(Seq<char>, Value)>) -> Option<Fault> {
        earlier(
            required_fault::<Vec<Message>>(m, "errors"@),
            required_fault::<Vec<Message>>(m, "warnings"@),
        )
    }

    open spec fn represents_map(&self, m: Seq<(Seq<char>, Value)>) -> bool {
        &&& required_is(self.errors, m, "errors"@)
        &&& required_is(self.warnings, m, "warnings"@)
    }

    fn from_map(map: &ValueMap) -> (r: Result<Self, ProtocolError>) {
        let errors = required(map, "errors")?;
        let warnings = required(map, "warnings")?;
        Ok(RebuildResponse { errors, warnings })
    }
}

impl FromMap for OnResolveRequest {
    open spec fn map_fault(m: Seq<(Seq<char>, Value)>) -> Option<Fault> {
        earlier(
            required_fault::<u32>(m, "key"@),
            earlier(
                required_fault::<Vec<u32>>(m, "ids"@),
                earlier(
                    required_fault::<String>(m, "path"@),
                    earlier(
                        required_fault::<String>(m, "importer"@),
                        earlier(
                            required_fault::<String>(m, "namespace"@),
                            earlier(
                                optional_fault::<String>(m, "resolveDir"@),
                                earlier(
                                    required_fault::<ImportKind>(m, "kind"@),
                                    earlier(
                                        optional_fault::<u32>(m, "pluginData"@),
                                        required_fault::<IndexMap<String, String>>(m, "with"@),
                                    ),
                                ),
                            ),
                        ),
                    ),
                ),
            ),
        )
    }

    open spec fn represents_map(&self, m: Seq<(Seq<char>, Value)>) -> bool {
        &&& required_is(self.key, m, "key"@)
        &&& required_is(self.ids, m, "ids"@)
        &&& required_is(self.path, m, "path"@)
        &&& required_is(self.importer, m, "importer"@)
        &&& required_is(self.namespace, m, "namespace"@)
        &&& optional_is(self.resolve_dir, m, "resolveDir"@)
        &&& required_is(self.kind, m, "kind"@)
        &&& optional_is(self.plugin_data, m, "pluginData"@)
        &&& required_is(self.with, m, "with"@)
    }

    fn from_map(map: &ValueMap) -> (r: Result<Self, ProtocolError>) {
        let key = required(map, "key")?;
        let ids = required(map, "ids")?;
        let path = required(map, "path")?;
        let importer = required(map, "importer")?;
        let namespace = required(map, "namespace")?;
        let resolve_dir = optional(map, "resolveDir")?;
        let kind = required(map, "kind")?;
        let plugin_data = optional(map, "pluginData")?;
        let with = required(map, "with")?;
        Ok(OnResolveRequest { key, ids, path, importer, namespace, resolve_dir, kind, plugin_data, with })
    }
}

impl FromMap for OnLoadRequest {
    open spec fn map_fault(m: Seq<(Seq<char>, Value)>) -> Option<Fault> {
        earlier(
            required_fault::<u32>(m, "key"@),
            earlier(
                required_fault::<Vec<u32>>(m, "ids"@),
                earlier(
                    required_fault::<String>(m, "path"@),
                    earlier(
                        required_fault::<String>(m, "namespace"@),
                        earlier(
                            required_fault::<String>(m, "suffix"@),
                            earlier(
                                optional_fault::<u32>(m, "pluginData"@),
                                required_fault::<IndexMap<String, String>>(m, "with"@),
                            ),
                        ),
                    ),
                ),
            ),
        )
    }

    open spec fn represents_map(&self, m: Seq<(Seq<char>, Value)>) -> bool {
        &&& required_is(self.key, m, "key"@)
        &&& required_is(self.ids, m, "ids"@)
        &&& required_is(self.path, m, "path"@)
        &&& required_is(self.namespace, m, "namespace"@)
        &&& required_is(self.suffix, m, "suffix"@)
        &&& optional_is(self.plugin_data, m, "pluginData"@)
        &&& required_is(self.with, m, "with"@)
    }

    fn from_map(map: &ValueMap) -> (r: Result<Self, ProtocolError>) {
        let key = required(map, "key")?;
        let ids = required(map, "ids")?;
        let path = required(map, "path")?;
        let namespace = required(map, "namespace")?;
        let suffix = required(map, "suffix")?;
        let plugin_data = optional(map, "pluginData")?;
        let with = required(map, "with")?;
        Ok(OnLoadRequest { key, ids, path, namespace, suffix, plugin_data, with })
    }
}

impl FromMap for OnStartRequest {
    open spec fn map_fault(m: Seq<(Seq<char>, Value)>) -> Option<Fault> {
        required_fault::<u32>(m, "key"@)
    }

    open spec fn represents_map(&self, m: Seq<(Seq<char>, Value)>) -> bool {
        &&& required_is(self.key, m, "key"@)
    }

    fn from_map(map: &ValueMap) -> (r: Result<Self, ProtocolError>) {
        let key = required(map, "key")?;
        Ok(OnStartRequest { key })
    }
}

/// A message that may also be sent as its text alone.
pub struct MessageFromAnyValue(pub Message);

impl FromAnyValue for MessageFromAnyValue {
    open spec fn fault(v: Value) -> Option<Fault> {
        match v {
            Value::Dict(m) => Message::map_fault(m),
            Value::Text(_) => None,
            _ => Some(Fault::NotAMap),
        }
    }

    open spec fn represents(&self, v: Value) -> bool {
        match v {
            Value::Dict(m) => self.0.represents_map(m),
            Value::Text(s) => {
                &&& self.0.text@ == s
                &&& self.0.id@.len() == 0
                &&& self.0.plugin_name@.len() == 0
                &&& self.0.location is None
                &&& self.0.notes@.len() == 0
                &&& self.0.detail is None
            },
            _ => false,
        }
    }

    fn from_any_value(value: AnyValue) -> (r: Result<Self, ProtocolError>) {
        match value {
            AnyValue::Mapping(map) => Ok(MessageFromAnyValue(Message::from_map(&map)?)),
            AnyValue::String(s) => Ok(
                MessageFromAnyValue(
                    Message {
                        id: String::new(),
                        plugin_name: String::new(),
                        text: s,
                        location: None,
                        notes: Vec::new(),
                        detail: None,
                    },
                ),
            ),
            _ => Ok(MessageFromAnyValue(Message::from_any_value(value)?)),
        }
    }
}

/// A map with an entry `error` is an error, whatever else it holds.
impl<T: FromMap> FromMap for Result<T, Message> {
    open spec fn map_fault(m: Seq<(Seq<char>, Value)>) -> Option<Fault> {
        match value::lookup(m, "error"@) {
            Some(v) => MessageFromAnyValue::fault(v),
            None => T::map_fault(m),
        }
    }

    open spec fn represents_map(&self, m: Seq<(Seq<char>, Value)>) -> bool {
        match value::lookup(m, "error"@) {
            Some(v) => self matches Err(message) && MessageFromAnyValue(*message).represents(v),
            None => self matches Ok(x) && x.represents_map(m),
        }
    }

    fn from_map(map: &ValueMap) -> (r: Result<Self, ProtocolError>) {
        if let Some(v) = map.get("error") {
            let error = MessageFromAnyValue::from_any_value(v.clone())?;
            return Ok(Err(error.0));
        }
        Ok(Ok(T::from_map(map)?))
    }
}

} // verus!
