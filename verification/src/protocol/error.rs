//! What can go wrong when packets are decoded and values are converted.
use crate::protocol::printed;
use crate::protocol::value::{AnyValue, Value};
use crate::text;
use vstd::prelude::*;

verus! {

/// A failure to decode a packet or to convert a value.
#[derive(Debug)]
pub enum ProtocolError {
    /// A value starts with a byte that is no value tag.
    InvalidTag(u8),
    /// The bytes of an encoded string are not UTF-8, for this reason.
    UndecodableString(String),
    /// Bytes that stand for a string are not UTF-8, for this reason.
    InvalidUtf8(String),
    /// A string was expected, another value was there.
    StringExpected(AnyValue),
    /// An integer was expected, another value was there.
    U32Expected(AnyValue),
    /// A boolean was expected.
    BoolExpected,
    /// Bytes were expected.
    BytesExpected,
    /// A list was expected.
    VecExpected,
    /// A map to convert entry by entry was expected.
    MapExpected,
    /// A value that should be read as a string is none.
    NotAString,
    /// A value that should be read as a map is none.
    NotAMap,
    /// No import kind has this name.
    InvalidImportKind(String),
    /// The value is neither a string nor a boolean.
    InvalidMangleCacheEntry(AnyValue),
    /// A map lacks an entry that is not optional.
    MissingField(String),
    /// The failure is that of the entry under this key.
    OnKey(String, Box<ProtocolError>),
}

/// The model of a [`ProtocolError`].
#[verifier::ext_equal]
pub enum Fault {
    InvalidTag(u8),
    UndecodableString(Seq<char>),
    InvalidUtf8(Seq<char>),
    StringExpected(Value),
    U32Expected(Value),
    BoolExpected,
    BytesExpected,
    VecExpected,
    MapExpected,
    NotAString,
    NotAMap,
    InvalidImportKind(Seq<char>),
    InvalidMangleCacheEntry(Value),
    MissingField(Seq<char>),
    OnKey(Seq<char>, Box<Fault>),
}

/// The model of an error.
pub open spec fn fault_of(e: ProtocolError) -> Fault
    decreases e,
{
    match e {
        ProtocolError::InvalidTag(t) => Fault::InvalidTag(t),
        ProtocolError::UndecodableString(reason) => Fault::UndecodableString(reason@),
        ProtocolError::InvalidUtf8(reason) => Fault::InvalidUtf8(reason@),
        ProtocolError::StringExpected(v) => Fault::StringExpected(v@),
        ProtocolError::U32Expected(v) => Fault::U32Expected(v@),
        ProtocolError::BoolExpected => Fault::BoolExpected,
        ProtocolError::BytesExpected => Fault::BytesExpected,
        ProtocolError::VecExpected => Fault::VecExpected,
        ProtocolError::MapExpected => Fault::MapExpected,
        ProtocolError::NotAString => Fault::NotAString,
        ProtocolError::NotAMap => Fault::NotAMap,
        ProtocolError::InvalidImportKind(s) => Fault::InvalidImportKind(s@),
        ProtocolError::InvalidMangleCacheEntry(v) => Fault::InvalidMangleCacheEntry(v@),
        ProtocolError::MissingField(k) => Fault::MissingField(k@),
        ProtocolError::OnKey(k, inner) => Fault::OnKey(k@, Box::new(fault_of(*inner))),
    }
}

impl View for ProtocolError {
    type V = Fault;

    open spec fn view(&self) -> Fault {
        fault_of(*self)
    }
}

impl ProtocolError {
    /// What is told to the user; for an error under a key, which key that is.
    pub open spec fn text(&self) -> Seq<char> {
        match *self {
            ProtocolError::InvalidTag(tag) => "Invalid value: "@ + text::decimal(tag as nat),
            ProtocolError::UndecodableString(reason) => "Failed to decode string: "@ + reason@,
            ProtocolError::InvalidUtf8(reason) => reason@,
            ProtocolError::StringExpected(v) => "expected string, got "@ + printed::value_text(v@),
            ProtocolError::U32Expected(v) => "expected u32, got "@ + printed::value_text(v@),
            ProtocolError::BoolExpected => "expected bool"@,
            ProtocolError::BytesExpected => "expected bytes"@,
            ProtocolError::VecExpected => "expected vec"@,
            ProtocolError::MapExpected => "expected map"@,
            ProtocolError::NotAString => "Expected string"@,
            ProtocolError::NotAMap => "Expected map"@,
            ProtocolError::InvalidImportKind(name) => "invalid import kind: "@ + name@,
            ProtocolError::InvalidMangleCacheEntry(v) => "invalid mangle cache entry: "@
                + printed::value_text(v@),
            ProtocolError::MissingField(key) => "Missing field: "@ + key@,
            ProtocolError::OnKey(key, _) => "on key: "@ + key@,
        }
    }

    pub fn to_string(&self) -> (r: String)
        ensures
            r@ == self.text(),
    {
        match self {
            ProtocolError::InvalidTag(tag) => text::joined(
                "Invalid value: ",
                text::u32_to_string(*tag as u32).as_str(),
            ),
            ProtocolError::UndecodableString(reason) => text::joined(
                "Failed to decode string: ",
                reason.as_str(),
            ),
            ProtocolError::InvalidUtf8(reason) => reason.clone(),
            ProtocolError::StringExpected(v) => text::joined(
                "expected string, got ",
                printed::print_value(v).as_str(),
            ),
            ProtocolError::U32Expected(v) => text::joined(
                "expected u32, got ",
                printed::print_value(v).as_str(),
            ),
            ProtocolError::BoolExpected => "expected bool".to_owned(),
            ProtocolError::BytesExpected => "expected bytes".to_owned(),
            ProtocolError::VecExpected => "expected vec".to_owned(),
            ProtocolError::MapExpected => "expected map".to_owned(),
            ProtocolError::NotAString => "Expected string".to_owned(),
            ProtocolError::NotAMap => "Expected map".to_owned(),
            ProtocolError::InvalidImportKind(name) => text::joined(
                "invalid import kind: ",
                name.as_str(),
            ),
            ProtocolError::InvalidMangleCacheEntry(v) => text::joined(
                "invalid mangle cache entry: ",
                printed::print_value(v).as_str(),
            ),
            ProtocolError::MissingField(key) => text::joined("Missing field: ", key.as_str()),
            ProtocolError::OnKey(key, _) => text::joined("on key: ", key.as_str()),
        }
    }
}

} // verus!
