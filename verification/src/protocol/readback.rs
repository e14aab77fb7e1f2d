//! What is sent for a message is converted back to a message for which the same is sent.
use crate::protocol::convert;
use crate::protocol::convert::{FromAnyValue, FromMap};
use crate::protocol::encode;
use crate::protocol::encode::Encode;
use crate::protocol::maps;
use crate::protocol::messages::{
    BuildOutputFile, Location, MangleCacheEntry, Message, Note, OnEndRequest, OnLoadRequest,
    OnStartRequest, PartialMessage, RebuildResponse,
};
use crate::protocol::value;
use crate::protocol::value::{AnyValue, Value};
use indexmap::IndexMap;
use vstd::prelude::*;

verus! {

/// The value that is sent for `x` can be converted, `x` is a result of that, and for every result
/// the same value is sent as for `x`.
pub open spec fn survives<T: Encode + FromAnyValue>(x: T) -> bool {
    &&& T::fault(x.wire()) is None
    &&& x.represents(x.wire())
    &&& forall|y: T| #[trigger] y.represents(x.wire()) ==> y.wire() == x.wire()
}

/// The same of an optional value that is left out where it is absent. It must not be sent as
/// null, which is converted to its absence.
pub open spec fn survives_if_some<T: Encode + FromAnyValue>(x: Option<T>) -> bool {
    x matches Some(x) ==> survives(x) && x.wire() !is Null
}

/// Whether every value of a list survives.
pub open spec fn all_survive<T: Encode + FromAnyValue>(items: Seq<T>) -> bool {
    forall|i: int| 0 <= i < items.len() ==> survives(#[trigger] items[i])
}

/// Converting the items of a list fails nowhere if it fails at none of them.
proof fn lemma_no_first_fault<T: FromAnyValue>(items: Seq<Value>)
    requires
        forall|i: int| 0 <= i < items.len() ==> T::fault(#[trigger] items[i]) is None,
    ensures
        convert::first_fault::<T>(items) is None,
    decreases items.len(),
{
    if items.len() > 0 {
        assert forall|i: int| 0 <= i < items.drop_first().len() implies T::fault(
            #[trigger] items.drop_first()[i],
        ) is None by {
            assert(items.drop_first()[i] == items[i + 1]);
        }
        lemma_no_first_fault::<T>(items.drop_first());
    }
}

/// Converting the values of a map fails nowhere if it fails at none of them.
proof fn lemma_no_first_entry_fault<T: FromAnyValue>(entries: Seq<(Seq<char>, Value)>)
    requires
        forall|i: int| 0 <= i < entries.len() ==> T::fault((#[trigger] entries[i]).1) is None,
    ensures
        convert::first_entry_fault::<T>(entries) is None,
    decreases entries.len(),
{
    if entries.len() > 0 {
        assert forall|i: int| 0 <= i < entries.drop_first().len() implies T::fault(
            (#[trigger] entries.drop_first()[i]).1,
        ) is None by {
            assert(entries.drop_first()[i] == entries[i + 1]);
        }
        lemma_no_first_entry_fault::<T>(entries.drop_first());
    }
}

/// A list survives if its values do.
pub proof fn lemma_list_survives<T: Encode + FromAnyValue>(list: Vec<T>)
    requires
        all_survive(list@),
    ensures
        survives(list),
{
    let items = encode::wires(list@);
    assert forall|i: int| 0 <= i < items.len() implies T::fault(#[trigger] items[i]) is None by {
        assert(survives(list@[i]));
    }
    lemma_no_first_fault::<T>(items);
    assert forall|i: int| 0 <= i < items.len() implies (#[trigger] list@[i]).represents(
        items[i],
    ) by {
        assert(survives(list@[i]));
    }
    assert forall|y: Vec<T>| #[trigger] y.represents(list.wire()) implies y.wire()
        == list.wire() by {
        assert forall|i: int| 0 <= i < items.len() implies encode::wires(y@)[i] == items[i] by {
            assert(survives(list@[i]));
            assert(y@[i].represents(items[i]));
        }
        assert(encode::wires(y@) =~= items);
    }
}

/// A map of strings survives.
pub proof fn lemma_string_map_survives(m: IndexMap<String, String>)
    ensures
        survives(m),
{
    let entries = encode::text_entries(maps::string_entries(m));
    assert forall|i: int| 0 <= i < entries.len() implies String::fault(
        (#[trigger] entries[i]).1,
    ) is None by {}
    lemma_no_first_entry_fault::<String>(entries);
    assert forall|y: IndexMap<String, String>| #[trigger] y.represents(m.wire()) implies y.wire()
        == m.wire() by {
        assert forall|i: int| 0 <= i < entries.len() implies encode::text_entries(
            maps::string_entries(y),
        )[i] == entries[i] by {
            assert(maps::string_entries(y)[i].0 == entries[i].0);
        }
        assert(encode::text_entries(maps::string_entries(y)) =~= entries);
    }
}

/// What is sent for a field that survives is converted back, where the field is not optional.
proof fn lemma_required<T: Encode + FromAnyValue>(
    x: T,
    m: Seq<(Seq<char>, Value)>,
    key: Seq<char>,
)
    requires
        survives(x),
        value::lookup(m, key) == Some(x.wire()),
    ensures
        convert::required_fault::<T>(m, key) is None,
        convert::required_is(x, m, key),
        forall|y: T| #[trigger] convert::required_is(y, m, key) ==> y.wire() == x.wire(),
{
}

/// What is sent for a field that survives is converted back, where the field is optional.
proof fn lemma_optional<T: Encode + FromAnyValue>(
    x: Option<T>,
    m: Seq<(Seq<char>, Value)>,
    key: Seq<char>,
)
    requires
        survives_if_some(x),
        value::lookup(m, key) == encode::wire_if_some(x),
    ensures
        convert::optional_fault::<T>(m, key) is None,
        convert::optional_is(x, m, key),
        forall|y: Option<T>| #[trigger]
            convert::optional_is(y, m, key) ==> encode::wire_if_some(y) == encode::wire_if_some(x),
{
}

impl Location {
    /// A location is converted back.
    pub proof fn lemma_survives(&self)
        ensures
            survives(*self),
            self.wire() !is Null,
    {
        let m = self.fields();
        self.lemma_fields();
        lemma_required(self.file, m, "file"@);
        lemma_required(self.namespace, m, "namespace"@);
        lemma_required(self.line, m, "line"@);
        lemma_required(self.column, m, "column"@);
        lemma_required(self.length, m, "length"@);
        lemma_required(self.line_text, m, "lineText"@);
        lemma_required(self.suggestion, m, "suggestion"@);
    }
}

impl Note {
    /// A note is converted back.
    pub proof fn lemma_survives(&self)
        ensures
            survives(*self),
            self.wire() !is Null,
    {
        let m = self.fields();
        self.lemma_fields();
        if let Some(location) = self.location {
            location.lemma_survives();
        }
        lemma_required(self.text, m, "text"@);
        lemma_optional(self.location, m, "location"@);
    }
}

impl Message {
    /// A message is converted back. Its detail must not be null, which is converted to the absence
    /// of a detail.
    pub proof fn lemma_survives(&self)
        requires
            self.detail matches Some(detail) ==> detail@ !is Null,
        ensures
            survives(*self),
            self.wire() !is Null,
    {
        let m = self.fields();
        self.lemma_fields();
        if let Some(location) = self.location {
            location.lemma_survives();
        }
        assert forall|i: int| 0 <= i < self.notes@.len() implies survives(
            #[trigger] self.notes@[i],
        ) by {
            self.notes@[i].lemma_survives();
        }
        lemma_list_survives(self.notes);
        lemma_required(self.id, m, "id"@);
        lemma_required(self.plugin_name, m, "pluginName"@);
        lemma_required(self.text, m, "text"@);
        lemma_optional(self.location, m, "location"@);
        lemma_required(self.notes, m, "notes"@);
        lemma_optional(self.detail, m, "detail"@);
    }
}

impl PartialMessage {
    /// A message of a plugin is converted back.
    pub proof fn lemma_survives(&self)
        ensures
            survives(*self),
            self.wire() !is Null,
    {
        let m = self.fields();
        self.lemma_fields();
        if let Some(location) = self.location {
            location.lemma_survives();
        }
        assert forall|i: int| 0 <= i < self.notes@.len() implies survives(
            #[trigger] self.notes@[i],
        ) by {
            self.notes@[i].lemma_survives();
        }
        lemma_list_survives(self.notes);
        lemma_required(self.id, m, "id"@);
        lemma_required(self.plugin_name, m, "pluginName"@);
        lemma_required(self.text, m, "text"@);
        lemma_optional(self.location, m, "location"@);
        lemma_required(self.notes, m, "notes"@);
        lemma_required(self.detail, m, "detail"@);
    }
}

impl BuildOutputFile {
    /// An output file is converted back.
    pub proof fn lemma_survives(&self)
        ensures
            survives(*self),
            self.wire() !is Null,
    {
        let m = self.fields();
        self.lemma_fields();
        lemma_required(self.path, m, "path"@);
        lemma_required(self.contents, m, "contents"@);
        lemma_required(self.hash, m, "hash"@);
    }
}

/// Whether the details of some messages are not null.
pub open spec fn details_not_null(messages: Seq<Message>) -> bool {
    forall|i: int|
        0 <= i < messages.len() ==> ((#[trigger] messages[i]).detail matches Some(detail)
            ==> detail@ !is Null)
}

/// Messages are converted back.
pub proof fn lemma_messages_survive(messages: Vec<Message>)
    requires
        details_not_null(messages@),
    ensures
        survives(messages),
{
    assert forall|i: int| 0 <= i < messages@.len() implies survives(#[trigger] messages@[i]) by {
        messages@[i].lemma_survives();
    }
    lemma_list_survives(messages);
}

impl RebuildResponse {
    /// The outcome of a repeated build is converted back.
    pub proof fn lemma_survives(&self)
        requires
            details_not_null(self.errors@),
            details_not_null(self.warnings@),
        ensures
            survives(*self),
            self.wire() !is Null,
    {
        let m = self.fields();
        self.lemma_fields();
        lemma_messages_survive(self.errors);
        lemma_messages_survive(self.warnings);
        lemma_required(self.errors, m, "errors"@);
        lemma_required(self.warnings, m, "warnings"@);
    }
}

impl OnEndRequest {
    /// The outcome of a build that an end hook is told is converted back.
    pub proof fn lemma_survives(&self)
        requires
            details_not_null(self.errors@),
            details_not_null(self.warnings@),
        ensures
            survives(*self),
            self.wire() !is Null,
    {
        let m = self.fields();
        self.lemma_fields();
        lemma_messages_survive(self.errors);
        lemma_messages_survive(self.warnings);
        if let Some(files) = self.output_files {
            assert forall|i: int| 0 <= i < files@.len() implies survives(#[trigger] files@[i]) by {
                files@[i].lemma_survives();
            }
            lemma_list_survives(files);
        }
        if let Some(cache) = self.mangle_cache {
            lemma_no_first_entry_fault::<MangleCacheEntry>(
                maps::mangle_values(maps::mangle_entries(cache)),
            );
        }
        lemma_required(self.errors, m, "errors"@);
        lemma_required(self.warnings, m, "warnings"@);
        lemma_optional(self.output_files, m, "outputFiles"@);
        lemma_optional(self.metafile, m, "metafile"@);
        lemma_optional(self.mangle_cache, m, "mangleCache"@);
        lemma_optional(self.write_to_stdout, m, "writeToStdout"@);
    }
}

impl OnStartRequest {
    /// A request to call a start hook is converted back.
    pub proof fn lemma_survives(&self)
        ensures
            survives(*self),
            self.wire() !is Null,
    {
        let m = self.fields();
        self.lemma_fields();
        lemma_required(self.key, m, "key"@);
    }
}

impl OnLoadRequest {
    /// A request to call a load hook is converted back.
    pub proof fn lemma_survives(&self)
        ensures
            survives(*self),
            self.wire() !is Null,
    {
        let m = self.fields();
        self.lemma_fields();
        lemma_list_survives(self.ids);
        lemma_string_map_survives(self.with);
        lemma_required(self.key, m, "key"@);
        lemma_required(self.ids, m, "ids"@);
        lemma_required(self.path, m, "path"@);
        lemma_required(self.namespace, m, "namespace"@);
        lemma_required(self.suffix, m, "suffix"@);
        lemma_optional(self.plugin_data, m, "pluginData"@);
        lemma_required(self.with, m, "with"@);
    }
}

} // verus!
