//! What is sent for the messages, field by field.
use crate::protocol::encode;
use crate::protocol::encode::Encode;
use crate::protocol::encoders;
use crate::protocol::error::ProtocolError;
use crate::protocol::fields;
use crate::protocol::maps;
use crate::protocol::messages::{
    AnalyzeMetafileRequest, AnyRequest, AnyResponse, BuildOutputFile, BuildPlugin, BuildRequest,
    CancelRequest, DisposeRequest, FormatMsgsRequest, Location, MangleCacheEntry, MangleModel,
    Message, Note, OnEndRequest, OnEndResponse, OnLoadRequest, OnLoadResponse, OnLoadSetupOptions,
    OnResolveResponse, OnResolveSetupOptions, OnServeRequest, OnStartRequest, OnStartResponse,
    PartialMessage, PingRequest, PingResponse, ProtocolMessage, ProtocolPacket, RebuildRequest,
    RebuildResponse, ResolveRequest, ServeOnRequestArgs, ServeRequest, TransformRequest,
    WatchRequest,
};
use crate::protocol::roundtrip;
use crate::protocol::value;
use crate::protocol::value::Value;
use crate::protocol::wire;
use crate::protocol::wire::{PacketModel, Parse};
use indexmap::IndexMap;
use vstd::prelude::*;

verus! {

/// A list of strings is sent as the list of those strings.
pub open spec fn texts_sent(v: Value, x: Seq<String>) -> bool {
    v matches Value::List(l) && l.len() == x.len() && forall|i: int|
        0 <= i < l.len() ==> #[trigger] l[i] == Value::Text(x[i]@)
}

/// A list of numbers is sent as the list of those numbers.
pub open spec fn numbers_sent(v: Value, x: Seq<u32>) -> bool {
    v matches Value::List(l) && l.len() == x.len() && forall|i: int|
        0 <= i < l.len() ==> #[trigger] l[i] == Value::U32(x[i])
}

/// A list of pairs is sent as a list of lists of two.
pub open spec fn pairs_sent(v: Value, x: Seq<(String, String)>) -> bool {
    v matches Value::List(l) && l.len() == x.len() && forall|i: int|
        0 <= i < l.len() ==> #[trigger] l[i] == Value::List(
            seq![Value::Text(x[i].0@), Value::Text(x[i].1@)],
        )
}

/// A map of strings is sent as the map with the same entries in the same order.
pub open spec fn strings_sent(v: Value, x: IndexMap<String, String>) -> bool {
    v matches Value::Dict(d) && d.len() == maps::string_entries(x).len() && forall|i: int|
        0 <= i < d.len() ==> (#[trigger] d[i]).0 == maps::string_entries(x)[i].0 && d[i].1
            == Value::Text(maps::string_entries(x)[i].1)
}

/// A mangle cache is sent as the map with the same entries in the same order.
pub open spec fn mangle_cache_sent(v: Value, x: IndexMap<String, MangleCacheEntry>) -> bool {
    v matches Value::Dict(d) && d.len() == maps::mangle_entries(x).len() && forall|i: int|
        0 <= i < d.len() ==> (#[trigger] d[i]).0 == maps::mangle_entries(x)[i].0 && d[i].1
            == match maps::mangle_entries(x)[i].1 {
            MangleModel::Text(s) => Value::Text(s),
            MangleModel::Bool(b) => Value::Bool(b),
        }
}

/// `v` is the map with each field, and nothing else.
pub open spec fn location_sent(v: Value, x: Location) -> bool {
    &&& v matches Value::Dict(m)
    &&& value::distinct_keys(m)
    &&& m.len() == 7int
    &&& value::lookup(m, "file"@) matches Some(f) && f == Value::Text(x.file@)
    &&& value::lookup(m, "namespace"@) matches Some(f) && f == Value::Text(x.namespace@)
    &&& value::lookup(m, "line"@) matches Some(f) && f == Value::U32(x.line)
    &&& value::lookup(m, "column"@) matches Some(f) && f == Value::U32(x.column)
    &&& value::lookup(m, "length"@) matches Some(f) && f == Value::U32(x.length)
    &&& value::lookup(m, "lineText"@) matches Some(f) && f == Value::Text(x.line_text@)
    &&& value::lookup(m, "suggestion"@) matches Some(f) && f == Value::Text(x.suggestion@)
}

proof fn lemma_location_sent(x: Location)
    ensures
        location_sent(x.wire(), x),
{
    x.lemma_fields();
}

/// What is sent for it.
pub proof fn law_location_sent(x: Location, buf: &mut Vec<u8>)
    requires
        call_ensures(<Location as Encode>::encode_into, (&x, buf), ()),
    ensures
        exists|v: Value|
            #[trigger] location_sent(v, x) && final(buf)@ == old(buf)@ + encode::encode_value(v),
{
    lemma_location_sent(x);
}

/// `v` is the map with each field, and nothing else.
pub open spec fn note_sent(v: Value, x: Note) -> bool {
    &&& v matches Value::Dict(m)
    &&& value::distinct_keys(m)
    &&& m.len() == 1int
        + fields::present(x.location)
    &&& value::lookup(m, "text"@) matches Some(f) && f == Value::Text(x.text@)
    &&& match x.location {
        Some(y) => value::lookup(m, "location"@) matches Some(f) && location_sent(f, y),
        None => value::lookup(m, "location"@) is None,
    }
}

proof fn lemma_note_sent(x: Note)
    ensures
        note_sent(x.wire(), x),
{
    x.lemma_fields();
    if let Some(y) = x.location {
        lemma_location_sent(y);
    }
}

/// What is sent for it.
pub proof fn law_note_sent(x: Note, buf: &mut Vec<u8>)
    requires
        call_ensures(<Note as Encode>::encode_into, (&x, buf), ()),
    ensures
        exists|v: Value|
            #[trigger] note_sent(v, x) && final(buf)@ == old(buf)@ + encode::encode_value(v),
{
    lemma_note_sent(x);
}

/// A list of them is sent as the list of what is sent for each.
pub open spec fn notes_sent(v: Value, x: Seq<Note>) -> bool {
    v matches Value::List(l) && l.len() == x.len() && forall|i: int|
        0 <= i < l.len() ==> note_sent(#[trigger] l[i], x[i])
}

proof fn lemma_notes_sent(x: Vec<Note>)
    ensures
        notes_sent(x.wire(), x@),
{
    if let Value::List(l) = x.wire() {
        assert forall|i: int| 0 <= i < l.len() implies note_sent(#[trigger] l[i], x@[i]) by {
            lemma_note_sent(x@[i]);
        }
    }
}

/// `v` is the map with each field, and nothing else.
pub open spec fn message_sent(v: Value, x: Message) -> bool {
    &&& v matches Value::Dict(m)
    &&& value::distinct_keys(m)
    &&& m.len() == 4int
        + fields::present(x.location)
        + fields::present(x.detail)
    &&& value::lookup(m, "id"@) matches Some(f) && f == Value::Text(x.id@)
    &&& value::lookup(m, "pluginName"@) matches Some(f) && f == Value::Text(x.plugin_name@)
    &&& value::lookup(m, "text"@) matches Some(f) && f == Value::Text(x.text@)
    &&& match x.location {
        Some(y) => value::lookup(m, "location"@) matches Some(f) && location_sent(f, y),
        None => value::lookup(m, "location"@) is None,
    }
    &&& value::lookup(m, "notes"@) matches Some(f) && notes_sent(f, x.notes@)
    &&& match x.detail {
        Some(y) => value::lookup(m, "detail"@) matches Some(f) && f == y@,
        None => value::lookup(m, "detail"@) is None,
    }
}

proof fn lemma_message_sent(x: Message)
    ensures
        message_sent(x.wire(), x),
{
    x.lemma_fields();
    if let Some(y) = x.location {
        lemma_location_sent(y);
    }
    lemma_notes_sent(x.notes);
}

/// What is sent for it.
pub proof fn law_message_sent(x: Message, buf: &mut Vec<u8>)
    requires
        call_ensures(<Message as Encode>::encode_into, (&x, buf), ()),
    ensures
        exists|v: Value|
            #[trigger] message_sent(v, x) && final(buf)@ == old(buf)@ + encode::encode_value(v),
{
    lemma_message_sent(x);
}

/// A list of them is sent as the list of what is sent for each.
pub open spec fn messages_sent(v: Value, x: Seq<Message>) -> bool {
    v matches Value::List(l) && l.len() == x.len() && forall|i: int|
        0 <= i < l.len() ==> message_sent(#[trigger] l[i], x[i])
}

proof fn lemma_messages_sent(x: Vec<Message>)
    ensures
        messages_sent(x.wire(), x@),
{
    if let Value::List(l) = x.wire() {
        assert forall|i: int| 0 <= i < l.len() implies message_sent(#[trigger] l[i], x@[i]) by {
            lemma_message_sent(x@[i]);
        }
    }
}

/// `v` is the map with each field, and nothing else.
pub open spec fn partial_message_sent(v: Value, x: PartialMessage) -> bool {
    &&& v matches Value::Dict(m)
    &&& value::distinct_keys(m)
    &&& m.len() == 5int
        + fields::present(x.location)
    &&& value::lookup(m, "id"@) matches Some(f) && f == Value::Text(x.id@)
    &&& value::lookup(m, "pluginName"@) matches Some(f) && f == Value::Text(x.plugin_name@)
    &&& value::lookup(m, "text"@) matches Some(f) && f == Value::Text(x.text@)
    &&& match x.location {
        Some(y) => value::lookup(m, "location"@) matches Some(f) && location_sent(f, y),
        None => value::lookup(m, "location"@) is None,
    }
    &&& value::lookup(m, "notes"@) matches Some(f) && notes_sent(f, x.notes@)
    &&& value::lookup(m, "detail"@) matches Some(f) && f == Value::U32(x.detail)
}

proof fn lemma_partial_message_sent(x: PartialMessage)
    ensures
        partial_message_sent(x.wire(), x),
{
    x.lemma_fields();
    if let Some(y) = x.location {
        lemma_location_sent(y);
    }
    lemma_notes_sent(x.notes);
}

/// What is sent for it.
pub proof fn law_partial_message_sent(x: PartialMessage, buf: &mut Vec<u8>)
    requires
        call_ensures(<PartialMessage as Encode>::encode_into, (&x, buf), ()),
    ensures
        exists|v: Value|
            #[trigger] partial_message_sent(v, x) && final(buf)@ == old(buf)@ + encode::encode_value(v),
{
    lemma_partial_message_sent(x);
}

/// A list of them is sent as the list of what is sent for each.
pub open spec fn partial_messages_sent(v: Value, x: Seq<PartialMessage>) -> bool {
    v matches Value::List(l) && l.len() == x.len() && forall|i: int|
        0 <= i < l.len() ==> partial_message_sent(#[trigger] l[i], x[i])
}

proof fn lemma_partial_messages_sent(x: Vec<PartialMessage>)
    ensures
        partial_messages_sent(x.wire(), x@),
{
    if let Value::List(l) = x.wire() {
        assert forall|i: int| 0 <= i < l.len() implies partial_message_sent(#[trigger] l[i], x@[i]) by {
            lemma_partial_message_sent(x@[i]);
        }
    }
}

/// `v` is the map with each field, and nothing else.
pub open spec fn serve_on_request_args_sent(v: Value, x: ServeOnRequestArgs) -> bool {
    &&& v matches Value::Dict(m)
    &&& value::distinct_keys(m)
    &&& m.len() == 5int
    &&& value::lookup(m, "remoteAddress"@) matches Some(f) && f == Value::Text(x.remote_address@)
    &&& value::lookup(m, "method"@) matches Some(f) && f == Value::Text(x.method@)
    &&& value::lookup(m, "path"@) matches Some(f) && f == Value::Text(x.path@)
    &&& value::lookup(m, "status"@) matches Some(f) && f == Value::U32(x.status)
    &&& value::lookup(m, "timeInMs"@) matches Some(f) && f == Value::U32(x.time_in_ms)
}

proof fn lemma_serve_on_request_args_sent(x: ServeOnRequestArgs)
    ensures
        serve_on_request_args_sent(x.wire(), x),
{
    x.lemma_fields();
}

/// What is sent for it.
pub proof fn law_serve_on_request_args_sent(x: ServeOnRequestArgs, buf: &mut Vec<u8>)
    requires
        call_ensures(<ServeOnRequestArgs as Encode>::encode_into, (&x, buf), ()),
    ensures
        exists|v: Value|
            #[trigger] serve_on_request_args_sent(v, x) && final(buf)@ == old(buf)@ + encode::encode_value(v),
{
    lemma_serve_on_request_args_sent(x);
}

/// `v` is the map with the command `serve` and each field, and nothing else.
pub open spec fn serve_request_sent(v: Value, x: ServeRequest) -> bool {
    &&& v matches Value::Dict(m)
    &&& value::distinct_keys(m)
    &&& m.len() == 3int
        + fields::present(x.port)
        + fields::present(x.host)
        + fields::present(x.servedir)
        + fields::present(x.keyfile)
        + fields::present(x.certfile)
        + fields::present(x.fallback)
        + fields::present(x.cors_origin)
    &&& value::lookup(m, "command"@) == Some(Value::Text("serve"@))
    &&& value::lookup(m, "key"@) matches Some(f) && f == Value::U32(x.key)
    &&& value::lookup(m, "onRequest"@) matches Some(f) && f == Value::Bool(x.on_request)
    &&& match x.port {
        Some(y) => value::lookup(m, "port"@) matches Some(f) && f == Value::U32(y),
        None => value::lookup(m, "port"@) is None,
    }
    &&& match x.host {
        Some(y) => value::lookup(m, "host"@) matches Some(f) && f == Value::Text(y@),
        None => value::lookup(m, "host"@) is None,
    }
    &&& match x.servedir {
        Some(y) => value::lookup(m, "servedir"@) matches Some(f) && f == Value::Text(y@),
        None => value::lookup(m, "servedir"@) is None,
    }
    &&& match x.keyfile {
        Some(y) => value::lookup(m, "keyfile"@) matches Some(f) && f == Value::Text(y@),
        None => value::lookup(m, "keyfile"@) is None,
    }
    &&& match x.certfile {
        Some(y) => value::lookup(m, "certfile"@) matches Some(f) && f == Value::Text(y@),
        None => value::lookup(m, "certfile"@) is None,
    }
    &&& match x.fallback {
        Some(y) => value::lookup(m, "fallback"@) matches Some(f) && f == Value::Text(y@),
        None => value::lookup(m, "fallback"@) is None,
    }
    &&& match x.cors_origin {
        Some(y) => value::lookup(m, "corsOrigin"@) matches Some(f) && texts_sent(f, y@),
        None => value::lookup(m, "corsOrigin"@) is None,
    }
}

proof fn lemma_serve_request_sent(x: ServeRequest)
    ensures
        serve_request_sent(x.wire(), x),
{
    x.lemma_fields();
}

/// What is sent for it.
pub proof fn law_serve_request_sent(x: ServeRequest, buf: &mut Vec<u8>)
    requires
        call_ensures(<ServeRequest as Encode>::encode_into, (&x, buf), ()),
    ensures
        exists|v: Value|
            #[trigger] serve_request_sent(v, x) && final(buf)@ == old(buf)@ + encode::encode_value(v),
{
    lemma_serve_request_sent(x);
}

/// `v` is the map with each field, and nothing else.
pub open spec fn on_resolve_setup_options_sent(v: Value, x: OnResolveSetupOptions) -> bool {
    &&& v matches Value::Dict(m)
    &&& value::distinct_keys(m)
    &&& m.len() == 3int
    &&& value::lookup(m, "id"@) matches Some(f) && f == Value::U32(x.id)
    &&& value::lookup(m, "filter"@) matches Some(f) && f == Value::Text(x.filter@)
    &&& value::lookup(m, "namespace"@) matches Some(f) && f == Value::Text(x.namespace@)
}

proof fn lemma_on_resolve_setup_options_sent(x: OnResolveSetupOptions)
    ensures
        on_resolve_setup_options_sent(x.wire(), x),
{
    x.lemma_fields();
}

/// What is sent for it.
pub proof fn law_on_resolve_setup_options_sent(x: OnResolveSetupOptions, buf: &mut Vec<u8>)
    requires
        call_ensures(<OnResolveSetupOptions as Encode>::encode_into, (&x, buf), ()),
    ensures
        exists|v: Value|
            #[trigger] on_resolve_setup_options_sent(v, x) && final(buf)@ == old(buf)@ + encode::encode_value(v),
{
    lemma_on_resolve_setup_options_sent(x);
}

/// A list of them is sent as the list of what is sent for each.
pub open spec fn on_resolve_setup_optionss_sent(v: Value, x: Seq<OnResolveSetupOptions>) -> bool {
    v matches Value::List(l) && l.len() == x.len() && forall|i: int|
        0 <= i < l.len() ==> on_resolve_setup_options_sent(#[trigger] l[i], x[i])
}

proof fn lemma_on_resolve_setup_optionss_sent(x: Vec<OnResolveSetupOptions>)
    ensures
        on_resolve_setup_optionss_sent(x.wire(), x@),
{
    if let Value::List(l) = x.wire() {
        assert forall|i: int| 0 <= i < l.len() implies on_resolve_setup_options_sent(#[trigger] l[i], x@[i]) by {
            lemma_on_resolve_setup_options_sent(x@[i]);
        }
    }
}

/// `v` is the map with each field, and nothing else.
pub open spec fn on_load_setup_options_sent(v: Value, x: OnLoadSetupOptions) -> bool {
    &&& v matches Value::Dict(m)
    &&& value::distinct_keys(m)
    &&& m.len() == 3int
    &&& value::lookup(m, "id"@) matches Some(f) && f == Value::U32(x.id)
    &&& value::lookup(m, "filter"@) matches Some(f) && f == Value::Text(x.filter@)
    &&& value::lookup(m, "namespace"@) matches Some(f) && f == Value::Text(x.namespace@)
}

proof fn lemma_on_load_setup_options_sent(x: OnLoadSetupOptions)
    ensures
        on_load_setup_options_sent(x.wire(), x),
{
    x.lemma_fields();
}

/// What is sent for it.
pub proof fn law_on_load_setup_options_sent(x: OnLoadSetupOptions, buf: &mut Vec<u8>)
    requires
        call_ensures(<OnLoadSetupOptions as Encode>::encode_into, (&x, buf), ()),
    ensures
        exists|v: Value|
            #[trigger] on_load_setup_options_sent(v, x) && final(buf)@ == old(buf)@ + encode::encode_value(v),
{
    lemma_on_load_setup_options_sent(x);
}

/// A list of them is sent as the list of what is sent for each.
pub open spec fn on_load_setup_optionss_sent(v: Value, x: Seq<OnLoadSetupOptions>) -> bool {
    v matches Value::List(l) && l.len() == x.len() && forall|i: int|
        0 <= i < l.len() ==> on_load_setup_options_sent(#[trigger] l[i], x[i])
}

proof fn lemma_on_load_setup_optionss_sent(x: Vec<OnLoadSetupOptions>)
    ensures
        on_load_setup_optionss_sent(x.wire(), x@),
{
    if let Value::List(l) = x.wire() {
        assert forall|i: int| 0 <= i < l.len() implies on_load_setup_options_sent(#[trigger] l[i], x@[i]) by {
            lemma_on_load_setup_options_sent(x@[i]);
        }
    }
}

/// `v` is the map with each field, and nothing else.
pub open spec fn build_plugin_sent(v: Value, x: BuildPlugin) -> bool {
    &&& v matches Value::Dict(m)
    &&& value::distinct_keys(m)
    &&& m.len() == 5int
    &&& value::lookup(m, "name"@) matches Some(f) && f == Value::Text(x.name@)
    &&& value::lookup(m, "onStart"@) matches Some(f) && f == Value::Bool(x.on_start)
    &&& value::lookup(m, "onEnd"@) matches Some(f) && f == Value::Bool(x.on_end)
    &&& value::lookup(m, "onResolve"@) matches Some(f) && on_resolve_setup_optionss_sent(f, x.on_resolve@)
    &&& value::lookup(m, "onLoad"@) matches Some(f) && on_load_setup_optionss_sent(f, x.on_load@)
}

proof fn lemma_build_plugin_sent(x: BuildPlugin)
    ensures
        build_plugin_sent(x.wire(), x),
{
    x.lemma_fields();
    lemma_on_resolve_setup_optionss_sent(x.on_resolve);
    lemma_on_load_setup_optionss_sent(x.on_load);
}

/// What is sent for it.
pub proof fn law_build_plugin_sent(x: BuildPlugin, buf: &mut Vec<u8>)
    requires
        call_ensures(<BuildPlugin as Encode>::encode_into, (&x, buf), ()),
    ensures
        exists|v: Value|
            #[trigger] build_plugin_sent(v, x) && final(buf)@ == old(buf)@ + encode::encode_value(v),
{
    lemma_build_plugin_sent(x);
}

/// A list of them is sent as the list of what is sent for each.
pub open spec fn build_plugins_sent(v: Value, x: Seq<BuildPlugin>) -> bool {
    v matches Value::List(l) && l.len() == x.len() && forall|i: int|
        0 <= i < l.len() ==> build_plugin_sent(#[trigger] l[i], x[i])
}

proof fn lemma_build_plugins_sent(x: Vec<BuildPlugin>)
    ensures
        build_plugins_sent(x.wire(), x@),
{
    if let Value::List(l) = x.wire() {
        assert forall|i: int| 0 <= i < l.len() implies build_plugin_sent(#[trigger] l[i], x@[i]) by {
            lemma_build_plugin_sent(x@[i]);
        }
    }
}

/// `v` is the map with each field, and nothing else.
pub open spec fn build_output_file_sent(v: Value, x: BuildOutputFile) -> bool {
    &&& v matches Value::Dict(m)
    &&& value::distinct_keys(m)
    &&& m.len() == 3int
    &&& value::lookup(m, "path"@) matches Some(f) && f == Value::Text(x.path@)
    &&& value::lookup(m, "contents"@) matches Some(f) && f == Value::Bytes(x.contents@)
    &&& value::lookup(m, "hash"@) matches Some(f) && f == Value::Text(x.hash@)
}

proof fn lemma_build_output_file_sent(x: BuildOutputFile)
    ensures
        build_output_file_sent(x.wire(), x),
{
    x.lemma_fields();
}

/// What is sent for it.
pub proof fn law_build_output_file_sent(x: BuildOutputFile, buf: &mut Vec<u8>)
    requires
        call_ensures(<BuildOutputFile as Encode>::encode_into, (&x, buf), ()),
    ensures
        exists|v: Value|
            #[trigger] build_output_file_sent(v, x) && final(buf)@ == old(buf)@ + encode::encode_value(v),
{
    lemma_build_output_file_sent(x);
}

/// A list of them is sent as the list of what is sent for each.
pub open spec fn build_output_files_sent(v: Value, x: Seq<BuildOutputFile>) -> bool {
    v matches Value::List(l) && l.len() == x.len() && forall|i: int|
        0 <= i < l.len() ==> build_output_file_sent(#[trigger] l[i], x[i])
}

proof fn lemma_build_output_files_sent(x: Vec<BuildOutputFile>)
    ensures
        build_output_files_sent(x.wire(), x@),
{
    if let Value::List(l) = x.wire() {
        assert forall|i: int| 0 <= i < l.len() implies build_output_file_sent(#[trigger] l[i], x@[i]) by {
            lemma_build_output_file_sent(x@[i]);
        }
    }
}

/// `v` is the map with the command `build` and each field, and nothing else.
pub open spec fn build_request_sent(v: Value, x: BuildRequest) -> bool {
    &&& v matches Value::Dict(m)
    &&& value::distinct_keys(m)
    &&& m.len() == 10int
        + fields::present(x.plugins)
        + fields::present(x.mangle_cache)
    &&& value::lookup(m, "command"@) == Some(Value::Text("build"@))
    &&& value::lookup(m, "key"@) matches Some(f) && f == Value::U32(x.key)
    &&& value::lookup(m, "entries"@) matches Some(f) && pairs_sent(f, x.entries@)
    &&& value::lookup(m, "flags"@) matches Some(f) && texts_sent(f, x.flags@)
    &&& value::lookup(m, "write"@) matches Some(f) && f == Value::Bool(x.write)
    &&& value::lookup(m, "stdinContents"@) matches Some(f) && match x.stdin_contents.inner() {
        Some(y) => f == Value::Bytes(y@),
        None => f is Null,
    }
    &&& value::lookup(m, "stdinResolveDir"@) matches Some(f) && match x.stdin_resolve_dir.inner() {
        Some(y) => f == Value::Text(y@),
        None => f is Null,
    }
    &&& value::lookup(m, "absWorkingDir"@) matches Some(f) && f == Value::Text(x.abs_working_dir@)
    &&& value::lookup(m, "nodePaths"@) matches Some(f) && texts_sent(f, x.node_paths@)
    &&& value::lookup(m, "context"@) matches Some(f) && f == Value::Bool(x.context)
    &&& match x.plugins {
        Some(y) => value::lookup(m, "plugins"@) matches Some(f) && build_plugins_sent(f, y@),
        None => value::lookup(m, "plugins"@) is None,
    }
    &&& match x.mangle_cache {
        Some(y) => value::lookup(m, "mangleCache"@) matches Some(f) && mangle_cache_sent(f, y),
        None => value::lookup(m, "mangleCache"@) is None,
    }
}

proof fn lemma_build_request_sent(x: BuildRequest)
    ensures
        build_request_sent(x.wire(), x),
{
    x.lemma_fields();
    if let Some(y) = x.plugins {
        lemma_build_plugins_sent(y);
    }
}

/// What is sent for it.
pub proof fn law_build_request_sent(x: BuildRequest, buf: &mut Vec<u8>)
    requires
        call_ensures(<BuildRequest as Encode>::encode_into, (&x, buf), ()),
    ensures
        exists|v: Value|
            #[trigger] build_request_sent(v, x) && final(buf)@ == old(buf)@ + encode::encode_value(v),
{
    lemma_build_request_sent(x);
}

/// `v` is the map with each field, and nothing else.
pub open spec fn on_end_request_sent(v: Value, x: OnEndRequest) -> bool {
    &&& v matches Value::Dict(m)
    &&& value::distinct_keys(m)
    &&& m.len() == 2int
        + fields::present(x.output_files)
        + fields::present(x.metafile)
        + fields::present(x.mangle_cache)
        + fields::present(x.write_to_stdout)
    &&& value::lookup(m, "errors"@) matches Some(f) && messages_sent(f, x.errors@)
    &&& value::lookup(m, "warnings"@) matches Some(f) && messages_sent(f, x.warnings@)
    &&& match x.output_files {
        Some(y) => value::lookup(m, "outputFiles"@) matches Some(f) && build_output_files_sent(f, y@),
        None => value::lookup(m, "outputFiles"@) is None,
    }
    &&& match x.metafile {
        Some(y) => value::lookup(m, "metafile"@) matches Some(f) && f == Value::Text(y@),
        None => value::lookup(m, "metafile"@) is None,
    }
    &&& match x.mangle_cache {
        Some(y) => value::lookup(m, "mangleCache"@) matches Some(f) && mangle_cache_sent(f, y),
        None => value::lookup(m, "mangleCache"@) is None,
    }
    &&& match x.write_to_stdout {
        Some(y) => value::lookup(m, "writeToStdout"@) matches Some(f) && f == Value::Bytes(y@),
        None => value::lookup(m, "writeToStdout"@) is None,
    }
}

proof fn lemma_on_end_request_sent(x: OnEndRequest)
    ensures
        on_end_request_sent(x.wire(), x),
{
    x.lemma_fields();
    lemma_messages_sent(x.errors);
    lemma_messages_sent(x.warnings);
    if let Some(y) = x.output_files {
        lemma_build_output_files_sent(y);
    }
}

/// What is sent for it.
pub proof fn law_on_end_request_sent(x: OnEndRequest, buf: &mut Vec<u8>)
    requires
        call_ensures(<OnEndRequest as Encode>::encode_into, (&x, buf), ()),
    ensures
        exists|v: Value|
            #[trigger] on_end_request_sent(v, x) && final(buf)@ == old(buf)@ + encode::encode_value(v),
{
    lemma_on_end_request_sent(x);
}

/// `v` is the map with each field, and nothing else.
pub open spec fn on_end_response_sent(v: Value, x: OnEndResponse) -> bool {
    &&& v matches Value::Dict(m)
    &&& value::distinct_keys(m)
    &&& m.len() == 2int
    &&& value::lookup(m, "errors"@) matches Some(f) && messages_sent(f, x.errors@)
    &&& value::lookup(m, "warnings"@) matches Some(f) && messages_sent(f, x.warnings@)
}

proof fn lemma_on_end_response_sent(x: OnEndResponse)
    ensures
        on_end_response_sent(x.wire(), x),
{
    x.lemma_fields();
    lemma_messages_sent(x.errors);
    lemma_messages_sent(x.warnings);
}

/// What is sent for it.
pub proof fn law_on_end_response_sent(x: OnEndResponse, buf: &mut Vec<u8>)
    requires
        call_ensures(<OnEndResponse as Encode>::encode_into, (&x, buf), ()),
    ensures
        exists|v: Value|
            #[trigger] on_end_response_sent(v, x) && final(buf)@ == old(buf)@ + encode::encode_value(v),
{
    lemma_on_end_response_sent(x);
}

/// `v` is the map with the command `ping`, and nothing else.
pub open spec fn ping_request_sent(v: Value, x: PingRequest) -> bool {
    &&& v matches Value::Dict(m)
    &&& value::distinct_keys(m)
    &&& m.len() == 1int
    &&& value::lookup(m, "command"@) == Some(Value::Text("ping"@))
}

proof fn lemma_ping_request_sent(x: PingRequest)
    ensures
        ping_request_sent(x.wire(), x),
{
    x.lemma_fields();
}

/// What is sent for it.
pub proof fn law_ping_request_sent(x: PingRequest, buf: &mut Vec<u8>)
    requires
        call_ensures(<PingRequest as Encode>::encode_into, (&x, buf), ()),
    ensures
        exists|v: Value|
            #[trigger] ping_request_sent(v, x) && final(buf)@ == old(buf)@ + encode::encode_value(v),
{
    lemma_ping_request_sent(x);
}

/// `v` is the map with the command `rebuild` and each field, and nothing else.
pub open spec fn rebuild_request_sent(v: Value, x: RebuildRequest) -> bool {
    &&& v matches Value::Dict(m)
    &&& value::distinct_keys(m)
    &&& m.len() == 2int
    &&& value::lookup(m, "command"@) == Some(Value::Text("rebuild"@))
    &&& value::lookup(m, "key"@) matches Some(f) && f == Value::U32(x.key)
}

proof fn lemma_rebuild_request_sent(x: RebuildRequest)
    ensures
        rebuild_request_sent(x.wire(), x),
{
    x.lemma_fields();
}

/// What is sent for it.
pub proof fn law_rebuild_request_sent(x: RebuildRequest, buf: &mut Vec<u8>)
    requires
        call_ensures(<RebuildRequest as Encode>::encode_into, (&x, buf), ()),
    ensures
        exists|v: Value|
            #[trigger] rebuild_request_sent(v, x) && final(buf)@ == old(buf)@ + encode::encode_value(v),
{
    lemma_rebuild_request_sent(x);
}

/// `v` is the map with each field, and nothing else.
pub open spec fn rebuild_response_sent(v: Value, x: RebuildResponse) -> bool {
    &&& v matches Value::Dict(m)
    &&& value::distinct_keys(m)
    &&& m.len() == 2int
    &&& value::lookup(m, "errors"@) matches Some(f) && messages_sent(f, x.errors@)
    &&& value::lookup(m, "warnings"@) matches Some(f) && messages_sent(f, x.warnings@)
}

proof fn lemma_rebuild_response_sent(x: RebuildResponse)
    ensures
        rebuild_response_sent(x.wire(), x),
{
    x.lemma_fields();
    lemma_messages_sent(x.errors);
    lemma_messages_sent(x.warnings);
}

/// What is sent for it.
pub proof fn law_rebuild_response_sent(x: RebuildResponse, buf: &mut Vec<u8>)
    requires
        call_ensures(<RebuildResponse as Encode>::encode_into, (&x, buf), ()),
    ensures
        exists|v: Value|
            #[trigger] rebuild_response_sent(v, x) && final(buf)@ == old(buf)@ + encode::encode_value(v),
{
    lemma_rebuild_response_sent(x);
}

/// `v` is the map with the command `dispose` and each field, and nothing else.
pub open spec fn dispose_request_sent(v: Value, x: DisposeRequest) -> bool {
    &&& v matches Value::Dict(m)
    &&& value::distinct_keys(m)
    &&& m.len() == 2int
    &&& value::lookup(m, "command"@) == Some(Value::Text("dispose"@))
    &&& value::lookup(m, "key"@) matches Some(f) && f == Value::U32(x.key)
}

proof fn lemma_dispose_request_sent(x: DisposeRequest)
    ensures
        dispose_request_sent(x.wire(), x),
{
    x.lemma_fields();
}

/// What is sent for it.
pub proof fn law_dispose_request_sent(x: DisposeRequest, buf: &mut Vec<u8>)
    requires
        call_ensures(<DisposeRequest as Encode>::encode_into, (&x, buf), ()),
    ensures
        exists|v: Value|
            #[trigger] dispose_request_sent(v, x) && final(buf)@ == old(buf)@ + encode::encode_value(v),
{
    lemma_dispose_request_sent(x);
}

/// `v` is the map with the command `cancel` and each field, and nothing else.
pub open spec fn cancel_request_sent(v: Value, x: CancelRequest) -> bool {
    &&& v matches Value::Dict(m)
    &&& value::distinct_keys(m)
    &&& m.len() == 2int
    &&& value::lookup(m, "command"@) == Some(Value::Text("cancel"@))
    &&& value::lookup(m, "key"@) matches Some(f) && f == Value::U32(x.key)
}

proof fn lemma_cancel_request_sent(x: CancelRequest)
    ensures
        cancel_request_sent(x.wire(), x),
{
    x.lemma_fields();
}

/// What is sent for it.
pub proof fn law_cancel_request_sent(x: CancelRequest, buf: &mut Vec<u8>)
    requires
        call_ensures(<CancelRequest as Encode>::encode_into, (&x, buf), ()),
    ensures
        exists|v: Value|
            #[trigger] cancel_request_sent(v, x) && final(buf)@ == old(buf)@ + encode::encode_value(v),
{
    lemma_cancel_request_sent(x);
}

/// `v` is the map with the command `watch` and each field, and nothing else.
pub open spec fn watch_request_sent(v: Value, x: WatchRequest) -> bool {
    &&& v matches Value::Dict(m)
    &&& value::distinct_keys(m)
    &&& m.len() == 2int
    &&& value::lookup(m, "command"@) == Some(Value::Text("watch"@))
    &&& value::lookup(m, "key"@) matches Some(f) && f == Value::U32(x.key)
}

proof fn lemma_watch_request_sent(x: WatchRequest)
    ensures
        watch_request_sent(x.wire(), x),
{
    x.lemma_fields();
}

/// What is sent for it.
pub proof fn law_watch_request_sent(x: WatchRequest, buf: &mut Vec<u8>)
    requires
        call_ensures(<WatchRequest as Encode>::encode_into, (&x, buf), ()),
    ensures
        exists|v: Value|
            #[trigger] watch_request_sent(v, x) && final(buf)@ == old(buf)@ + encode::encode_value(v),
{
    lemma_watch_request_sent(x);
}

/// `v` is the map with the command `serve-request` and each field, and nothing else.
pub open spec fn on_serve_request_sent(v: Value, x: OnServeRequest) -> bool {
    &&& v matches Value::Dict(m)
    &&& value::distinct_keys(m)
    &&& m.len() == 3int
    &&& value::lookup(m, "command"@) == Some(Value::Text("serve-request"@))
    &&& value::lookup(m, "key"@) matches Some(f) && f == Value::U32(x.key)
    &&& value::lookup(m, "args"@) matches Some(f) && serve_on_request_args_sent(f, x.args)
}

proof fn lemma_on_serve_request_sent(x: OnServeRequest)
    ensures
        on_serve_request_sent(x.wire(), x),
{
    x.lemma_fields();
    lemma_serve_on_request_args_sent(x.args);
}

/// What is sent for it.
pub proof fn law_on_serve_request_sent(x: OnServeRequest, buf: &mut Vec<u8>)
    requires
        call_ensures(<OnServeRequest as Encode>::encode_into, (&x, buf), ()),
    ensures
        exists|v: Value|
            #[trigger] on_serve_request_sent(v, x) && final(buf)@ == old(buf)@ + encode::encode_value(v),
{
    lemma_on_serve_request_sent(x);
}

/// `v` is the map with the command `transform` and each field, and nothing else.
pub open spec fn transform_request_sent(v: Value, x: TransformRequest) -> bool {
    &&& v matches Value::Dict(m)
    &&& value::distinct_keys(m)
    &&& m.len() == 4int
        + fields::present(x.mangle_cache)
    &&& value::lookup(m, "command"@) == Some(Value::Text("transform"@))
    &&& value::lookup(m, "flags"@) matches Some(f) && texts_sent(f, x.flags@)
    &&& value::lookup(m, "input"@) matches Some(f) && f == Value::Bytes(x.input@)
    &&& value::lookup(m, "inputFs"@) matches Some(f) && f == Value::Bool(x.input_fs)
    &&& match x.mangle_cache {
        Some(y) => value::lookup(m, "mangleCache"@) matches Some(f) && mangle_cache_sent(f, y),
        None => value::lookup(m, "mangleCache"@) is None,
    }
}

proof fn lemma_transform_request_sent(x: TransformRequest)
    ensures
        transform_request_sent(x.wire(), x),
{
    x.lemma_fields();
}

/// What is sent for it.
pub proof fn law_transform_request_sent(x: TransformRequest, buf: &mut Vec<u8>)
    requires
        call_ensures(<TransformRequest as Encode>::encode_into, (&x, buf), ()),
    ensures
        exists|v: Value|
            #[trigger] transform_request_sent(v, x) && final(buf)@ == old(buf)@ + encode::encode_value(v),
{
    lemma_transform_request_sent(x);
}

/// `v` is the map with the command `format-msgs` and each field, and nothing else.
pub open spec fn format_msgs_request_sent(v: Value, x: FormatMsgsRequest) -> bool {
    &&& v matches Value::Dict(m)
    &&& value::distinct_keys(m)
    &&& m.len() == 3int
        + fields::present(x.color)
        + fields::present(x.terminal_width)
    &&& value::lookup(m, "command"@) == Some(Value::Text("format-msgs"@))
    &&& value::lookup(m, "messages"@) matches Some(f) && messages_sent(f, x.messages@)
    &&& value::lookup(m, "isWarning"@) matches Some(f) && f == Value::Bool(x.is_warning)
    &&& match x.color {
        Some(y) => value::lookup(m, "color"@) matches Some(f) && f == Value::Bool(y),
        None => value::lookup(m, "color"@) is None,
    }
    &&& match x.terminal_width {
        Some(y) => value::lookup(m, "terminalWidth"@) matches Some(f) && f == Value::U32(y),
        None => value::lookup(m, "terminalWidth"@) is None,
    }
}

proof fn lemma_format_msgs_request_sent(x: FormatMsgsRequest)
    ensures
        format_msgs_request_sent(x.wire(), x),
{
    x.lemma_fields();
    lemma_messages_sent(x.messages);
}

/// What is sent for it.
pub proof fn law_format_msgs_request_sent(x: FormatMsgsRequest, buf: &mut Vec<u8>)
    requires
        call_ensures(<FormatMsgsRequest as Encode>::encode_into, (&x, buf), ()),
    ensures
        exists|v: Value|
            #[trigger] format_msgs_request_sent(v, x) && final(buf)@ == old(buf)@ + encode::encode_value(v),
{
    lemma_format_msgs_request_sent(x);
}

/// `v` is the map with the command `analyze-metafile` and each field, and nothing else.
pub open spec fn analyze_metafile_request_sent(v: Value, x: AnalyzeMetafileRequest) -> bool {
    &&& v matches Value::Dict(m)
    &&& value::distinct_keys(m)
    &&& m.len() == 2int
        + fields::present(x.color)
        + fields::present(x.verbose)
    &&& value::lookup(m, "command"@) == Some(Value::Text("analyze-metafile"@))
    &&& value::lookup(m, "metafile"@) matches Some(f) && f == Value::Text(x.metafile@)
    &&& match x.color {
        Some(y) => value::lookup(m, "color"@) matches Some(f) && f == Value::Bool(y),
        None => value::lookup(m, "color"@) is None,
    }
    &&& match x.verbose {
        Some(y) => value::lookup(m, "verbose"@) matches Some(f) && f == Value::Bool(y),
        None => value::lookup(m, "verbose"@) is None,
    }
}

proof fn lemma_analyze_metafile_request_sent(x: AnalyzeMetafileRequest)
    ensures
        analyze_metafile_request_sent(x.wire(), x),
{
    x.lemma_fields();
}

/// What is sent for it.
pub proof fn law_analyze_metafile_request_sent(x: AnalyzeMetafileRequest, buf: &mut Vec<u8>)
    requires
        call_ensures(<AnalyzeMetafileRequest as Encode>::encode_into, (&x, buf), ()),
    ensures
        exists|v: Value|
            #[trigger] analyze_metafile_request_sent(v, x) && final(buf)@ == old(buf)@ + encode::encode_value(v),
{
    lemma_analyze_metafile_request_sent(x);
}

/// `v` is the map with the command `on-start` and each field, and nothing else.
pub open spec fn on_start_request_sent(v: Value, x: OnStartRequest) -> bool {
    &&& v matches Value::Dict(m)
    &&& value::distinct_keys(m)
    &&& m.len() == 2int
    &&& value::lookup(m, "command"@) == Some(Value::Text("on-start"@))
    &&& value::lookup(m, "key"@) matches Some(f) && f == Value::U32(x.key)
}

proof fn lemma_on_start_request_sent(x: OnStartRequest)
    ensures
        on_start_request_sent(x.wire(), x),
{
    x.lemma_fields();
}

/// What is sent for it.
pub proof fn law_on_start_request_sent(x: OnStartRequest, buf: &mut Vec<u8>)
    requires
        call_ensures(<OnStartRequest as Encode>::encode_into, (&x, buf), ()),
    ensures
        exists|v: Value|
            #[trigger] on_start_request_sent(v, x) && final(buf)@ == old(buf)@ + encode::encode_value(v),
{
    lemma_on_start_request_sent(x);
}

/// `v` is the map with each field, and nothing else.
pub open spec fn on_start_response_sent(v: Value, x: OnStartResponse) -> bool {
    &&& v matches Value::Dict(m)
    &&& value::distinct_keys(m)
    &&& m.len() == 2int
    &&& value::lookup(m, "errors"@) matches Some(f) && partial_messages_sent(f, x.errors@)
    &&& value::lookup(m, "warnings"@) matches Some(f) && partial_messages_sent(f, x.warnings@)
}

proof fn lemma_on_start_response_sent(x: OnStartResponse)
    ensures
        on_start_response_sent(x.wire(), x),
{
    x.lemma_fields();
    lemma_partial_messages_sent(x.errors);
    lemma_partial_messages_sent(x.warnings);
}

/// What is sent for it.
pub proof fn law_on_start_response_sent(x: OnStartResponse, buf: &mut Vec<u8>)
    requires
        call_ensures(<OnStartResponse as Encode>::encode_into, (&x, buf), ()),
    ensures
        exists|v: Value|
            #[trigger] on_start_response_sent(v, x) && final(buf)@ == old(buf)@ + encode::encode_value(v),
{
    lemma_on_start_response_sent(x);
}

/// `v` is the map with the command `resolve` and each field, and nothing else.
pub open spec fn resolve_request_sent(v: Value, x: ResolveRequest) -> bool {
    &&& v matches Value::Dict(m)
    &&& value::distinct_keys(m)
    &&& m.len() == 4int
        + fields::present(x.importer)
        + fields::present(x.namespace)
        + fields::present(x.resolve_dir)
        + fields::present(x.kind)
        + fields::present(x.plugin_data)
        + fields::present(x.with)
    &&& value::lookup(m, "command"@) == Some(Value::Text("resolve"@))
    &&& value::lookup(m, "key"@) matches Some(f) && f == Value::U32(x.key)
    &&& value::lookup(m, "path"@) matches Some(f) && f == Value::Text(x.path@)
    &&& value::lookup(m, "pluginName"@) matches Some(f) && f == Value::Text(x.plugin_name@)
    &&& match x.importer {
        Some(y) => value::lookup(m, "importer"@) matches Some(f) && f == Value::Text(y@),
        None => value::lookup(m, "importer"@) is None,
    }
    &&& match x.namespace {
        Some(y) => value::lookup(m, "namespace"@) matches Some(f) && f == Value::Text(y@),
        None => value::lookup(m, "namespace"@) is None,
    }
    &&& match x.resolve_dir {
        Some(y) => value::lookup(m, "resolveDir"@) matches Some(f) && f == Value::Text(y@),
        None => value::lookup(m, "resolveDir"@) is None,
    }
    &&& match x.kind {
        Some(y) => value::lookup(m, "kind"@) matches Some(f) && f == Value::Text(y@),
        None => value::lookup(m, "kind"@) is None,
    }
    &&& match x.plugin_data {
        Some(y) => value::lookup(m, "pluginData"@) matches Some(f) && f == Value::U32(y),
        None => value::lookup(m, "pluginData"@) is None,
    }
    &&& match x.with {
        Some(y) => value::lookup(m, "with"@) matches Some(f) && strings_sent(f, y),
        None => value::lookup(m, "with"@) is None,
    }
}

proof fn lemma_resolve_request_sent(x: ResolveRequest)
    ensures
        resolve_request_sent(x.wire(), x),
{
    x.lemma_fields();
}

/// What is sent for it.
pub proof fn law_resolve_request_sent(x: ResolveRequest, buf: &mut Vec<u8>)
    requires
        call_ensures(<ResolveRequest as Encode>::encode_into, (&x, buf), ()),
    ensures
        exists|v: Value|
            #[trigger] resolve_request_sent(v, x) && final(buf)@ == old(buf)@ + encode::encode_value(v),
{
    lemma_resolve_request_sent(x);
}

/// `v` is the map with each field, and nothing else.
pub open spec fn on_resolve_response_sent(v: Value, x: OnResolveResponse) -> bool {
    &&& v matches Value::Dict(m)
    &&& value::distinct_keys(m)
    &&& m.len() == 0int
        + fields::present(x.id)
        + fields::present(x.plugin_name)
        + fields::present(x.errors)
        + fields::present(x.warnings)
        + fields::present(x.path)
        + fields::present(x.external)
        + fields::present(x.side_effects)
        + fields::present(x.namespace)
        + fields::present(x.suffix)
        + fields::present(x.plugin_data)
        + fields::present(x.watch_files)
        + fields::present(x.watch_dirs)
    &&& match x.id {
        Some(y) => value::lookup(m, "id"@) matches Some(f) && f == Value::U32(y),
        None => value::lookup(m, "id"@) is None,
    }
    &&& match x.plugin_name {
        Some(y) => value::lookup(m, "pluginName"@) matches Some(f) && f == Value::Text(y@),
        None => value::lookup(m, "pluginName"@) is None,
    }
    &&& match x.errors {
        Some(y) => value::lookup(m, "errors"@) matches Some(f) && partial_messages_sent(f, y@),
        None => value::lookup(m, "errors"@) is None,
    }
    &&& match x.warnings {
        Some(y) => value::lookup(m, "warnings"@) matches Some(f) && partial_messages_sent(f, y@),
        None => value::lookup(m, "warnings"@) is None,
    }
    &&& match x.path {
        Some(y) => value::lookup(m, "path"@) matches Some(f) && f == Value::Text(y@),
        None => value::lookup(m, "path"@) is None,
    }
    &&& match x.external {
        Some(y) => value::lookup(m, "external"@) matches Some(f) && f == Value::Bool(y),
        None => value::lookup(m, "external"@) is None,
    }
    &&& match x.side_effects {
        Some(y) => value::lookup(m, "sideEffects"@) matches Some(f) && f == Value::Bool(y),
        None => value::lookup(m, "sideEffects"@) is None,
    }
    &&& match x.namespace {
        Some(y) => value::lookup(m, "namespace"@) matches Some(f) && f == Value::Text(y@),
        None => value::lookup(m, "namespace"@) is None,
    }
    &&& match x.suffix {
        Some(y) => value::lookup(m, "suffix"@) matches Some(f) && f == Value::Text(y@),
        None => value::lookup(m, "suffix"@) is None,
    }
    &&& match x.plugin_data {
        Some(y) => value::lookup(m, "pluginData"@) matches Some(f) && f == Value::U32(y),
        None => value::lookup(m, "pluginData"@) is None,
    }
    &&& match x.watch_files {
        Some(y) => value::lookup(m, "watchFiles"@) matches Some(f) && texts_sent(f, y@),
        None => value::lookup(m, "watchFiles"@) is None,
    }
    &&& match x.watch_dirs {
        Some(y) => value::lookup(m, "watchDirs"@) matches Some(f) && texts_sent(f, y@),
        None => value::lookup(m, "watchDirs"@) is None,
    }
}

proof fn lemma_on_resolve_response_sent(x: OnResolveResponse)
    ensures
        on_resolve_response_sent(x.wire(), x),
{
    x.lemma_fields();
    if let Some(y) = x.errors {
        lemma_partial_messages_sent(y);
    }
    if let Some(y) = x.warnings {
        lemma_partial_messages_sent(y);
    }
}

/// What is sent for it.
pub proof fn law_on_resolve_response_sent(x: OnResolveResponse, buf: &mut Vec<u8>)
    requires
        call_ensures(<OnResolveResponse as Encode>::encode_into, (&x, buf), ()),
    ensures
        exists|v: Value|
            #[trigger] on_resolve_response_sent(v, x) && final(buf)@ == old(buf)@ + encode::encode_value(v),
{
    lemma_on_resolve_response_sent(x);
}

/// `v` is the map with the command `on-load` and each field, and nothing else.
pub open spec fn on_load_request_sent(v: Value, x: OnLoadRequest) -> bool {
    &&& v matches Value::Dict(m)
    &&& value::distinct_keys(m)
    &&& m.len() == 7int
        + fields::present(x.plugin_data)
    &&& value::lookup(m, "command"@) == Some(Value::Text("on-load"@))
    &&& value::lookup(m, "key"@) matches Some(f) && f == Value::U32(x.key)
    &&& value::lookup(m, "ids"@) matches Some(f) && numbers_sent(f, x.ids@)
    &&& value::lookup(m, "path"@) matches Some(f) && f == Value::Text(x.path@)
    &&& value::lookup(m, "namespace"@) matches Some(f) && f == Value::Text(x.namespace@)
    &&& value::lookup(m, "suffix"@) matches Some(f) && f == Value::Text(x.suffix@)
    &&& match x.plugin_data {
        Some(y) => value::lookup(m, "pluginData"@) matches Some(f) && f == Value::U32(y),
        None => value::lookup(m, "pluginData"@) is None,
    }
    &&& value::lookup(m, "with"@) matches Some(f) && strings_sent(f, x.with)
}

proof fn lemma_on_load_request_sent(x: OnLoadRequest)
    ensures
        on_load_request_sent(x.wire(), x),
{
    x.lemma_fields();
}

/// What is sent for it.
pub proof fn law_on_load_request_sent(x: OnLoadRequest, buf: &mut Vec<u8>)
    requires
        call_ensures(<OnLoadRequest as Encode>::encode_into, (&x, buf), ()),
    ensures
        exists|v: Value|
            #[trigger] on_load_request_sent(v, x) && final(buf)@ == old(buf)@ + encode::encode_value(v),
{
    lemma_on_load_request_sent(x);
}

/// `v` is the map with each field, and nothing else.
pub open spec fn on_load_response_sent(v: Value, x: OnLoadResponse) -> bool {
    &&& v matches Value::Dict(m)
    &&& value::distinct_keys(m)
    &&& m.len() == 0int
        + fields::present(x.id)
        + fields::present(x.plugin_name)
        + fields::present(x.errors)
        + fields::present(x.warnings)
        + fields::present(x.contents)
        + fields::present(x.resolve_dir)
        + fields::present(x.loader)
        + fields::present(x.plugin_data)
        + fields::present(x.watch_files)
        + fields::present(x.watch_dirs)
    &&& match x.id {
        Some(y) => value::lookup(m, "id"@) matches Some(f) && f == Value::U32(y),
        None => value::lookup(m, "id"@) is None,
    }
    &&& match x.plugin_name {
        Some(y) => value::lookup(m, "pluginName"@) matches Some(f) && f == Value::Text(y@),
        None => value::lookup(m, "pluginName"@) is None,
    }
    &&& match x.errors {
        Some(y) => value::lookup(m, "errors"@) matches Some(f) && partial_messages_sent(f, y@),
        None => value::lookup(m, "errors"@) is None,
    }
    &&& match x.warnings {
        Some(y) => value::lookup(m, "warnings"@) matches Some(f) && partial_messages_sent(f, y@),
        None => value::lookup(m, "warnings"@) is None,
    }
    &&& match x.contents {
        Some(y) => value::lookup(m, "contents"@) matches Some(f) && f == Value::Bytes(y@),
        None => value::lookup(m, "contents"@) is None,
    }
    &&& match x.resolve_dir {
        Some(y) => value::lookup(m, "resolveDir"@) matches Some(f) && f == Value::Text(y@),
        None => value::lookup(m, "resolveDir"@) is None,
    }
    &&& match x.loader {
        Some(y) => value::lookup(m, "loader"@) matches Some(f) && f == Value::Text(y@),
        None => value::lookup(m, "loader"@) is None,
    }
    &&& match x.plugin_data {
        Some(y) => value::lookup(m, "pluginData"@) matches Some(f) && f == Value::U32(y),
        None => value::lookup(m, "pluginData"@) is None,
    }
    &&& match x.watch_files {
        Some(y) => value::lookup(m, "watchFiles"@) matches Some(f) && texts_sent(f, y@),
        None => value::lookup(m, "watchFiles"@) is None,
    }
    &&& match x.watch_dirs {
        Some(y) => value::lookup(m, "watchDirs"@) matches Some(f) && texts_sent(f, y@),
        None => value::lookup(m, "watchDirs"@) is None,
    }
}

proof fn lemma_on_load_response_sent(x: OnLoadResponse)
    ensures
        on_load_response_sent(x.wire(), x),
{
    x.lemma_fields();
    if let Some(y) = x.errors {
        lemma_partial_messages_sent(y);
    }
    if let Some(y) = x.warnings {
        lemma_partial_messages_sent(y);
    }
}

/// What is sent for it.
pub proof fn law_on_load_response_sent(x: OnLoadResponse, buf: &mut Vec<u8>)
    requires
        call_ensures(<OnLoadResponse as Encode>::encode_into, (&x, buf), ()),
    ensures
        exists|v: Value|
            #[trigger] on_load_response_sent(v, x) && final(buf)@ == old(buf)@ + encode::encode_value(v),
{
    lemma_on_load_response_sent(x);
}

/// `v` is the map with no field, and nothing else.
pub open spec fn ping_response_sent(v: Value, x: PingResponse) -> bool {
    &&& v matches Value::Dict(m)
    &&& value::distinct_keys(m)
    &&& m.len() == 0int
}

proof fn lemma_ping_response_sent(x: PingResponse)
    ensures
        ping_response_sent(x.wire(), x),
{
    x.lemma_fields();
}

/// What is sent for it.
pub proof fn law_ping_response_sent(x: PingResponse, buf: &mut Vec<u8>)
    requires
        call_ensures(<PingResponse as Encode>::encode_into, (&x, buf), ()),
    ensures
        exists|v: Value|
            #[trigger] ping_response_sent(v, x) && final(buf)@ == old(buf)@ + encode::encode_value(v),
{
    lemma_ping_response_sent(x);
}

/// `v` is what is sent for a request: the map that names its command.
pub open spec fn request_sent(v: Value, x: AnyRequest) -> bool {
    &&& v matches Value::Dict(m)
    &&& match x {
        AnyRequest::Build(request) => {
            &&& value::lookup(m, "command"@) == Some(Value::Text("build"@))
            &&& value::lookup(m, "key"@) == Some(Value::U32(request.key))
            &&& build_request_sent(v, *request)
        },
        AnyRequest::Rebuild(request) => {
            &&& value::lookup(m, "command"@) == Some(Value::Text("rebuild"@))
            &&& value::lookup(m, "key"@) == Some(Value::U32(request.key))
            &&& m.len() == 2
        },
        AnyRequest::Dispose(request) => {
            &&& value::lookup(m, "command"@) == Some(Value::Text("dispose"@))
            &&& value::lookup(m, "key"@) == Some(Value::U32(request.key))
            &&& m.len() == 2
        },
        AnyRequest::Cancel(request) => {
            &&& value::lookup(m, "command"@) == Some(Value::Text("cancel"@))
            &&& value::lookup(m, "key"@) == Some(Value::U32(request.key))
            &&& m.len() == 2
        },
    }
}

proof fn lemma_request_sent(x: AnyRequest)
    ensures
        request_sent(x.wire(), x),
{
    match x {
        AnyRequest::Build(request) => lemma_build_request_sent(*request),
        AnyRequest::Rebuild(request) => lemma_rebuild_request_sent(request),
        AnyRequest::Dispose(request) => lemma_dispose_request_sent(request),
        AnyRequest::Cancel(request) => lemma_cancel_request_sent(request),
    }
}

/// A request names its own command and holds its own key.
pub proof fn law_request_sent(x: AnyRequest, buf: &mut Vec<u8>)
    requires
        call_ensures(<AnyRequest as Encode>::encode_into, (&x, buf), ()),
    ensures
        exists|v: Value|
            #[trigger] request_sent(v, x) && final(buf)@ == old(buf)@ + encode::encode_value(v),
{
    lemma_request_sent(x);
}

/// `v` is what is sent for a response.
pub open spec fn response_sent(v: Value, x: AnyResponse) -> bool {
    match x {
        AnyResponse::OnEnd(response) => on_end_response_sent(v, response),
        AnyResponse::Rebuild(response) => rebuild_response_sent(v, response),
        AnyResponse::OnStart(response) => on_start_response_sent(v, response),
        AnyResponse::OnResolve(response) => on_resolve_response_sent(v, response),
        AnyResponse::OnLoad(response) => on_load_response_sent(v, response),
        AnyResponse::Ping(response) => ping_response_sent(v, response),
        _ => false,
    }
}

proof fn lemma_response_sent(x: AnyResponse)
    requires
        x is OnEnd || x is Rebuild || x is OnStart || x is OnResolve || x is OnLoad || x is Ping,
    ensures
        response_sent(x.wire(), x),
{
    match x {
        AnyResponse::OnEnd(response) => lemma_on_end_response_sent(response),
        AnyResponse::Rebuild(response) => lemma_rebuild_response_sent(response),
        AnyResponse::OnStart(response) => lemma_on_start_response_sent(response),
        AnyResponse::OnResolve(response) => lemma_on_resolve_response_sent(response),
        AnyResponse::OnLoad(response) => lemma_on_load_response_sent(response),
        AnyResponse::Ping(response) => lemma_ping_response_sent(response),
        _ => {},
    }
}

/// The responses that this side gives can be sent, and no others.
pub proof fn law_responses_that_can_be_sent(x: AnyResponse, r: bool)
    requires
        call_ensures(AnyResponse::can_encode, (&x,), r),
    ensures
        r <==> x is OnEnd || x is Rebuild || x is OnStart || x is OnResolve || x is OnLoad
            || x is Ping,
{
}

/// A request can be sent, and a response where this side gives it.
pub proof fn law_packets_that_can_be_sent(x: ProtocolPacket, r: bool)
    requires
        call_ensures(ProtocolPacket::can_encode, (&x,), r),
    ensures
        x.value is Request ==> r,
        x.value matches ProtocolMessage::Response(y) ==> (r <==> y is OnEnd || y is Rebuild
            || y is OnStart || y is OnResolve || y is OnLoad || y is Ping),
{
}

/// A response that this side gives is sent with its own fields.
pub proof fn law_response_sent(x: AnyResponse, buf: &mut Vec<u8>)
    requires
        call_ensures(<AnyResponse as Encode>::encode_into, (&x, buf), ()),
        x is OnEnd || x is Rebuild || x is OnStart || x is OnResolve || x is OnLoad || x is Ping,
    ensures
        exists|v: Value|
            #[trigger] response_sent(v, x) && final(buf)@ == old(buf)@ + encode::encode_value(v),
{
    lemma_response_sent(x);
}

/// `v` is what is sent for a message.
pub open spec fn message_sent_as(v: Value, x: ProtocolMessage) -> bool {
    match x {
        ProtocolMessage::Request(request) => request_sent(v, request),
        ProtocolMessage::Response(response) => response_sent(v, response),
    }
}

/// What can be sent holds the fields of the request or response.
pub proof fn law_protocol_message_sent(x: ProtocolMessage)
    requires
        x.encodable(),
    ensures
        message_sent_as(x.wire(), x),
{
    match x {
        ProtocolMessage::Request(request) => lemma_request_sent(request),
        ProtocolMessage::Response(response) => lemma_response_sent(response),
    }
}

proof fn lemma_length_before(message: Seq<u8>, all: Seq<u8>)
    requires
        all == Seq::<u8>::empty() + encode::delimited(message),
        all.len() <= u32::MAX,
    ensures
        all.len() == message.len() + 4,
        all.skip(4) == message,
        all[0] + 0x100 * all[1] + 0x1_0000 * all[2] + 0x100_0000 * all[3] == message.len(),
{
    let length = encode::le_bytes(message.len());
    assert(all =~= length + message);
    assert(all[0] == length[0] && all[1] == length[1] && all[2] == length[2] && all[3]
        == length[3]);
    assert(all.skip(4) =~= message);
}

proof fn lemma_packet_received(packet: PacketModel)
    requires
        packet.id < 0x8000_0000,
        value::keyed(packet.value),
        encoders::encode_packet(packet).len() <= u32::MAX,
    ensures
        wire::parse_packet(encoders::encode_packet(packet), 0) == Parse::Done(
            packet,
            encoders::encode_packet(packet).len(),
        ),
{
    let message = encoders::encode_packet(packet);
    roundtrip::lemma_short_encoding_fits(packet.value);
    roundtrip::lemma_decode_encoded_packet(packet, Seq::empty());
    assert(message + Seq::<u8>::empty() =~= message);
}

/// A packet that is written and then read, without the length before it, is the same packet: its
/// number, whether it is a request, and what is sent for what it holds. The length before it is
/// that of the rest.
pub proof fn law_packet_received(
    x: ProtocolPacket,
    buf: &mut Vec<u8>,
    bytes: &[u8],
    r: Option<Result<wire::AnyPacket, ProtocolError>>,
)
    requires
        x.value.encodable(),
        x.id < 0x8000_0000,
        call_ensures(ProtocolPacket::encode_into, (&x, buf), ()),
        old(buf)@.len() == 0,
        final(buf)@.len() <= u32::MAX,
        bytes@ == final(buf)@.skip(4),
        call_ensures(wire::try_decode_any_packet, (bytes,), r),
    ensures
        final(buf)@.len() >= 4,
        final(buf)@[0] + 0x100 * final(buf)@[1] + 0x1_0000 * final(buf)@[2] + 0x100_0000
            * final(buf)@[3] == bytes@.len(),
        r matches Some(Ok(y)) && y.id == x.id && y.is_request == x.is_request && message_sent_as(
            y.value@,
            x.value,
        ),
{
    law_protocol_message_sent(x.value);
    lemma_length_before(encoders::encode_packet(x.model()), final(buf)@);
    lemma_packet_received(x.model());
}

} // verus!
