//! What holds of the smaller parts: maps, optional values, defaults, copies and texts.
use crate::builder::EsbuildFlagsBuilderError;
use crate::debug;
use crate::laws::flags;
use crate::plugin;
use crate::plugin::{OnEndResult, OnLoadResult, OnResolveResult, OnStartResult};
use crate::protocol::error::ProtocolError;
use crate::protocol::maps;
use crate::protocol::messages;
use crate::protocol::messages::{
    AnalyzeMetafileResponse, AnyResponse, BuildRequest, BuildResponse, FormatMsgsResponse,
    OnEndResponse, OnLoadRequest, OnLoadResponse, OnResolveRequest, OnResolveResponse,
    OnStartResponse, OptionNull, PartialMessage, PingResponse, RebuildResponse, ResolveResponse,
    ServeResponse, TransformResponse,
};
use crate::protocol::printed;
use crate::protocol::value;
use crate::protocol::value::{AnyValue, Value, ValueMap};
use crate::protocol::wire::AnyPacket;
use crate::text;
use vstd::prelude::*;

verus! {

/// A new map holds nothing under any key.
pub proof fn law_new_map(m: ValueMap, key: Seq<char>)
    requires
        call_ensures(ValueMap::new, (), m),
    ensures
        m@.len() == 0,
        value::lookup(m@, key) is None,
{
}

/// What was stored last under a key is found under it, and nothing else changes: neither what is
/// found under other keys nor where they stand.
pub proof fn law_insert_then_get(
    m: &mut ValueMap,
    key: String,
    v: AnyValue,
    other: &str,
    before: Option<&AnyValue>,
    after: Option<&AnyValue>,
)
    requires
        call_ensures(ValueMap::get, (&*old(m), other), before),
        call_ensures(ValueMap::insert, (m, key, v), ()),
        call_ensures(ValueMap::get, (&*final(m), other), after),
    ensures
        other@ == key@ ==> (after matches Some(w) && w@ == v@),
        other@ != key@ ==> match (before, after) {
            (Some(a), Some(b)) => a@ == b@,
            (None, None) => true,
            _ => false,
        },
        final(m)@.len() == old(m)@.len() + if value::lookup(old(m)@, key@) is Some {
            0int
        } else {
            1int
        },
        forall|i: int| 0 <= i < old(m)@.len() ==> (#[trigger] final(m)@[i]).0 == old(m)@[i].0,
{
    value::lemma_put_then_lookup(old(m)@, key@, v@, other@);
    value::lemma_key_index(old(m)@, key@);
}

/// What is found under a key is what an entry with that key holds.
pub proof fn law_get(m: ValueMap, key: &str, r: Option<&AnyValue>)
    requires
        call_ensures(ValueMap::get, (&m, key), r),
    ensures
        match r {
            Some(v) => exists|i: int| 0 <= i < m@.len() && #[trigger] m@[i] == (key@, v@),
            None => forall|i: int| 0 <= i < m@.len() ==> (#[trigger] m@[i]).0 != key@,
        },
{
    value::lemma_key_index(m@, key@);
    if let Some(v) = r {
        assert(m@[value::key_index(m@, key@)] == (key@, v@));
    }
}

/// The entries are handed out in order, each once.
pub proof fn law_entries(m: ValueMap, r: Vec<(&String, &AnyValue)>)
    requires
        call_ensures(ValueMap::entries, (&m,), r),
    ensures
        r@.len() == m@.len(),
        forall|i: int|
            0 <= i < r@.len() ==> (#[trigger] r@[i]).0@ == m@[i].0 && r@[i].1@ == m@[i].1,
        forall|i: int, j: int|
            0 <= i < j < r@.len() ==> (#[trigger] r@[i]).0@ != (#[trigger] r@[j]).0@,
{
}

/// The entries are handed out in order, each once.
pub proof fn law_into_entries(m: ValueMap, r: Vec<(String, AnyValue)>)
    requires
        call_ensures(ValueMap::into_entries, (m,), r),
    ensures
        r@.len() == m@.len(),
        forall|i: int|
            0 <= i < r@.len() ==> (#[trigger] r@[i]).0@ == m@[i].0 && r@[i].1@ == m@[i].1,
        forall|i: int, j: int|
            0 <= i < j < r@.len() ==> (#[trigger] r@[i]).0@ != (#[trigger] r@[j]).0@,
{
}

/// A copy of a value is the same value.
pub proof fn law_value_cloned(v: AnyValue, r: AnyValue)
    requires
        call_ensures(<AnyValue as Clone>::clone, (&v,), r),
    ensures
        r@ == v@,
{
}

/// A copy of a map holds the same.
pub proof fn law_map_cloned(m: ValueMap, r: ValueMap)
    requires
        call_ensures(<ValueMap as Clone>::clone, (&m,), r),
    ensures
        r@ == m@,
{
}

/// A copy of a packet is the same packet.
pub proof fn law_packet_cloned(p: AnyPacket, r: AnyPacket)
    requires
        call_ensures(<AnyPacket as Clone>::clone, (&p,), r),
    ensures
        r.id == p.id,
        r.is_request == p.is_request,
        r.value@ == p.value@,
{
}

/// A copy of a request is the same request.
pub proof fn law_on_resolve_request_cloned(x: OnResolveRequest, r: OnResolveRequest)
    requires
        call_ensures(<OnResolveRequest as Clone>::clone, (&x,), r),
    ensures
        r.key == x.key,
        r.path == x.path,
        r.importer == x.importer,
        r.namespace == x.namespace,
        r.resolve_dir == x.resolve_dir,
        r.kind == x.kind,
        r.plugin_data == x.plugin_data,
        r.ids@ == x.ids@,
        maps::string_entries(r.with) == maps::string_entries(x.with),
{
}

/// A copy of a request is the same request.
pub proof fn law_on_load_request_cloned(x: OnLoadRequest, r: OnLoadRequest)
    requires
        call_ensures(<OnLoadRequest as Clone>::clone, (&x,), r),
    ensures
        r.key == x.key,
        r.path == x.path,
        r.namespace == x.namespace,
        r.suffix == x.suffix,
        r.plugin_data == x.plugin_data,
        r.ids@ == x.ids@,
        maps::string_entries(r.with) == maps::string_entries(x.with),
{
}

/// A copy of what a resolve hook is given is the same.
pub proof fn law_resolve_args_cloned(x: plugin::OnResolveArgs, r: plugin::OnResolveArgs)
    requires
        call_ensures(<plugin::OnResolveArgs as Clone>::clone, (&x,), r),
    ensures
        r.key == x.key,
        r.path == x.path,
        r.importer == x.importer,
        r.kind == x.kind,
        r.namespace == x.namespace,
        r.resolve_dir == x.resolve_dir,
        r.ids@ == x.ids@,
        maps::string_entries(r.with) == maps::string_entries(x.with),
{
}

/// An optional value goes in and comes out as it is.
pub proof fn law_option_null<T>(
    x: Option<T>,
    one: OptionNull<T>,
    two: OptionNull<T>,
    back: Option<T>,
    inside: &Option<T>,
)
    requires
        call_ensures(OptionNull::<T>::new, (x,), one),
        call_ensures(<OptionNull<T> as From<Option<T>>>::from, (x,), two),
        call_ensures(<Option<T> as From<OptionNull<T>>>::from, (one,), back),
        call_ensures(OptionNull::<T>::as_option, (&two,), inside),
    ensures
        back == x,
        *inside == x,
{
}

/// By default there is no value.
pub proof fn law_option_null_default<T>(x: OptionNull<T>, r: &Option<T>)
    requires
        call_ensures(<OptionNull<T> as Default>::default, (), x),
        call_ensures(OptionNull::<T>::as_option, (&x,), r),
    ensures
        *r is None,
{
}

/// An empty build request: nothing to build, nothing written, nothing on standard input.
pub proof fn law_build_request_default(r: BuildRequest)
    requires
        call_ensures(<BuildRequest as Default>::default, (), r),
    ensures
        r.key == 0,
        r.entries@.len() == 0,
        r.flags@.len() == 0,
        !r.write,
        r.stdin_contents.inner() is None,
        r.stdin_resolve_dir.inner() is None,
        r.abs_working_dir@.len() == 0,
        r.node_paths@.len() == 0,
        !r.context,
        r.plugins is None,
        r.mangle_cache is None,
{
}

/// An empty message.
pub proof fn law_partial_message_default(r: PartialMessage)
    requires
        call_ensures(<PartialMessage as Default>::default, (), r),
    ensures
        r.id@.len() == 0,
        r.plugin_name@.len() == 0,
        r.text@.len() == 0,
        r.location is None,
        r.notes@.len() == 0,
        r.detail == 0,
{
}

/// By default it holds nothing.
pub proof fn law_on_resolve_result_default(r: OnResolveResult)
    requires
        call_ensures(<OnResolveResult as Default>::default, (), r),
    ensures
        r.plugin_name is None,
        r.errors is None,
        r.warnings is None,
        r.path is None,
        r.external is None,
        r.side_effects is None,
        r.namespace is None,
        r.suffix is None,
        r.plugin_data is None,
        r.watch_files is None,
        r.watch_dirs is None,
{
}

/// By default it holds nothing.
pub proof fn law_on_load_result_default(r: OnLoadResult)
    requires
        call_ensures(<OnLoadResult as Default>::default, (), r),
    ensures
        r.id is None,
        r.plugin_name is None,
        r.errors is None,
        r.warnings is None,
        r.contents is None,
        r.resolve_dir is None,
        r.loader is None,
        r.plugin_data is None,
        r.watch_files is None,
        r.watch_dirs is None,
{
}

/// By default it holds nothing.
pub proof fn law_on_start_result_default(r: OnStartResult)
    requires
        call_ensures(<OnStartResult as Default>::default, (), r),
    ensures
        r.errors is None,
        r.warnings is None,
{
}

/// By default it holds nothing.
pub proof fn law_on_end_result_default(r: OnEndResult)
    requires
        call_ensures(<OnEndResult as Default>::default, (), r),
    ensures
        r.errors is None,
        r.warnings is None,
{
}

/// By default it holds nothing.
pub proof fn law_on_resolve_response_default(r: OnResolveResponse)
    requires
        call_ensures(<OnResolveResponse as Default>::default, (), r),
    ensures
        r.id is None,
        r.plugin_name is None,
        r.errors is None,
        r.warnings is None,
        r.path is None,
        r.external is None,
        r.side_effects is None,
        r.namespace is None,
        r.suffix is None,
        r.plugin_data is None,
        r.watch_files is None,
        r.watch_dirs is None,
{
}

/// By default it holds nothing.
pub proof fn law_on_load_response_default(r: OnLoadResponse)
    requires
        call_ensures(<OnLoadResponse as Default>::default, (), r),
    ensures
        r.id is None,
        r.plugin_name is None,
        r.errors is None,
        r.warnings is None,
        r.contents is None,
        r.resolve_dir is None,
        r.loader is None,
        r.plugin_data is None,
        r.watch_files is None,
        r.watch_dirs is None,
{
}

/// By default there are no messages.
pub proof fn law_on_start_response_default(r: OnStartResponse)
    requires
        call_ensures(<OnStartResponse as Default>::default, (), r),
    ensures
        r.errors@.len() == 0,
        r.warnings@.len() == 0,
{
}

/// By default there are no messages.
pub proof fn law_on_end_response_default(r: OnEndResponse)
    requires
        call_ensures(<OnEndResponse as Default>::default, (), r),
    ensures
        r.errors@.len() == 0,
        r.warnings@.len() == 0,
{
}

/// A response of this kind is one of any kind.
pub proof fn law_build_is_any(x: BuildResponse, r: AnyResponse)
    requires
        call_ensures(<AnyResponse as From<BuildResponse>>::from, (x,), r),
    ensures
        r matches AnyResponse::Build(y) && y == x,
{
}

/// A response of this kind is one of any kind.
pub proof fn law_serve_is_any(x: ServeResponse, r: AnyResponse)
    requires
        call_ensures(<AnyResponse as From<ServeResponse>>::from, (x,), r),
    ensures
        r matches AnyResponse::Serve(y) && y == x,
{
}

/// A response of this kind is one of any kind.
pub proof fn law_on_end_is_any(x: OnEndResponse, r: AnyResponse)
    requires
        call_ensures(<AnyResponse as From<OnEndResponse>>::from, (x,), r),
    ensures
        r matches AnyResponse::OnEnd(y) && y == x,
{
}

/// A response of this kind is one of any kind.
pub proof fn law_rebuild_is_any(x: RebuildResponse, r: AnyResponse)
    requires
        call_ensures(<AnyResponse as From<RebuildResponse>>::from, (x,), r),
    ensures
        r matches AnyResponse::Rebuild(y) && y == x,
{
}

/// A response of this kind is one of any kind.
pub proof fn law_transform_is_any(x: TransformResponse, r: AnyResponse)
    requires
        call_ensures(<AnyResponse as From<TransformResponse>>::from, (x,), r),
    ensures
        r matches AnyResponse::Transform(y) && y == x,
{
}

/// A response of this kind is one of any kind.
pub proof fn law_format_msgs_is_any(x: FormatMsgsResponse, r: AnyResponse)
    requires
        call_ensures(<AnyResponse as From<FormatMsgsResponse>>::from, (x,), r),
    ensures
        r matches AnyResponse::FormatMsgs(y) && y == x,
{
}

/// A response of this kind is one of any kind.
pub proof fn law_analyze_metafile_is_any(x: AnalyzeMetafileResponse, r: AnyResponse)
    requires
        call_ensures(<AnyResponse as From<AnalyzeMetafileResponse>>::from, (x,), r),
    ensures
        r matches AnyResponse::AnalyzeMetafile(y) && y == x,
{
}

/// A response of this kind is one of any kind.
pub proof fn law_on_start_is_any(x: OnStartResponse, r: AnyResponse)
    requires
        call_ensures(<AnyResponse as From<OnStartResponse>>::from, (x,), r),
    ensures
        r matches AnyResponse::OnStart(y) && y == x,
{
}

/// A response of this kind is one of any kind.
pub proof fn law_resolve_is_any(x: ResolveResponse, r: AnyResponse)
    requires
        call_ensures(<AnyResponse as From<ResolveResponse>>::from, (x,), r),
    ensures
        r matches AnyResponse::Resolve(y) && y == x,
{
}

/// A response of this kind is one of any kind.
pub proof fn law_on_resolve_is_any(x: OnResolveResponse, r: AnyResponse)
    requires
        call_ensures(<AnyResponse as From<OnResolveResponse>>::from, (x,), r),
    ensures
        r matches AnyResponse::OnResolve(y) && y == x,
{
}

/// A response of this kind is one of any kind.
pub proof fn law_on_load_is_any(x: OnLoadResponse, r: AnyResponse)
    requires
        call_ensures(<AnyResponse as From<OnLoadResponse>>::from, (x,), r),
    ensures
        r matches AnyResponse::OnLoad(y) && y == x,
{
}

/// A response of this kind is one of any kind.
pub proof fn law_ping_is_any(x: PingResponse, r: AnyResponse)
    requires
        call_ensures(<AnyResponse as From<PingResponse>>::from, (x,), r),
    ensures
        r matches AnyResponse::Ping(y) && y == x,
{
}

/// What is told of each error.
pub proof fn law_error_text(e: ProtocolError, r: String)
    requires
        call_ensures(ProtocolError::to_string, (&e,), r),
    ensures
        match e {
            ProtocolError::InvalidTag(tag) => r@ == "Invalid value: "@ + text::decimal(tag as nat),
            ProtocolError::UndecodableString(s) => r@ == "Failed to decode string: "@ + s@,
            ProtocolError::InvalidUtf8(s) => r@ == s@,
            ProtocolError::StringExpected(v) => r@ == "expected string, got "@
                + printed::value_text(v@),
            ProtocolError::U32Expected(v) => r@ == "expected u32, got "@ + printed::value_text(v@),
            ProtocolError::BoolExpected => r@ == "expected bool"@,
            ProtocolError::BytesExpected => r@ == "expected bytes"@,
            ProtocolError::VecExpected => r@ == "expected vec"@,
            ProtocolError::MapExpected => r@ == "expected map"@,
            ProtocolError::NotAString => r@ == "Expected string"@,
            ProtocolError::NotAMap => r@ == "Expected map"@,
            ProtocolError::InvalidImportKind(s) => r@ == "invalid import kind: "@ + s@,
            ProtocolError::InvalidMangleCacheEntry(v) => r@ == "invalid mangle cache entry: "@
                + printed::value_text(v@),
            ProtocolError::MissingField(s) => r@ == "Missing field: "@ + s@,
            ProtocolError::OnKey(s, _) => r@ == "on key: "@ + s@,
        },
        e matches ProtocolError::InvalidTag(tag) ==> flags::digits_of(
            text::decimal(tag as nat),
            tag as nat,
        ),
{
    if let ProtocolError::InvalidTag(tag) = e {
        flags::law_decimal(tag as nat);
    }
}

/// What is told of an error of the builder.
pub proof fn law_builder_error_text(e: EsbuildFlagsBuilderError, r: String)
    requires
        call_ensures(EsbuildFlagsBuilderError::to_string, (&e,), r),
    ensures
        match e {
            EsbuildFlagsBuilderError::UninitializedField(field) => r@ == "`"@ + field@
                + "` must be initialized"@,
            EsbuildFlagsBuilderError::ValidationError(s) => r@ == s@,
        },
{
}

/// A value is printed as its kind and, in brackets, what it holds.
pub proof fn law_value_printed(v: AnyValue, r: String)
    requires
        call_ensures(printed::print_value, (&v,), r),
    ensures
        match v@ {
            Value::Null => r@ == "Null"@,
            Value::Bool(b) => r@ == "Bool("@ + flags::truth(b) + ")"@,
            Value::U32(u) => r@ == "U32("@ + text::decimal(u as nat) + ")"@,
            Value::Text(s) => r@ == "String("@ + printed::quoted_text(s) + ")"@,
            Value::Bytes(b) => r@ == "Bytes(["@ + printed::bytes_text(b, b.len()) + "])"@,
            Value::List(l) => r@ == "Vec(["@ + printed::items_text(l, l.len()) + "])"@,
            Value::Dict(d) => r@ == "Map({"@ + printed::entries_text(d, d.len()) + "})"@,
        },
{
}

/// What a list or a map is printed as grows by one item: a comma, but before the first, and then
/// the item; for a map the key in quotes, a colon and the value.
pub proof fn law_printed_items(
    b: Seq<u8>,
    l: Seq<Value>,
    d: Seq<(Seq<char>, Value)>,
    n: nat,
)
    requires
        0 < n,
    ensures
        n <= b.len() ==> printed::bytes_text(b, n) == printed::bytes_text(b, (n - 1) as nat)
            + comma(n) + text::decimal(b[n - 1] as nat),
        n <= l.len() ==> printed::items_text(l, n) == printed::items_text(l, (n - 1) as nat)
            + comma(n) + printed::value_text(l[n - 1]),
        n <= d.len() ==> printed::entries_text(d, n) == printed::entries_text(d, (n - 1) as nat)
            + comma(n) + printed::quoted_text(d[n - 1].0) + ": "@ + printed::value_text(
            d[n - 1].1,
        ),
        printed::bytes_text(b, 0).len() == 0,
        printed::items_text(l, 0).len() == 0,
        printed::entries_text(d, 0).len() == 0,
{
}

/// What stands before the `n`th item.
pub open spec fn comma(n: nat) -> Seq<char> {
    if n == 1 {
        Seq::empty()
    } else {
        ", "@
    }
}

/// It is printed field by field, its contents as text.
pub proof fn law_on_load_response_printed(x: messages::OnLoadResponse, r: debug::OnLoadResponse<'_>)
    requires
        call_ensures(debug::printed_response, (&x,), r),
    ensures
        *r.id == x.id,
        *r.plugin_name == x.plugin_name,
        *r.errors == x.errors,
        *r.warnings == x.warnings,
        *r.resolve_dir == x.resolve_dir,
        *r.loader == x.loader,
        *r.plugin_data == x.plugin_data,
        *r.watch_files == x.watch_files,
        *r.watch_dirs == x.watch_dirs,
        match x.contents {
            Some(b) => r.contents matches Some(s) && (vstd::utf8::valid_utf8(b@) ==> s@
                == vstd::utf8::decode_utf8(b@)),
            None => r.contents is None,
        },
{
}

/// It is printed field by field, its contents as text.
pub proof fn law_on_load_result_printed(x: plugin::OnLoadResult, r: debug::OnLoadResult<'_>)
    requires
        call_ensures(debug::printed_result, (&x,), r),
    ensures
        *r.id == x.id,
        *r.plugin_name == x.plugin_name,
        *r.errors == x.errors,
        *r.warnings == x.warnings,
        *r.resolve_dir == x.resolve_dir,
        *r.loader == x.loader,
        *r.plugin_data == x.plugin_data,
        *r.watch_files == x.watch_files,
        *r.watch_dirs == x.watch_dirs,
        match x.contents {
            Some(b) => r.contents matches Some(s) && (vstd::utf8::valid_utf8(b@) ==> s@
                == vstd::utf8::decode_utf8(b@)),
            None => r.contents is None,
        },
{
}

} // verus!
