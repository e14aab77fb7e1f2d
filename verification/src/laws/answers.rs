//! What a plugin is given and how it is answered for.
use crate::laws::flags;
use crate::laws::read;
use crate::laws::sent;
use crate::plugin::{
    hook_packet, load_result_to_response, resolve_result_to_response, OnEndArgs, OnEndHook,
    OnEndResult, OnLoadArgs, OnLoadHook, OnLoadResult, OnResolveArgs, OnResolveHook,
    OnResolveResult, OnStartArgs, OnStartHook, OnStartResult, PluginHook,
};
use crate::protocol::convert::FromMap;
use crate::protocol::encode::Encode;
use crate::protocol::fields;
use crate::protocol::messages::{
    OnEndRequest, OnLoadRequest, OnLoadResponse, OnResolveRequest, OnResolveResponse,
    OnStartRequest, ProtocolPacket,
};
use crate::protocol::value;
use crate::protocol::value::{Value, ValueMap};
use vstd::prelude::*;

verus! {

/// What a resolve hook returned is answered field by field, under the number of the request.
pub proof fn law_resolve_result_answered(id: u32, x: OnResolveResult, r: OnResolveResponse)
    requires
        call_ensures(resolve_result_to_response, (id, Some(x)), r),
    ensures
        r.id == Some(id),
        r.plugin_name == x.plugin_name,
        r.errors == x.errors,
        r.warnings == x.warnings,
        r.path == x.path,
        r.external == x.external,
        r.side_effects == x.side_effects,
        r.namespace == x.namespace,
        r.suffix == x.suffix,
        r.plugin_data == x.plugin_data,
        r.watch_files == x.watch_files,
        r.watch_dirs == x.watch_dirs,
{
}

/// A resolve hook that returned nothing is answered by the number of the request alone.
pub proof fn law_no_resolve_result_answered(id: u32, r: OnResolveResponse)
    requires
        call_ensures(resolve_result_to_response, (id, None), r),
    ensures
        r.id == Some(id),
        r.plugin_name is None,
        r.errors is None,
        r.warnings is None,
        r.path is None,
        r.external is None,
        r.side_effects is None,
        r.namespace is None,
        r.suffix is None,
        r.plugin_data is None,
        r.watch_files is None,
        r.watch_dirs is None,
{
}

/// What a load hook returned is answered field by field, with the number that it gave and the name
/// of the loader.
pub proof fn law_load_result_answered(id: u32, x: OnLoadResult, r: OnLoadResponse)
    requires
        call_ensures(load_result_to_response, (id, Some(x)), r),
    ensures
        r.id == x.id,
        r.plugin_name == x.plugin_name,
        r.errors == x.errors,
        r.warnings == x.warnings,
        r.contents == x.contents,
        r.resolve_dir == x.resolve_dir,
        r.plugin_data == x.plugin_data,
        r.watch_files == x.watch_files,
        r.watch_dirs == x.watch_dirs,
        match x.loader {
            Some(loader) => r.loader matches Some(s) && s@ == flags::loader_name(loader),
            None => r.loader is None,
        },
{
}

/// A load hook that returned nothing is answered by the number of the request alone.
pub proof fn law_no_load_result_answered(id: u32, r: OnLoadResponse)
    requires
        call_ensures(load_result_to_response, (id, None), r),
    ensures
        r.id == Some(id),
        r.plugin_name is None,
        r.errors is None,
        r.warnings is None,
        r.contents is None,
        r.resolve_dir is None,
        r.loader is None,
        r.plugin_data is None,
        r.watch_files is None,
        r.watch_dirs is None,
{
}

/// The packet that answers a resolve hook is sent under the number of the request and holds each
/// field of what the hook returned, under the name of that field, and none that the hook left
/// out. Where the hook returned nothing it holds the number alone; where it failed, nothing.
pub proof fn law_resolve_hook_answer<E>(
    id: u32,
    result: Result<Option<OnResolveResult>, E>,
    packet: ProtocolPacket,
)
    requires
        call_ensures(hook_packet::<OnResolveHook, E>, (id, result), packet),
    ensures
        packet.id == id,
        !packet.is_request,
        packet.value.wire() matches Value::Dict(m) && match result {
                Ok(Some(x)) => {
                    &&& m.len() == 1 + fields::present(x.plugin_name) +
                        fields::present(x.errors) +
                        fields::present(x.warnings) +
                        fields::present(x.path) +
                        fields::present(x.external) +
                        fields::present(x.side_effects) +
                        fields::present(x.namespace) +
                        fields::present(x.suffix) +
                        fields::present(x.plugin_data) +
                        fields::present(x.watch_files) +
                        fields::present(x.watch_dirs)
                    &&& value::lookup(m, "id"@) == Some(Value::U32(id))
                    &&& match x.plugin_name {
                        Some(y) => value::lookup(m, "pluginName"@) matches Some(f) && f == Value::Text(y@),
                        None => value::lookup(m, "pluginName"@) is None,
                    }
                    &&& match x.errors {
                        Some(y) => value::lookup(m, "errors"@) matches Some(f) && sent::partial_messages_sent(f, y@),
                        None => value::lookup(m, "errors"@) is None,
                    }
                    &&& match x.warnings {
                        Some(y) => value::lookup(m, "warnings"@) matches Some(f) && sent::partial_messages_sent(f, y@),
                        None => value::lookup(m, "warnings"@) is None,
                    }
                    &&& match x.path {
                        Some(y) => value::lookup(m, "path"@) matches Some(f) && f == Value::Text(y@),
                        None => value::lookup(m, "path"@) is None,
                    }
                    &&& match x.external {
                        Some(y) => value::lookup(m, "external"@) matches Some(f) && f == Value::Bool(y),
                        None => value::lookup(m, "external"@) is None,
                    }
                    &&& match x.side_effects {
                        Some(y) => value::lookup(m, "sideEffects"@) matches Some(f) && f == Value::Bool(y),
                        None => value::lookup(m, "sideEffects"@) is None,
                    }
                    &&& match x.namespace {
                        Some(y) => value::lookup(m, "namespace"@) matches Some(f) && f == Value::Text(y@),
                        None => value::lookup(m, "namespace"@) is None,
                    }
                    &&& match x.suffix {
                        Some(y) => value::lookup(m, "suffix"@) matches Some(f) && f == Value::Text(y@),
                        None => value::lookup(m, "suffix"@) is None,
                    }
                    &&& match x.plugin_data {
                        Some(y) => value::lookup(m, "pluginData"@) matches Some(f) && f == Value::U32(y),
                        None => value::lookup(m, "pluginData"@) is None,
                    }
                    &&& match x.watch_files {
                        Some(y) => value::lookup(m, "watchFiles"@) matches Some(f) && sent::texts_sent(f, y@),
                        None => value::lookup(m, "watchFiles"@) is None,
                    }
                    &&& match x.watch_dirs {
                        Some(y) => value::lookup(m, "watchDirs"@) matches Some(f) && sent::texts_sent(f, y@),
                        None => value::lookup(m, "watchDirs"@) is None,
                    }
                },
                Ok(None) => m.len() == 1 && value::lookup(m, "id"@) == Some(Value::U32(id)),
                Err(_) => m.len() == 0,
            },
{
    sent::law_protocol_message_sent(packet.value);
}

/// The packet that answers a load hook is sent under the number of the request and holds each
/// field of what the hook returned, under the name of that field, and none that the hook left
/// out. Where the hook returned nothing it holds the number alone; where it failed, nothing.
pub proof fn law_load_hook_answer<E>(
    id: u32,
    result: Result<Option<OnLoadResult>, E>,
    packet: ProtocolPacket,
)
    requires
        call_ensures(hook_packet::<OnLoadHook, E>, (id, result), packet),
    ensures
        packet.id == id,
        !packet.is_request,
        packet.value.wire() matches Value::Dict(m) && match result {
                Ok(Some(x)) => {
                    &&& m.len() == fields::present(x.id) +
                        fields::present(x.plugin_name) +
                        fields::present(x.errors) +
                        fields::present(x.warnings) +
                        fields::present(x.contents) +
                        fields::present(x.resolve_dir) +
                        fields::present(x.loader) +
                        fields::present(x.plugin_data) +
                        fields::present(x.watch_files) +
                        fields::present(x.watch_dirs)
                    &&& match x.id {
                        Some(y) => value::lookup(m, "id"@) matches Some(f) && f == Value::U32(y),
                        None => value::lookup(m, "id"@) is None,
                    }
                    &&& match x.plugin_name {
                        Some(y) => value::lookup(m, "pluginName"@) matches Some(f) && f == Value::Text(y@),
                        None => value::lookup(m, "pluginName"@) is None,
                    }
                    &&& match x.errors {
                        Some(y) => value::lookup(m, "errors"@) matches Some(f) && sent::partial_messages_sent(f, y@),
                        None => value::lookup(m, "errors"@) is None,
                    }
                    &&& match x.warnings {
                        Some(y) => value::lookup(m, "warnings"@) matches Some(f) && sent::partial_messages_sent(f, y@),
                        None => value::lookup(m, "warnings"@) is None,
                    }
                    &&& match x.contents {
                        Some(y) => value::lookup(m, "contents"@) matches Some(f) && f == Value::Bytes(y@),
                        None => value::lookup(m, "contents"@) is None,
                    }
                    &&& match x.resolve_dir {
                        Some(y) => value::lookup(m, "resolveDir"@) matches Some(f) && f == Value::Text(y@),
                        None => value::lookup(m, "resolveDir"@) is None,
                    }
                    &&& match x.loader {
                        Some(y) => value::lookup(m, "loader"@) matches Some(f) && f == Value::Text(flags::loader_name(y)),
                        None => value::lookup(m, "loader"@) is None,
                    }
                    &&& match x.plugin_data {
                        Some(y) => value::lookup(m, "pluginData"@) matches Some(f) && f == Value::U32(y),
                        None => value::lookup(m, "pluginData"@) is None,
                    }
                    &&& match x.watch_files {
                        Some(y) => value::lookup(m, "watchFiles"@) matches Some(f) && sent::texts_sent(f, y@),
                        None => value::lookup(m, "watchFiles"@) is None,
                    }
                    &&& match x.watch_dirs {
                        Some(y) => value::lookup(m, "watchDirs"@) matches Some(f) && sent::texts_sent(f, y@),
                        None => value::lookup(m, "watchDirs"@) is None,
                    }
                },
                Ok(None) => m.len() == 1 && value::lookup(m, "id"@) == Some(Value::U32(id)),
                Err(_) => m.len() == 0,
            },
{
    sent::law_protocol_message_sent(packet.value);
}

/// The packet that answers a start hook is sent under the number of the request and holds the
/// errors and warnings that the hook returned; none where it failed or returned none.
pub proof fn law_start_hook_answer<E>(
    id: u32,
    result: Result<Option<OnStartResult>, E>,
    packet: ProtocolPacket,
)
    requires
        call_ensures(hook_packet::<OnStartHook, E>, (id, result), packet),
    ensures
        packet.id == id,
        !packet.is_request,
        packet.value.wire() matches Value::Dict(m) && {
            &&& m.len() == 2
            &&& value::lookup(m, "errors"@) matches Some(f) && match result {
                Ok(Some(OnStartResult { errors: Some(y), .. })) => sent::partial_messages_sent(f, y@),
                _ => f == Value::List(Seq::empty()),
            }
            &&& value::lookup(m, "warnings"@) matches Some(f) && match result {
                Ok(Some(OnStartResult { warnings: Some(y), .. })) => sent::partial_messages_sent(f, y@),
                _ => f == Value::List(Seq::empty()),
            }
        },
{
    sent::law_protocol_message_sent(packet.value);
    if let Value::Dict(m) = packet.value.wire() {
        if let Some(Value::List(l)) = value::lookup(m, "errors"@) {
            if l.len() == 0 {
                assert(l =~= Seq::empty());
            }
        }
        if let Some(Value::List(l)) = value::lookup(m, "warnings"@) {
            if l.len() == 0 {
                assert(l =~= Seq::empty());
            }
        }
    }
}

/// The packet that answers a end hook is sent under the number of the request and holds the
/// errors and warnings that the hook returned; none where it failed or returned none.
pub proof fn law_end_hook_answer<E>(
    id: u32,
    result: Result<Option<OnEndResult>, E>,
    packet: ProtocolPacket,
)
    requires
        call_ensures(hook_packet::<OnEndHook, E>, (id, result), packet),
    ensures
        packet.id == id,
        !packet.is_request,
        packet.value.wire() matches Value::Dict(m) && {
            &&& m.len() == 2
            &&& value::lookup(m, "errors"@) matches Some(f) && match result {
                Ok(Some(OnEndResult { errors: Some(y), .. })) => sent::messages_sent(f, y@),
                _ => f == Value::List(Seq::empty()),
            }
            &&& value::lookup(m, "warnings"@) matches Some(f) && match result {
                Ok(Some(OnEndResult { warnings: Some(y), .. })) => sent::messages_sent(f, y@),
                _ => f == Value::List(Seq::empty()),
            }
        },
{
    sent::law_protocol_message_sent(packet.value);
    if let Value::Dict(m) = packet.value.wire() {
        if let Some(Value::List(l)) = value::lookup(m, "errors"@) {
            if l.len() == 0 {
                assert(l =~= Seq::empty());
            }
        }
        if let Some(Value::List(l)) = value::lookup(m, "warnings"@) {
            if l.len() == 0 {
                assert(l =~= Seq::empty());
            }
        }
    }
}

/// A resolve hook is given what it is asked, field by field; an importer or a namespace that is
/// empty is absent.
pub proof fn law_resolve_hook_given(request: OnResolveRequest, r: OnResolveArgs)
    requires
        call_ensures(<OnResolveHook as PluginHook>::args_from, (request,), r),
    ensures
        r.key == request.key,
        r.ids == request.ids,
        r.path == request.path,
        r.kind == request.kind,
        r.resolve_dir == request.resolve_dir,
        r.with == request.with,
        request.importer@.len() == 0 ==> r.importer is None,
        request.importer@.len() > 0 ==> r.importer == Some(request.importer),
        request.namespace@.len() == 0 ==> r.namespace is None,
        request.namespace@.len() > 0 ==> r.namespace == Some(request.namespace),
{
}

/// A resolve hook is given what it is asked, field by field; an importer or a namespace that is
/// empty is absent.
pub proof fn law_resolve_args_given(request: OnResolveRequest, r: OnResolveArgs)
    requires
        call_ensures(<OnResolveArgs as From<OnResolveRequest>>::from, (request,), r),
    ensures
        r.key == request.key,
        r.ids == request.ids,
        r.path == request.path,
        r.kind == request.kind,
        r.resolve_dir == request.resolve_dir,
        r.with == request.with,
        request.importer@.len() == 0 ==> r.importer is None,
        request.importer@.len() > 0 ==> r.importer == Some(request.importer),
        request.namespace@.len() == 0 ==> r.namespace is None,
        request.namespace@.len() > 0 ==> r.namespace == Some(request.namespace),
{
}

/// A load hook is given what it is asked, field by field.
pub proof fn law_load_hook_given(request: OnLoadRequest, r: OnLoadArgs)
    requires
        call_ensures(<OnLoadHook as PluginHook>::args_from, (request,), r),
    ensures
        r.key == request.key,
        r.ids == request.ids,
        r.path == request.path,
        r.namespace == request.namespace,
        r.suffix == request.suffix,
        r.plugin_data == request.plugin_data,
        r.with == request.with,
{
}

/// A load hook is given what it is asked, field by field.
pub proof fn law_load_args_given(request: OnLoadRequest, r: OnLoadArgs)
    requires
        call_ensures(<OnLoadArgs as From<OnLoadRequest>>::from, (request,), r),
    ensures
        r.key == request.key,
        r.ids == request.ids,
        r.path == request.path,
        r.namespace == request.namespace,
        r.suffix == request.suffix,
        r.plugin_data == request.plugin_data,
        r.with == request.with,
{
}

/// A start hook is given what it is asked, field by field.
pub proof fn law_start_hook_given(request: OnStartRequest, r: OnStartArgs)
    requires
        call_ensures(<OnStartHook as PluginHook>::args_from, (request,), r),
    ensures
        r.key == request.key,
{
}

/// A start hook is given what it is asked, field by field.
pub proof fn law_start_args_given(request: OnStartRequest, r: OnStartArgs)
    requires
        call_ensures(<OnStartArgs as From<OnStartRequest>>::from, (request,), r),
    ensures
        r.key == request.key,
{
}

/// An end hook is given what it is asked, field by field.
pub proof fn law_end_hook_given(request: OnEndRequest, r: OnEndArgs)
    requires
        call_ensures(<OnEndHook as PluginHook>::args_from, (request,), r),
    ensures
        r.errors == request.errors,
        r.warnings == request.warnings,
        r.output_files == request.output_files,
        r.metafile == request.metafile,
        r.mangle_cache == request.mangle_cache,
        r.write_to_stdout == request.write_to_stdout,
{
}

/// An end hook is given what it is asked, field by field.
pub proof fn law_end_args_given(request: OnEndRequest, r: OnEndArgs)
    requires
        call_ensures(<OnEndArgs as From<OnEndRequest>>::from, (request,), r),
    ensures
        r.errors == request.errors,
        r.warnings == request.warnings,
        r.output_files == request.output_files,
        r.metafile == request.metafile,
        r.mangle_cache == request.mangle_cache,
        r.write_to_stdout == request.write_to_stdout,
{
}

/// What stands under a name in a request to resolve a path reaches the hook under that name.
pub proof fn law_resolve_request_reaches_hook(
    map: ValueMap,
    request: OnResolveRequest,
    args: OnResolveArgs,
)
    requires
        call_ensures(<OnResolveRequest as FromMap>::from_map, (&map,), Ok(request)),
        call_ensures(<OnResolveHook as PluginHook>::args_from, (request,), args),
    ensures
        value::lookup(map@, "key"@) == Some(Value::U32(args.key)),
        value::lookup(map@, "ids"@) matches Some(f) && read::numbers_read(f, args.ids@),
        value::lookup(map@, "path"@) matches Some(f) && read::says(f, args.path@),
        value::lookup(map@, "kind"@) == Some(Value::Text(read::import_name(args.kind))),
        value::lookup(map@, "with"@) matches Some(f) && read::strings_read(f, args.with),
        value::lookup(map@, "importer"@) matches Some(f) && match args.importer {
            Some(s) => s@.len() > 0 && read::says(f, s@),
            None => read::says(f, Seq::empty()),
        },
        value::lookup(map@, "namespace"@) matches Some(f) && match args.namespace {
            Some(s) => s@.len() > 0 && read::says(f, s@),
            None => read::says(f, Seq::empty()),
        },
        match value::lookup(map@, "resolveDir"@) {
            None => args.resolve_dir is None,
            Some(Value::Null) => args.resolve_dir is None,
            Some(f) => args.resolve_dir matches Some(s) && read::says(f, s@),
        },
{
    read::law_on_resolve_request_read(map, Ok(request));
    if request.importer@.len() == 0 {
        assert(request.importer@ =~= Seq::empty());
    }
    if request.namespace@.len() == 0 {
        assert(request.namespace@ =~= Seq::empty());
    }
}

/// What stands under a name in a request to load a file reaches the hook under that name.
pub proof fn law_load_request_reaches_hook(
    map: ValueMap,
    request: OnLoadRequest,
    args: OnLoadArgs,
)
    requires
        call_ensures(<OnLoadRequest as FromMap>::from_map, (&map,), Ok(request)),
        call_ensures(<OnLoadHook as PluginHook>::args_from, (request,), args),
    ensures
        value::lookup(map@, "key"@) == Some(Value::U32(args.key)),
        value::lookup(map@, "ids"@) matches Some(f) && read::numbers_read(f, args.ids@),
        value::lookup(map@, "path"@) matches Some(f) && read::says(f, args.path@),
        value::lookup(map@, "namespace"@) matches Some(f) && read::says(f, args.namespace@),
        value::lookup(map@, "suffix"@) matches Some(f) && read::says(f, args.suffix@),
        value::lookup(map@, "with"@) matches Some(f) && read::strings_read(f, args.with),
        match value::lookup(map@, "pluginData"@) {
            None => args.plugin_data is None,
            Some(Value::Null) => args.plugin_data is None,
            Some(f) => args.plugin_data matches Some(n) && f == Value::U32(n),
        },
{
    read::law_on_load_request_read(map, Ok(request));
}

} // verus!
