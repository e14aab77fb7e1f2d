use esbuild_client::plugin::{
    hook_packet, load_result_to_response, resolve_result_to_response, OnEndHook, OnLoadHook,
    OnResolveHook, OnStartHook, PluginHook,
};
use esbuild_client::protocol::{
    AnyResponse, ImportKind, Message, OnEndRequest, OnLoadRequest, OnResolveRequest,
    OnStartRequest, PartialMessage, ProtocolMessage, ProtocolPacket,
};
use esbuild_client::{
    BuiltinLoader, OnEndArgs, OnEndResult, OnLoadArgs, OnLoadResult, OnResolveArgs,
    OnResolveResult, OnStartArgs, OnStartResult,
};
use indexmap::IndexMap;

fn resolve_request(importer: &str, namespace: &str) -> OnResolveRequest {
    let mut with = IndexMap::new();
    with.insert("type".to_string(), "json".to_string());
    OnResolveRequest {
        key: 1,
        ids: vec![2],
        path: "p".to_string(),
        importer: importer.to_string(),
        namespace: namespace.to_string(),
        resolve_dir: Some("".to_string()),
        kind: ImportKind::ImportRule,
        plugin_data: Some(3),
        with,
    }
}

fn answer(packet: ProtocolPacket, id: u32) -> AnyResponse {
    assert_eq!(packet.id, id);
    assert!(!packet.is_request);
    assert!(packet.can_encode());
    match packet.value {
        ProtocolMessage::Response(response) => response,
        ProtocolMessage::Request(_) => panic!("a hook is answered by a response"),
    }
}

#[test]
fn empty_strings_are_absent_to_a_resolve_hook() {
    let args = OnResolveArgs::from(resolve_request("", ""));
    assert_eq!(args.importer, None);
    assert_eq!(args.namespace, None);
    assert_eq!(args.resolve_dir.as_deref(), Some(""));
    let args = OnResolveHook::args_from(resolve_request("i", "n"));
    assert_eq!(args.importer.as_deref(), Some("i"));
    assert_eq!(args.namespace.as_deref(), Some("n"));
    assert_eq!(args.ids, vec![2]);
    assert_eq!(args.kind, ImportKind::ImportRule);
    let copy = args.clone();
    assert_eq!(format!("{copy:?}"), format!("{args:?}"));
    assert_eq!(copy.with["type"], "json");
}

#[test]
fn what_the_other_hooks_are_given() {
    let load = OnLoadArgs::from(OnLoadRequest {
        key: 1,
        ids: vec![5],
        path: "p".to_string(),
        namespace: "n".to_string(),
        suffix: "?s".to_string(),
        plugin_data: Some(7),
        with: IndexMap::new(),
    });
    assert_eq!((load.key, load.ids, load.path.as_str()), (1, vec![5], "p"));
    assert_eq!((load.namespace.as_str(), load.suffix.as_str()), ("n", "?s"));
    assert_eq!(load.plugin_data, Some(7));
    assert_eq!(OnStartArgs::from(OnStartRequest { key: 9 }).key, 9);
    let end = OnEndArgs::from(OnEndRequest {
        errors: vec![],
        warnings: vec![],
        output_files: None,
        metafile: Some("m".to_string()),
        mangle_cache: None,
        write_to_stdout: Some(vec![1]),
    });
    assert_eq!(end.metafile.as_deref(), Some("m"));
    assert_eq!(end.write_to_stdout, Some(vec![1]));
}

#[test]
fn resolve_answers() {
    let result = OnResolveResult {
        path: Some("/x".to_string()),
        external: Some(true),
        plugin_data: Some(4),
        ..Default::default()
    };
    let response = resolve_result_to_response(6, Some(result));
    assert_eq!(response.id, Some(6));
    assert_eq!(response.path.as_deref(), Some("/x"));
    assert_eq!(response.external, Some(true));
    assert_eq!(response.side_effects, None);
    assert_eq!(response.plugin_data, Some(4));
    let response = resolve_result_to_response(6, None);
    assert_eq!(response.id, Some(6));
    assert!(response.path.is_none());
    let response = OnResolveHook::response_from_result::<&str>(6, Err("failed"));
    assert_eq!(response.id, None);
}

#[test]
fn load_answers() {
    let result = OnLoadResult {
        id: Some(1),
        contents: Some(vec![1, 2]),
        loader: Some(BuiltinLoader::Base64),
        ..Default::default()
    };
    let response = load_result_to_response(6, Some(result));
    assert_eq!(response.id, Some(1));
    assert_eq!(response.contents, Some(vec![1, 2]));
    assert_eq!(response.loader.as_deref(), Some("base64"));
    let response = load_result_to_response(6, Some(OnLoadResult::default()));
    assert_eq!(response.id, None);
    assert_eq!(response.loader, None);
    assert_eq!(load_result_to_response(6, None).id, Some(6));
    assert_eq!(OnLoadHook::response_from_result::<()>(6, Err(())).id, None);
}

#[test]
fn start_and_end_answers() {
    let error = PartialMessage { text: "e".to_string(), ..Default::default() };
    let result = OnStartResult { errors: Some(vec![error]), ..Default::default() };
    let response = OnStartHook::response_from_result::<()>(1, Ok(Some(result)));
    assert_eq!(response.errors[0].text, "e");
    assert!(response.warnings.is_empty());
    assert!(OnStartHook::response_from_result::<()>(1, Ok(None)).errors.is_empty());
    assert!(OnStartHook::response_from_result::<()>(1, Err(())).errors.is_empty());
    let warning = Message {
        id: "".to_string(),
        plugin_name: "".to_string(),
        text: "w".to_string(),
        location: None,
        notes: vec![],
        detail: None,
    };
    let result = OnEndResult { warnings: Some(vec![warning]), ..Default::default() };
    let response = OnEndHook::response_from_result::<()>(1, Ok(Some(result)));
    assert_eq!(response.warnings[0].text, "w");
    assert!(response.errors.is_empty());
    assert!(OnEndHook::response_from_result::<()>(1, Ok(None)).warnings.is_empty());
    assert!(OnEndHook::response_from_result::<()>(1, Err(())).warnings.is_empty());
}

#[test]
fn hooks_are_answered_under_their_number() {
    let packet = hook_packet::<OnStartHook, ()>(4, Ok(None));
    assert!(matches!(answer(packet, 4), AnyResponse::OnStart(_)));
    let packet = hook_packet::<OnResolveHook, ()>(5, Ok(None));
    assert!(matches!(answer(packet, 5), AnyResponse::OnResolve(r) if r.id == Some(5)));
    let packet = hook_packet::<OnLoadHook, ()>(6, Err(()));
    assert!(matches!(answer(packet, 6), AnyResponse::OnLoad(r) if r.id.is_none()));
    let packet = hook_packet::<OnEndHook, ()>(7, Ok(Some(OnEndResult::default())));
    assert!(matches!(answer(packet, 7), AnyResponse::OnEnd(_)));
}

#[test]
fn contents_are_printed_as_text() {
    let result = || OnLoadResult {
        id: Some(1),
        contents: Some(vec![104, 105, 0xff]),
        loader: Some(BuiltinLoader::Js),
        ..Default::default()
    };
    assert_eq!(
        format!("{:?}", result()),
        "OnLoadResult { id: Some(1), plugin_name: None, errors: None, warnings: None, \
         contents: Some(\"hi\u{fffd}\"), resolve_dir: None, loader: Some(Js), \
         plugin_data: None, watch_files: None, watch_dirs: None }"
    );
    assert!(format!("{:#?}", result()).contains("    contents: Some(\n        \"hi"));
    assert_eq!(
        format!("{:?}", load_result_to_response(2, Some(result()))),
        "OnLoadResponse { id: Some(1), plugin_name: None, errors: None, warnings: None, \
         contents: Some(\"hi\u{fffd}\"), resolve_dir: None, loader: Some(\"js\"), \
         plugin_data: None, watch_files: None, watch_dirs: None }"
    );
    let printed = format!("{:?}", load_result_to_response(2, None));
    assert!(printed.contains("contents: None"));
}
