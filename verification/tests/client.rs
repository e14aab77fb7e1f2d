use esbuild_client::protocol::{
    decode_any_packet, AnyPacket, AnyRequest, AnyResponse, AnyValue, BuildPlugin, BuildRequest,
    BuildResponse, MangleCacheEntry, OnLoadSetupOptions, OnResolveSetupOptions, ProtocolError,
    ProtocolMessage, ProtocolPacket, RequestKind, ServeResponse, ValueMap,
};
use esbuild_client::{can_handle, handle_packet, PacketAction, ProtocolClientInner};
use indexmap::IndexMap;

type Client = ProtocolClientInner<&'static str, &'static str, &'static str>;

fn text(s: &str) -> AnyValue {
    AnyValue::String(s.to_string())
}

fn map(entries: Vec<(&str, AnyValue)>) -> AnyValue {
    let mut m = ValueMap::new();
    for (key, value) in entries {
        m.insert(key.to_string(), value);
    }
    AnyValue::Mapping(m)
}

fn outcome() -> AnyValue {
    map(vec![("errors", AnyValue::Vec(vec![])), ("warnings", AnyValue::Vec(vec![]))])
}

fn response(id: u32, value: AnyValue) -> AnyPacket {
    AnyPacket { id, is_request: false, value }
}

fn request(id: u32, value: AnyValue) -> AnyPacket {
    AnyPacket { id, is_request: true, value }
}

/// The packet as it is received at the other end.
fn received(packet: &ProtocolPacket) -> AnyPacket {
    let mut bytes = Vec::new();
    packet.encode_into(&mut bytes);
    let length = u32::from_le_bytes(bytes[..4].try_into().unwrap()) as usize;
    assert_eq!(length, bytes.len() - 4);
    decode_any_packet(&bytes[4..]).unwrap()
}

fn keys(value: &AnyValue) -> Vec<String> {
    value.as_map().unwrap().entries().iter().map(|e| e.0.clone()).collect()
}

#[test]
fn requests_are_numbered() {
    let mut client = Client::new();
    let packet = client.send_rebuild_request(5, "r");
    assert_eq!(packet.id, 0);
    assert!(packet.is_request);
    assert!(matches!(
        packet.value,
        ProtocolMessage::Request(AnyRequest::Rebuild(r)) if r.key == 5
    ));
    let packet = client.send_dispose_request(6, "d");
    assert_eq!(packet.id, 1);
    assert!(matches!(
        packet.value,
        ProtocolMessage::Request(AnyRequest::Dispose(r)) if r.key == 6
    ));
    let packet = client.send_build_request(BuildRequest { key: 7, ..Default::default() }, "b");
    assert_eq!(packet.id, 2);
    assert!(matches!(
        packet.value,
        ProtocolMessage::Request(AnyRequest::Build(r)) if r.key == 7
    ));
    assert_eq!(client.id, 3);
    assert_eq!(client.pending.len(), 3);
    client.id = u32::MAX;
    assert_eq!(client.send_dispose_request(1, "x").id, u32::MAX);
    assert_eq!(client.id, 0);
}

#[test]
fn a_response_reaches_its_sender_once() {
    let mut client = Client::new();
    client.send_build_request(BuildRequest::default(), "first");
    client.send_rebuild_request(1, "second");
    client.send_dispose_request(1, "third");
    client.pending.insert(9, RequestKind::Cancel("fourth"));
    let packet = response(1, outcome());
    assert!(can_handle(&packet, &client.pending));
    match handle_packet(packet.clone(), &mut client.pending) {
        Ok(PacketAction::Rebuilt("second", Ok(r))) => assert!(r.errors.is_empty()),
        _ => panic!("the repeated build was answered"),
    }
    assert!(!can_handle(&packet, &client.pending));
    match handle_packet(response(0, outcome()), &mut client.pending) {
        Ok(PacketAction::Built("first", Ok(r))) => assert!(r.warnings.is_empty()),
        _ => panic!("the build was answered"),
    }
    assert!(matches!(
        handle_packet(response(2, map(vec![])), &mut client.pending),
        Ok(PacketAction::Acknowledged("third"))
    ));
    assert!(matches!(
        handle_packet(response(9, map(vec![])), &mut client.pending),
        Ok(PacketAction::Acknowledged("fourth"))
    ));
    assert!(client.pending.is_empty());
}

#[test]
fn a_failed_build_is_an_error() {
    let mut client = Client::new();
    client.send_build_request(BuildRequest::default(), "b");
    match handle_packet(response(0, map(vec![("error", text("no"))])), &mut client.pending) {
        Ok(PacketAction::Built("b", Err(message))) => assert_eq!(message.text, "no"),
        _ => panic!("the build failed"),
    }
}

#[test]
fn a_response_that_cannot_be_converted_is_still_the_last() {
    let mut client = Client::new();
    client.send_build_request(BuildRequest::default(), "b");
    assert!(matches!(
        handle_packet(response(0, map(vec![])), &mut client.pending),
        Err(ProtocolError::OnKey(key, _)) if key == "errors"
    ));
    assert!(client.pending.is_empty());
}

#[test]
fn hooks_are_called_by_command() {
    let mut client = Client::new();
    let with = || map(vec![("type", text("json"))]);
    let packet = request(3, map(vec![("command", text("on-start")), ("key", AnyValue::U32(8))]));
    assert!(can_handle(&packet, &client.pending));
    assert!(matches!(
        handle_packet(packet, &mut client.pending),
        Ok(PacketAction::OnStart(3, r)) if r.key == 8
    ));
    let packet = request(
        4,
        map(vec![
            ("command", text("on-resolve")),
            ("key", AnyValue::U32(8)),
            ("ids", AnyValue::Vec(vec![])),
            ("path", text("p")),
            ("importer", text("i")),
            ("namespace", text("")),
            ("kind", text("entry-point")),
            ("with", with()),
        ]),
    );
    assert!(matches!(
        handle_packet(packet, &mut client.pending),
        Ok(PacketAction::OnResolve(4, r)) if r.path == "p"
    ));
    let packet = request(
        5,
        map(vec![
            ("command", text("on-load")),
            ("key", AnyValue::U32(8)),
            ("ids", AnyValue::Vec(vec![])),
            ("path", text("q")),
            ("namespace", text("")),
            ("suffix", text("")),
            ("with", with()),
        ]),
    );
    assert!(matches!(
        handle_packet(packet, &mut client.pending),
        Ok(PacketAction::OnLoad(5, r)) if r.path == "q"
    ));
    let packet = request(
        6,
        map(vec![
            ("command", text("on-end")),
            ("errors", AnyValue::Vec(vec![])),
            ("warnings", AnyValue::Vec(vec![])),
        ]),
    );
    assert!(matches!(
        handle_packet(packet, &mut client.pending),
        Ok(PacketAction::OnEnd(6, r)) if r.errors.is_empty()
    ));
    let packet = request(7, map(vec![("command", text("on-start"))]));
    assert!(matches!(
        handle_packet(packet, &mut client.pending),
        Err(ProtocolError::OnKey(_, _))
    ));
}

#[test]
fn packets_with_nothing_to_do() {
    let client = Client::new();
    assert!(!can_handle(&request(0, AnyValue::Null), &client.pending));
    assert!(!can_handle(&request(0, map(vec![])), &client.pending));
    assert!(!can_handle(&request(0, map(vec![("command", AnyValue::U32(1))])), &client.pending));
    assert!(!can_handle(&request(0, map(vec![("command", text("ping"))])), &client.pending));
    assert!(!can_handle(&response(0, map(vec![])), &client.pending));
}

#[test]
fn a_build_request_as_it_is_sent() {
    let mut client = Client::new();
    let mut cache = IndexMap::new();
    cache.insert("m_".to_string(), MangleCacheEntry::BoolValue(true));
    let packet = client.send_build_request(
        BuildRequest {
            key: 1,
            entries: vec![("".to_string(), "in.js".to_string())],
            flags: vec!["--bundle=true".to_string()],
            write: true,
            stdin_contents: None.into(),
            stdin_resolve_dir: Some("/d".to_string()).into(),
            abs_working_dir: "/w".to_string(),
            node_paths: vec![],
            context: false,
            plugins: Some(vec![BuildPlugin {
                name: "pl".to_string(),
                on_start: true,
                on_end: false,
                on_resolve: vec![OnResolveSetupOptions {
                    id: 3,
                    filter: ".*".to_string(),
                    namespace: "".to_string(),
                }],
                on_load: vec![OnLoadSetupOptions {
                    id: 4,
                    filter: "x".to_string(),
                    namespace: "n".to_string(),
                }],
            }]),
            mangle_cache: Some(cache),
        },
        "b",
    );
    let packet = received(&packet);
    assert_eq!(packet.id, 0);
    assert!(packet.is_request);
    assert_eq!(
        keys(&packet.value),
        vec![
            "command",
            "key",
            "entries",
            "flags",
            "write",
            "stdinContents",
            "stdinResolveDir",
            "absWorkingDir",
            "nodePaths",
            "context",
            "plugins",
            "mangleCache",
        ]
    );
    let m = packet.value.as_map().unwrap();
    assert_eq!(m.get("command").unwrap().as_string().unwrap(), "build");
    assert!(matches!(m.get("stdinContents"), Some(AnyValue::Null)));
    assert_eq!(m.get("stdinResolveDir").unwrap().as_string().unwrap(), "/d");
    assert_eq!(
        format!("{:?}", m.get("entries").unwrap()),
        "Vec([Vec([String(\"\"), String(\"in.js\")])])"
    );
    match m.get("plugins").unwrap() {
        AnyValue::Vec(plugins) => {
            assert_eq!(keys(&plugins[0]), vec!["name", "onStart", "onEnd", "onResolve", "onLoad"]);
        }
        other => panic!("{other:?}"),
    }
}

#[test]
fn absent_fields_are_left_out() {
    let mut client = Client::new();
    let packet = received(&client.send_build_request(BuildRequest::default(), "b"));
    let names = keys(&packet.value);
    assert!(!names.contains(&"plugins".to_string()));
    assert!(!names.contains(&"mangleCache".to_string()));
    assert!(names.contains(&"stdinContents".to_string()));
}

#[test]
fn responses_that_are_only_received_cannot_be_sent() {
    let packet = |response| ProtocolPacket {
        id: 0,
        is_request: false,
        value: ProtocolMessage::Response(response),
    };
    let serve = ServeResponse { port: 1, hosts: vec![] };
    assert!(!packet(AnyResponse::from(serve)).can_encode());
    let build = BuildResponse {
        errors: vec![],
        warnings: vec![],
        output_files: None,
        metafile: None,
        mangle_cache: None,
        write_to_stdout: None,
    };
    assert!(!packet(AnyResponse::from(build)).can_encode());
}

#[test]
fn the_number_of_a_packet_on_the_wire() {
    let mut client = Client::new();
    client.id = 5;
    let mut bytes = Vec::new();
    client.send_dispose_request(2, "d").encode_into(&mut bytes);
    assert_eq!(bytes[4..8], [10, 0, 0, 0]);
}
