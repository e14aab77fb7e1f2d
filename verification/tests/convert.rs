use esbuild_client::protocol::{
    AnyValue, BuildOutputFile, BuildResponse, Buf, Decode, Encode, FromAnyValue, FromMap,
    ImportKind, Location, MangleCacheEntry, Message, MessageFromAnyValue, Note, OnEndRequest,
    OnLoadRequest, OnResolveRequest, OnStartRequest, OptionNull, PartialMessage, ProtocolError,
    RebuildResponse, ValueMap,
};
use indexmap::IndexMap;

fn text(s: &str) -> AnyValue {
    AnyValue::String(s.to_string())
}

fn map(entries: Vec<(&str, AnyValue)>) -> ValueMap {
    let mut m = ValueMap::new();
    for (key, value) in entries {
        m.insert(key.to_string(), value);
    }
    m
}

/// What is received for what is sent.
fn sent<T: Encode>(x: &T) -> AnyValue {
    let mut bytes = Vec::new();
    x.encode_into(&mut bytes);
    AnyValue::decode_from(&mut Buf::new(&bytes)).unwrap()
}

fn bytes_of<T: Encode>(x: &T) -> Vec<u8> {
    let mut bytes = Vec::new();
    x.encode_into(&mut bytes);
    bytes
}

fn location() -> Location {
    Location {
        file: "a.js".to_string(),
        namespace: "file".to_string(),
        line: 1,
        column: 2,
        length: 3,
        line_text: "x".to_string(),
        suggestion: "y".to_string(),
    }
}

fn message() -> Message {
    Message {
        id: "i".to_string(),
        plugin_name: "p".to_string(),
        text: "t".to_string(),
        location: Some(location()),
        notes: vec![Note { text: "n".to_string(), location: None }],
        detail: Some(AnyValue::U32(4)),
    }
}

#[test]
fn strings_may_come_as_bytes() {
    assert_eq!(String::from_any_value(text("a")).unwrap(), "a");
    assert_eq!(String::from_any_value(AnyValue::Bytes(vec![0xc3, 0xa9])).unwrap(), "\u{e9}");
    let error = String::from_any_value(AnyValue::Bytes(vec![97, 0xc3])).unwrap_err();
    assert!(matches!(&error, ProtocolError::InvalidUtf8(_)));
    assert_eq!(error.to_string(), "incomplete utf-8 byte sequence from index 1");
    assert!(matches!(
        String::from_any_value(AnyValue::U32(5)),
        Err(ProtocolError::StringExpected(AnyValue::U32(5)))
    ));
}

#[test]
fn scalars_are_converted() {
    assert_eq!(u32::from_any_value(AnyValue::U32(5)).unwrap(), 5);
    assert!(matches!(
        u32::from_any_value(AnyValue::Null),
        Err(ProtocolError::U32Expected(AnyValue::Null))
    ));
    assert!(bool::from_any_value(AnyValue::Bool(true)).unwrap());
    assert!(matches!(bool::from_any_value(AnyValue::Null), Err(ProtocolError::BoolExpected)));
    assert_eq!(Vec::<u8>::from_any_value(AnyValue::Bytes(vec![1])).unwrap(), vec![1]);
    assert!(matches!(
        Vec::<u8>::from_any_value(AnyValue::Null),
        Err(ProtocolError::BytesExpected)
    ));
    assert!(matches!(AnyValue::from_any_value(AnyValue::U32(1)), Ok(AnyValue::U32(1))));
    assert_eq!(AnyValue::U32(9).to_type::<u32>().unwrap(), 9);
}

#[test]
fn lists_are_converted_item_by_item() {
    let list = AnyValue::Vec(vec![AnyValue::U32(1), AnyValue::U32(2)]);
    assert_eq!(Vec::<u32>::from_any_value(list).unwrap(), vec![1, 2]);
    let list = AnyValue::Vec(vec![AnyValue::U32(1), AnyValue::Null, AnyValue::Bool(true)]);
    assert!(matches!(
        Vec::<u32>::from_any_value(list),
        Err(ProtocolError::U32Expected(AnyValue::Null))
    ));
    assert!(matches!(Vec::<u32>::from_any_value(AnyValue::Null), Err(ProtocolError::VecExpected)));
}

#[test]
fn null_is_an_absent_value() {
    assert_eq!(Option::<u32>::from_any_value(AnyValue::Null).unwrap(), None);
    assert_eq!(Option::<u32>::from_any_value(AnyValue::U32(1)).unwrap(), Some(1));
    assert!(Option::<u32>::from_any_value(text("x")).is_err());
}

#[test]
fn maps_are_converted_in_order() {
    let m = map(vec![("b", text("1")), ("a", AnyValue::Bytes(vec![50]))]);
    let converted = IndexMap::<String, String>::from_any_value(AnyValue::Mapping(m)).unwrap();
    let entries: Vec<(&str, &str)> =
        converted.iter().map(|(k, v)| (k.as_str(), v.as_str())).collect();
    assert_eq!(entries, vec![("b", "1"), ("a", "2")]);
    assert!(matches!(
        IndexMap::<String, String>::from_any_value(AnyValue::Null),
        Err(ProtocolError::MapExpected)
    ));
    let m = map(vec![("x", text("y")), ("z", AnyValue::Bool(false))]);
    let converted =
        IndexMap::<String, MangleCacheEntry>::from_any_value(AnyValue::Mapping(m)).unwrap();
    assert!(matches!(&converted["x"], MangleCacheEntry::StringValue(s) if s == "y"));
    assert!(matches!(&converted["z"], MangleCacheEntry::BoolValue(false)));
    let m = map(vec![("x", AnyValue::U32(1))]);
    assert!(matches!(
        IndexMap::<String, MangleCacheEntry>::from_any_value(AnyValue::Mapping(m)),
        Err(ProtocolError::InvalidMangleCacheEntry(AnyValue::U32(1)))
    ));
    assert!(matches!(
        ValueMap::from_any_value(AnyValue::U32(1)),
        Err(ProtocolError::MapExpected)
    ));
}

#[test]
fn import_kinds_by_name() {
    let names = [
        ("entry-point", ImportKind::EntryPoint),
        ("import-statement", ImportKind::ImportStatement),
        ("require-call", ImportKind::RequireCall),
        ("dynamic-import", ImportKind::DynamicImport),
        ("require-resolve", ImportKind::RequireResolve),
        ("import-rule", ImportKind::ImportRule),
        ("composes-from", ImportKind::ComposesFrom),
        ("url-token", ImportKind::UrlToken),
    ];
    for (name, kind) in names {
        assert_eq!(ImportKind::from_any_value(text(name)).unwrap(), kind);
    }
    assert!(matches!(
        ImportKind::from_any_value(text("import")),
        Err(ProtocolError::InvalidImportKind(s)) if s == "import"
    ));
    assert!(matches!(
        ImportKind::from_any_value(AnyValue::Null),
        Err(ProtocolError::NotAString)
    ));
}

#[test]
fn values_are_taken_as_strings_and_maps() {
    assert_eq!(text("a").as_string().unwrap(), "a");
    assert!(matches!(AnyValue::Null.as_string(), Err(ProtocolError::NotAString)));
    assert!(AnyValue::Mapping(ValueMap::new()).as_map().is_ok());
    assert!(matches!(AnyValue::Null.as_map(), Err(ProtocolError::NotAMap)));
    assert!(matches!(Note::from_any_value(AnyValue::Null), Err(ProtocolError::NotAMap)));
}

#[test]
fn failures_name_the_key() {
    let error = OnStartRequest::from_map(&ValueMap::new()).unwrap_err();
    match error {
        ProtocolError::OnKey(key, inner) => {
            assert_eq!(key, "key");
            assert!(matches!(*inner, ProtocolError::MissingField(k) if k == "key"));
        }
        other => panic!("{other:?}"),
    }
    let error = OnStartRequest::from_map(&map(vec![("key", text("x"))])).unwrap_err();
    match error {
        ProtocolError::OnKey(key, inner) => {
            assert_eq!(key, "key");
            assert!(matches!(*inner, ProtocolError::U32Expected(AnyValue::String(_))));
        }
        other => panic!("{other:?}"),
    }
    let m = map(vec![("text", text("x")), ("location", AnyValue::U32(1))]);
    assert!(matches!(Note::from_map(&m), Err(ProtocolError::NotAMap)));
    assert_eq!(OnStartRequest::from_map(&map(vec![("key", AnyValue::U32(6))])).unwrap().key, 6);
}

#[test]
fn messages_come_back() {
    let message = message();
    let back = Message::from_any_value(sent(&message)).unwrap();
    assert_eq!(format!("{back:?}"), format!("{message:?}"));
    assert_eq!(bytes_of(&back), bytes_of(&message));
    let partial = PartialMessage { text: "z".to_string(), detail: 8, ..Default::default() };
    let back = PartialMessage::from_any_value(sent(&partial)).unwrap();
    assert_eq!(format!("{back:?}"), format!("{partial:?}"));
    let rebuilt = RebuildResponse { errors: vec![message], warnings: vec![] };
    let back = RebuildResponse::from_any_value(sent(&rebuilt)).unwrap();
    assert_eq!(format!("{back:?}"), format!("{rebuilt:?}"));
    let start = OnStartRequest { key: 77 };
    assert_eq!(OnStartRequest::from_any_value(sent(&start)).unwrap().key, 77);
}

#[test]
fn a_null_detail_comes_back_absent() {
    let mut message = message();
    message.detail = Some(AnyValue::Null);
    let back = Message::from_any_value(sent(&message)).unwrap();
    assert!(back.detail.is_none());
}

#[test]
fn hook_requests_come_back() {
    let mut cache = IndexMap::new();
    cache.insert("a_".to_string(), MangleCacheEntry::StringValue("b".to_string()));
    cache.insert("c_".to_string(), MangleCacheEntry::BoolValue(false));
    let end = OnEndRequest {
        errors: vec![],
        warnings: vec![message()],
        output_files: Some(vec![BuildOutputFile {
            path: "o".to_string(),
            contents: vec![1, 2, 3],
            hash: "h".to_string(),
        }]),
        metafile: Some("{}".to_string()),
        mangle_cache: Some(cache),
        write_to_stdout: Some(vec![9]),
    };
    let back = OnEndRequest::from_any_value(sent(&end)).unwrap();
    assert_eq!(format!("{back:?}"), format!("{end:?}"));
    let mut with = IndexMap::new();
    with.insert("type".to_string(), "json".to_string());
    let load = OnLoadRequest {
        key: 1,
        ids: vec![2, 3],
        path: "p".to_string(),
        namespace: "n".to_string(),
        suffix: "".to_string(),
        plugin_data: None,
        with,
    };
    let back = OnLoadRequest::from_any_value(sent(&load)).unwrap();
    assert_eq!(format!("{back:?}"), format!("{load:?}"));
    assert_eq!(format!("{:?}", load.clone()), format!("{load:?}"));
}

#[test]
fn resolve_requests_are_converted() {
    let with = map(vec![("type", text("css"))]);
    let m = map(vec![
        ("key", AnyValue::U32(1)),
        ("ids", AnyValue::Vec(vec![AnyValue::U32(4)])),
        ("path", text("./x")),
        ("importer", text("")),
        ("namespace", text("file")),
        ("resolveDir", text("/src")),
        ("kind", text("url-token")),
        ("pluginData", AnyValue::Null),
        ("with", AnyValue::Mapping(with)),
    ]);
    let request = OnResolveRequest::from_map(&m).unwrap();
    assert_eq!(request.ids, vec![4]);
    assert_eq!(request.kind, ImportKind::UrlToken);
    assert_eq!(request.resolve_dir.as_deref(), Some("/src"));
    assert_eq!(request.plugin_data, None);
    assert_eq!(request.with["type"], "css");
    assert_eq!(format!("{:?}", request.clone()), format!("{request:?}"));
}

#[test]
fn build_responses_are_converted() {
    let m = map(vec![
        ("errors", AnyValue::Vec(vec![])),
        ("warnings", AnyValue::Vec(vec![sent(&message())])),
        ("metafile", AnyValue::Bytes(b"{}".to_vec())),
        ("writeToStdout", AnyValue::Bytes(b"out".to_vec())),
    ]);
    let response = BuildResponse::from_map(&m).unwrap();
    assert!(response.errors.is_empty());
    assert_eq!(response.warnings[0].location.as_ref().unwrap().column, 2);
    assert!(response.output_files.is_none());
    assert_eq!(response.metafile.as_deref(), Some("{}"));
    assert!(response.mangle_cache.is_none());
    assert_eq!(response.write_to_stdout.as_deref(), Some(&b"out"[..]));
}

#[test]
fn an_error_entry_makes_an_error() {
    let m = map(vec![("error", text("stopped")), ("errors", AnyValue::Null)]);
    match Result::<RebuildResponse, Message>::from_map(&m).unwrap() {
        Err(message) => {
            assert_eq!(message.text, "stopped");
            assert_eq!(message.id, "");
            assert!(message.detail.is_none());
        }
        Ok(_) => panic!("an error was sent"),
    }
    let m = map(vec![("error", sent(&message()))]);
    match Result::<RebuildResponse, Message>::from_map(&m).unwrap() {
        Err(message) => assert_eq!(message.plugin_name, "p"),
        Ok(_) => panic!("an error was sent"),
    }
    let m = map(vec![("errors", AnyValue::Vec(vec![])), ("warnings", AnyValue::Vec(vec![]))]);
    assert!(Result::<RebuildResponse, Message>::from_map(&m).unwrap().is_ok());
    assert!(matches!(
        MessageFromAnyValue::from_any_value(AnyValue::Null),
        Err(ProtocolError::NotAMap)
    ));
}

#[test]
fn absent_values_that_are_sent_as_null() {
    let absent = OptionNull::<Vec<u8>>::new(None);
    assert!(matches!(sent(&absent), AnyValue::Null));
    let present: OptionNull<Vec<u8>> = Some(vec![1]).into();
    assert!(matches!(sent(&present), AnyValue::Bytes(b) if b == vec![1]));
    let option: Option<Vec<u8>> = present.into();
    assert_eq!(option, Some(vec![1]));
    assert!(OptionNull::<u32>::default().as_option().is_none());
}

#[test]
fn errors_as_text() {
    let key = || "k".to_string();
    let texts = [
        (ProtocolError::InvalidTag(107), "Invalid value: 107"),
        (ProtocolError::UndecodableString("r".to_string()), "Failed to decode string: r"),
        (ProtocolError::InvalidUtf8("r".to_string()), "r"),
        (ProtocolError::StringExpected(AnyValue::Null), "expected string, got Null"),
        (ProtocolError::U32Expected(text("a\n")), "expected u32, got String(\"a\\n\")"),
        (ProtocolError::BoolExpected, "expected bool"),
        (ProtocolError::BytesExpected, "expected bytes"),
        (ProtocolError::VecExpected, "expected vec"),
        (ProtocolError::MapExpected, "expected map"),
        (ProtocolError::NotAString, "Expected string"),
        (ProtocolError::NotAMap, "Expected map"),
        (ProtocolError::InvalidImportKind(key()), "invalid import kind: k"),
        (
            ProtocolError::InvalidMangleCacheEntry(AnyValue::U32(120)),
            "invalid mangle cache entry: U32(120)",
        ),
        (ProtocolError::MissingField(key()), "Missing field: k"),
        (ProtocolError::OnKey(key(), Box::new(ProtocolError::NotAMap)), "on key: k"),
    ];
    for (error, text) in texts {
        assert_eq!(error.to_string(), text);
    }
}

#[test]
fn absent_values_are_printed_like_options() {
    assert_eq!(format!("{:?}", OptionNull::<u32>::new(None)), "None");
    assert_eq!(format!("{:?}", OptionNull::new(Some(4u32))), "Some(4)");
}
