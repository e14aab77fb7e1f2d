use esbuild_client::protocol::printed::print_value;
use esbuild_client::protocol::{
    decode_any_packet, encode_key, encode_length_delimited, encode_u32_raw, try_decode_any_packet,
    AnyPacket, AnyValue, Buf, Decode, Encode, ProtocolError, ValueMap,
};

fn encoded(value: &AnyValue) -> Vec<u8> {
    let mut bytes = Vec::new();
    value.encode_into(&mut bytes);
    bytes
}

fn sample() -> AnyValue {
    let mut inner = ValueMap::new();
    inner.insert("zeta".to_string(), AnyValue::Bool(false));
    inner.insert("alpha".to_string(), AnyValue::Bytes(vec![0, 255]));
    let mut outer = ValueMap::new();
    outer.insert("list".to_string(), AnyValue::Vec(vec![
        AnyValue::Null,
        AnyValue::U32(0x0403_0201),
        AnyValue::String("h\u{e9}\u{1f600}".to_string()),
        AnyValue::Mapping(inner),
    ]));
    outer.insert("yes".to_string(), AnyValue::Bool(true));
    AnyValue::Mapping(outer)
}

#[test]
fn cursor_reads_in_order() {
    let mut buf = Buf::new(&[7, 1, 2, 3, 4, 9, 8]);
    assert_eq!(buf.read_u8(), 7);
    assert_eq!(buf.read_u32(), 0x0403_0201);
    let mut two = [0u8; 2];
    buf.read_n(2, &mut two);
    assert_eq!(two, [9, 8]);
}

#[test]
fn values_are_encoded_as_documented() {
    assert_eq!(encoded(&AnyValue::Null), vec![0]);
    assert_eq!(encoded(&AnyValue::Bool(true)), vec![1, 1]);
    assert_eq!(encoded(&AnyValue::Bool(false)), vec![1, 0]);
    assert_eq!(encoded(&AnyValue::U32(0x0403_0201)), vec![2, 1, 2, 3, 4]);
    assert_eq!(encoded(&AnyValue::String("ab".to_string())), vec![3, 2, 0, 0, 0, 97, 98]);
    assert_eq!(encoded(&AnyValue::Bytes(vec![5])), vec![4, 1, 0, 0, 0, 5]);
    assert_eq!(encoded(&AnyValue::Vec(vec![AnyValue::Null])), vec![5, 1, 0, 0, 0, 0]);
    let mut map = ValueMap::new();
    map.insert("k".to_string(), AnyValue::Null);
    assert_eq!(
        encoded(&AnyValue::Mapping(map)),
        vec![6, 1, 0, 0, 0, 1, 0, 0, 0, 107, 0]
    );
}

#[test]
fn raw_parts_are_encoded() {
    let mut bytes = vec![9];
    encode_u32_raw(&mut bytes, 258);
    assert_eq!(bytes, vec![9, 2, 1, 0, 0]);
    let mut bytes = Vec::new();
    encode_key(&mut bytes, "\u{e9}");
    assert_eq!(bytes, vec![2, 0, 0, 0, 0xc3, 0xa9]);
    let mut bytes = Vec::new();
    encode_length_delimited(&mut bytes, &[1, 2]);
    assert_eq!(bytes, vec![2, 0, 0, 0, 1, 2]);
}

#[test]
fn encoded_value_is_decoded_to_the_same() {
    let value = sample();
    let bytes = encoded(&value);
    let decoded = AnyValue::decode_from(&mut Buf::new(&bytes)).unwrap();
    assert_eq!(format!("{decoded:?}"), format!("{value:?}"));
    assert_eq!(encoded(&decoded), bytes);
}

#[test]
fn bytes_after_a_packet_are_ignored() {
    let mut bytes = vec![4, 0, 0, 0, 2, 1, 0, 0, 0];
    let packet = decode_any_packet(&bytes).unwrap();
    assert_eq!(packet.id, 2);
    assert!(packet.is_request);
    assert!(matches!(packet.value, AnyValue::U32(1)));
    bytes.extend([6, 6, 6]);
    let again = decode_any_packet(&bytes).unwrap();
    assert_eq!(format!("{again:?}"), format!("{packet:?}"));
}

#[test]
fn odd_numbers_are_responses() {
    let packet = decode_any_packet(&[255, 255, 255, 255, 0]).unwrap();
    assert_eq!(packet.id, 0x7fff_ffff);
    assert!(!packet.is_request);
    assert!(matches!(packet.value, AnyValue::Null));
    let copy: AnyPacket = packet.clone();
    assert_eq!(copy.id, 0x7fff_ffff);
}

#[test]
fn only_one_is_true() {
    assert!(matches!(
        AnyValue::decode_from(&mut Buf::new(&[1, 2])).unwrap(),
        AnyValue::Bool(false)
    ));
    assert!(bool::decode_from(&mut Buf::new(&[1])).unwrap());
    assert!(!bool::decode_from(&mut Buf::new(&[0])).unwrap());
}

#[test]
fn lists_of_one_type_are_decoded() {
    let bytes = [2, 0, 0, 0, 1, 0, 0, 0, 2, 0, 0, 0];
    assert_eq!(Vec::<u32>::decode_from(&mut Buf::new(&bytes)).unwrap(), vec![1, 2]);
    assert_eq!(
        Vec::<u8>::decode_from(&mut Buf::new(&[2, 0, 0, 0, 8, 9])).unwrap(),
        vec![8, 9]
    );
    let bytes = [2, 0, 0, 0, 1, 0, 0, 0, 97, 0, 0, 0, 0];
    assert_eq!(Vec::<String>::decode_from(&mut Buf::new(&bytes)).unwrap(), vec!["a", ""]);
}

#[test]
fn a_key_that_comes_twice_keeps_its_place() {
    let bytes = [
        3, 0, 0, 0, 1, 0, 0, 0, 97, 2, 1, 0, 0, 0, 1, 0, 0, 0, 98, 0, 1, 0, 0, 0, 97, 2, 9, 0, 0,
        0,
    ];
    let map = ValueMap::decode_from(&mut Buf::new(&bytes)).unwrap();
    let entries = map.entries();
    assert_eq!(entries.len(), 2);
    assert_eq!(entries[0].0, "a");
    assert!(matches!(entries[0].1, AnyValue::U32(9)));
    assert_eq!(entries[1].0, "b");
    assert!(matches!(map.get("b"), Some(AnyValue::Null)));
    assert!(map.get("c").is_none());
}

#[test]
fn unknown_tag_is_an_error() {
    let error = decode_any_packet(&[0, 0, 0, 0, 7]).unwrap_err();
    assert!(matches!(error, ProtocolError::InvalidTag(7)));
}

#[test]
fn string_that_is_not_utf8_is_an_error() {
    let error = decode_any_packet(&[0, 0, 0, 0, 3, 1, 0, 0, 0, 0xff]).unwrap_err();
    assert_eq!(
        error.to_string(),
        "Failed to decode string: invalid utf-8 sequence of 1 bytes from index 0"
    );
    assert!(matches!(error, ProtocolError::UndecodableString(_)));
}

#[test]
fn bytes_that_end_too_early() {
    assert!(try_decode_any_packet(&[]).is_none());
    assert!(try_decode_any_packet(&[0, 0, 0]).is_none());
    assert!(try_decode_any_packet(&[0, 0, 0, 0]).is_none());
    assert!(try_decode_any_packet(&[0, 0, 0, 0, 3, 2, 0, 0, 0, 97]).is_none());
    assert!(try_decode_any_packet(&[0, 0, 0, 0, 5, 1, 0, 0, 0]).is_none());
    assert!(matches!(try_decode_any_packet(&[0, 0, 0, 0, 0]), Some(Ok(_))));
    assert!(matches!(try_decode_any_packet(&[0, 0, 0, 0, 9]), Some(Err(_))));
}

#[test]
fn values_can_be_cloned() {
    let value = sample();
    assert_eq!(encoded(&value.clone()), encoded(&value));
}

#[test]
fn maps_hand_out_their_entries() {
    let mut map = ValueMap::new();
    map.insert("b".to_string(), AnyValue::U32(1));
    map.insert("a".to_string(), AnyValue::U32(2));
    map.insert("b".to_string(), AnyValue::U32(3));
    let keys: Vec<String> = map.into_entries().into_iter().map(|e| e.0).collect();
    assert_eq!(keys, vec!["b", "a"]);
}

#[test]
fn values_are_printed() {
    assert_eq!(
        format!("{:?}", sample()),
        "Map({\"list\": Vec([Null, U32(67305985), String(\"h\u{e9}\u{1f600}\"), \
         Map({\"zeta\": Bool(false), \"alpha\": Bytes([0, 255])})]), \"yes\": Bool(true)})"
    );
    assert_eq!(print_value(&sample()), format!("{:?}", sample()));
    let mut odd = ValueMap::new();
    odd.insert("\"\t".to_string(), AnyValue::Vec(vec![]));
    odd.insert("".to_string(), AnyValue::Bytes(vec![]));
    odd.insert("m".to_string(), AnyValue::Mapping(ValueMap::new()));
    assert_eq!(
        format!("{odd:?}"),
        "{\"\\\"\\t\": Vec([]), \"\": Bytes([]), \"m\": Map({})}"
    );
    let odd = AnyValue::Mapping(odd);
    assert_eq!(print_value(&odd), format!("{odd:?}"));
    assert_eq!(
        format!("{:#?}", AnyValue::Vec(vec![AnyValue::Null])),
        "Vec(\n    [\n        Null,\n    ],\n)"
    );
}

#[test]
fn bytes_that_are_not_read_do_not_count() {
    let bytes = encoded(&sample());
    for more in [vec![], vec![0], vec![255; 9]] {
        let mut all = bytes.clone();
        all.extend(more);
        let decoded = AnyValue::decode_from(&mut Buf::new(&all)).unwrap();
        assert_eq!(encoded(&decoded), bytes);
    }
}
