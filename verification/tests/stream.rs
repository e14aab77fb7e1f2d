use esbuild_client::protocol::{
    AnyRequest, AnyResponse, CancelRequest, PingResponse, ProtocolMessage, ProtocolPacket,
    RebuildRequest,
};
use esbuild_client::stream::{handle_read, try_handle_read, ProtocolState, ReadEvent};

fn feed(state: &mut ProtocolState, bytes: &[u8]) -> Vec<String> {
    let at = state.read_into_offset;
    state.buffer[at..at + bytes.len()].copy_from_slice(bytes);
    handle_read(bytes.len(), state).iter().map(|e| format!("{e:?}")).collect()
}

fn conversation() -> Vec<u8> {
    let mut bytes = vec![6, 0, 0, 0];
    bytes.extend(b"0.25.5");
    let packets = [
        ProtocolPacket {
            id: 3,
            is_request: true,
            value: ProtocolMessage::Request(AnyRequest::Rebuild(RebuildRequest { key: 8 })),
        },
        ProtocolPacket {
            id: 4,
            is_request: false,
            value: ProtocolMessage::Response(AnyResponse::Ping(PingResponse {})),
        },
        ProtocolPacket {
            id: 5,
            is_request: true,
            value: ProtocolMessage::Request(AnyRequest::Cancel(CancelRequest { key: 1 })),
        },
    ];
    for packet in &packets {
        assert!(packet.can_encode());
        packet.encode_into(&mut bytes);
    }
    bytes
}

#[test]
fn new_state_has_room() {
    let state = ProtocolState::new();
    assert_eq!(state.buffer, vec![0u8; 1024]);
    assert_eq!((state.read_into_offset, state.offset, state.first_packet), (0, 0, true));
}

#[test]
fn written_packets_arrive() {
    let mut state = ProtocolState::new();
    let bytes = conversation();
    let events = feed(&mut state, &bytes);
    assert_eq!(events.len(), 4);
    assert_eq!(events[0], "Ready");
    assert!(events[1].contains("id: 3, is_request: true"));
    assert!(events[1].contains("\"command\": String(\"rebuild\"), \"key\": U32(8)"));
    assert!(events[2].contains("id: 4, is_request: false"));
    assert!(events[3].contains("String(\"cancel\")"));
    assert!(!state.first_packet);
    assert_eq!(state.offset, bytes.len());
    assert_eq!(state.read_into_offset, bytes.len());
}

#[test]
fn reads_can_be_split_anywhere() {
    let bytes = conversation();
    let whole = feed(&mut ProtocolState::new(), &bytes);
    for cut in 0..=bytes.len() {
        let mut state = ProtocolState::new();
        let mut events = feed(&mut state, &bytes[..cut]);
        events.extend(feed(&mut state, &bytes[cut..]));
        assert_eq!(events, whole);
    }
    let mut state = ProtocolState::new();
    let mut events = Vec::new();
    for byte in &bytes {
        events.extend(feed(&mut state, &[*byte]));
    }
    assert_eq!(events, whole);
}

#[test]
fn a_full_buffer_grows() {
    let mut state = ProtocolState::new();
    let mut bytes = vec![0xfc, 3, 0, 0];
    bytes.resize(1024, 1);
    assert_eq!(feed(&mut state, &bytes), vec!["Ready"]);
    assert_eq!(state.buffer.len(), 2048);
    assert_eq!(state.buffer[..1024], bytes[..]);
    assert!(state.buffer[1024..].iter().all(|b| *b == 0));
}

#[test]
fn a_frame_that_is_no_packet_is_reported() {
    let mut state = ProtocolState::new();
    let events = feed(
        &mut state,
        &[0, 0, 0, 0, 5, 0, 0, 0, 0, 0, 0, 0, 9, 5, 0, 0, 0, 1, 0, 0, 0, 0],
    );
    assert_eq!(events.len(), 3);
    assert_eq!(events[0], "Ready");
    assert_eq!(events[1], "Undecodable(InvalidTag(9))");
    assert!(events[2].contains("id: 0, is_request: false, value: Null"));
}

#[test]
fn a_frame_that_is_cut_short_stops_the_reading() {
    let mut state = ProtocolState::new();
    let bytes = [0, 0, 0, 0, 5, 0, 0, 0, 2, 0, 0, 0, 0, 1, 0, 0, 0, 0];
    state.buffer[..bytes.len()].copy_from_slice(&bytes);
    let (events, cut_short) = try_handle_read(bytes.len(), &mut state);
    assert!(cut_short);
    assert_eq!(events.len(), 2);
    assert!(matches!(events[0], ReadEvent::Ready));
    assert!(matches!(&events[1], ReadEvent::Packet(p) if p.id == 1));
    let mut state = ProtocolState::new();
    let (events, cut_short) = try_handle_read(0, &mut state);
    assert!(!cut_short && events.is_empty());
}

#[test]
fn no_whole_frame_is_left() {
    let bytes = conversation();
    for cut in 0..=bytes.len() {
        let mut state = ProtocolState::new();
        feed(&mut state, &bytes[..cut]);
        let offset = state.offset;
        assert!(feed(&mut state, &[]).is_empty());
        assert_eq!(state.offset, offset);
    }
}
