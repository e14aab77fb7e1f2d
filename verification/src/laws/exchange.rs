//! What is sent and received over time: the requests, the replies, and the bytes they arrive in.
use crate::client::{can_handle, handle_packet, PacketAction, ProtocolClientInner};
use crate::laws::read;
use crate::protocol::encode;
use crate::protocol::error::ProtocolError;
use crate::protocol::messages::{
    AnyRequest, BuildRequest, ProtocolMessage, ProtocolPacket, RequestKind,
};
use crate::protocol::value;
use crate::protocol::value::Value;
use crate::protocol::wire;
use crate::protocol::wire::{AnyPacket, PacketModel};
use crate::stream;
use crate::stream::{handle_read, try_handle_read, ProtocolState, ReadEvent};
use std::collections::HashMap;
use vstd::prelude::*;

verus! {

/// A new client has sent nothing and starts with number 0.
pub proof fn law_new_client<B, U, R>(r: ProtocolClientInner<B, U, R>)
    requires
        call_ensures(ProtocolClientInner::<B, U, R>::new, (), r),
    ensures
        r.id == 0,
        forall|k: u32| !r.pending@.contains_key(k),
{
}

/// A client that sent a request waits for it under its number, and for the others as before; the
/// next request gets the next number.
pub open spec fn waits_for<B, U, R>(
    before: ProtocolClientInner<B, U, R>,
    after: ProtocolClientInner<B, U, R>,
    kind: RequestKind<B, U, R>,
) -> bool {
    &&& after.id == (before.id + 1) % 0x1_0000_0000
    &&& after.pending@.contains_key(before.id)
    &&& after.pending@[before.id] == kind
    &&& forall|k: u32|
        k != before.id ==> (#[trigger] after.pending@.contains_key(k)
            <==> before.pending@.contains_key(k))
    &&& forall|k: u32|
        k != before.id && before.pending@.contains_key(k) ==> #[trigger] after.pending@[k]
            == before.pending@[k]
}

/// A build request is sent as such, under the number of the client, and `tx` waits for the reply.
pub proof fn law_build_request<B, U, R>(
    client: &mut ProtocolClientInner<B, U, R>,
    req: BuildRequest,
    tx: B,
    packet: ProtocolPacket,
)
    requires
        call_ensures(
            ProtocolClientInner::<B, U, R>::send_build_request,
            (client, req, tx),
            packet,
        ),
    ensures
        packet.id == old(client).id,
        packet.is_request,
        packet.value matches ProtocolMessage::Request(AnyRequest::Build(x)) && *x == req,
        waits_for(*old(client), *final(client), RequestKind::Build(tx)),
{
}

/// A dispose request is sent as such, under the number of the client, and `tx` waits for the reply.
pub proof fn law_dispose_request<B, U, R>(
    client: &mut ProtocolClientInner<B, U, R>,
    key: u32,
    tx: U,
    packet: ProtocolPacket,
)
    requires
        call_ensures(
            ProtocolClientInner::<B, U, R>::send_dispose_request,
            (client, key, tx),
            packet,
        ),
    ensures
        packet.id == old(client).id,
        packet.is_request,
        packet.value matches ProtocolMessage::Request(AnyRequest::Dispose(x)) && x.key == key,
        waits_for(*old(client), *final(client), RequestKind::Dispose(tx)),
{
}

/// A rebuild request is sent as such, under the number of the client, and `tx` waits for the reply.
pub proof fn law_rebuild_request<B, U, R>(
    client: &mut ProtocolClientInner<B, U, R>,
    key: u32,
    tx: R,
    packet: ProtocolPacket,
)
    requires
        call_ensures(
            ProtocolClientInner::<B, U, R>::send_rebuild_request,
            (client, key, tx),
            packet,
        ),
    ensures
        packet.id == old(client).id,
        packet.is_request,
        packet.value matches ProtocolMessage::Request(AnyRequest::Rebuild(x)) && x.key == key,
        waits_for(*old(client), *final(client), RequestKind::Rebuild(tx)),
{
}

/// There is something to do for a packet that holds a map, where it is a request that names a hook
/// or the reply to a request that is waited for.
pub proof fn law_can_handle<B, U, R>(
    packet: AnyPacket,
    pending: HashMap<u32, RequestKind<B, U, R>>,
    r: bool,
)
    requires
        call_ensures(can_handle::<B, U, R>, (&packet, &pending), r),
    ensures
        r <==> match packet.value@ {
            Value::Dict(m) => if packet.is_request {
                ||| value::lookup(m, "command"@) == Some(Value::Text("on-start"@))
                ||| value::lookup(m, "command"@) == Some(Value::Text("on-resolve"@))
                ||| value::lookup(m, "command"@) == Some(Value::Text("on-load"@))
                ||| value::lookup(m, "command"@) == Some(Value::Text("on-end"@))
            } else {
                pending@.contains_key(packet.id)
            },
            _ => false,
        },
{
}

/// A packet for which there is something to do can be handled.
pub proof fn law_what_can_be_handled_is<B, U, R>(
    packet: AnyPacket,
    pending: &mut HashMap<u32, RequestKind<B, U, R>>,
)
    requires
        call_ensures(can_handle::<B, U, R>, (&packet, &*old(pending)), true),
    ensures
        call_requires(handle_packet::<B, U, R>, (packet, pending)),
{
}

/// A packet that can be sent can be written, and bytes that do not end too early can be decoded.
pub proof fn law_what_can_be_sent_is(
    packet: ProtocolPacket,
    buf: &mut Vec<u8>,
    bytes: &[u8],
    r: Result<AnyPacket, ProtocolError>,
)
    requires
        call_ensures(ProtocolPacket::can_encode, (&packet,), true),
        call_ensures(wire::try_decode_any_packet, (bytes,), Some(r)),
    ensures
        call_requires(ProtocolPacket::encode_into, (&packet, buf)),
        call_requires(wire::decode_any_packet, (bytes,)),
{
}

/// As many bytes as there is room for can be read, and without trouble where no frame is cut
/// short.
pub proof fn law_what_can_be_read_is(
    amount: usize,
    state: &mut ProtocolState,
    again: &mut ProtocolState,
    r: (Vec<ReadEvent>, bool),
)
    requires
        old(state).offset <= old(state).read_into_offset < old(state).buffer@.len(),
        old(state).read_into_offset + amount <= old(state).buffer@.len(),
    ensures
        call_requires(try_handle_read, (amount, state)),
        call_ensures(try_handle_read, (amount, state), r) && !r.1 && *old(again) == *old(state)
            ==> call_requires(handle_read, (amount, again)),
{
}

proof fn lemma_commands_differ()
    ensures
        "on-start"@ != "on-resolve"@,
        "on-start"@ != "on-load"@,
        "on-start"@ != "on-end"@,
        "on-resolve"@ != "on-load"@,
        "on-resolve"@ != "on-end"@,
        "on-load"@ != "on-end"@,
{
    reveal_strlit("on-start");
    reveal_strlit("on-resolve");
    reveal_strlit("on-load");
    reveal_strlit("on-end");
    assert("on-start"@.len() == 8);
    assert("on-resolve"@.len() == 10);
    assert("on-load"@.len() == 7);
    assert("on-end"@.len() == 6);
}

/// A request with the command `on-start` calls the start hook with what the map holds, under the
/// number of the request, and concerns no one who waits.
pub proof fn law_start_hook_called<B, U, R>(
    packet: AnyPacket,
    m: Seq<(Seq<char>, Value)>,
    pending: &mut HashMap<u32, RequestKind<B, U, R>>,
    r: Result<PacketAction<B, U, R>, ProtocolError>,
)
    requires
        call_ensures(handle_packet::<B, U, R>, (packet, pending), r),
        packet.is_request,
        packet.value@ == Value::Dict(m),
        value::lookup(m, "command"@) == Some(Value::Text("on-start"@)),
    ensures
        final(pending)@ == old(pending)@,
        r is Ok <==> read::on_start_request_readable(Value::Dict(m)),
        r matches Ok(action) ==> (action matches PacketAction::OnStart(id, x) && id == packet.id
            && read::on_start_request_read(Value::Dict(m), x)),
{
    lemma_commands_differ();
    read::lemma_on_start_request_read(
        Value::Dict(m),
        match r {
            Ok(PacketAction::OnStart(_, x)) => x,
            _ => arbitrary(),
        },
    );
}

/// A request with the command `on-resolve` calls the resolve hook with what the map holds, under
/// the number of the request, and concerns no one who waits.
pub proof fn law_resolve_hook_called<B, U, R>(
    packet: AnyPacket,
    m: Seq<(Seq<char>, Value)>,
    pending: &mut HashMap<u32, RequestKind<B, U, R>>,
    r: Result<PacketAction<B, U, R>, ProtocolError>,
)
    requires
        call_ensures(handle_packet::<B, U, R>, (packet, pending), r),
        packet.is_request,
        packet.value@ == Value::Dict(m),
        value::lookup(m, "command"@) == Some(Value::Text("on-resolve"@)),
    ensures
        final(pending)@ == old(pending)@,
        r is Ok <==> read::on_resolve_request_readable(Value::Dict(m)),
        r matches Ok(action) ==> (action matches PacketAction::OnResolve(id, x) && id == packet.id
            && read::on_resolve_request_read(Value::Dict(m), x)),
{
    lemma_commands_differ();
    read::lemma_on_resolve_request_read(
        Value::Dict(m),
        match r {
            Ok(PacketAction::OnResolve(_, x)) => x,
            _ => arbitrary(),
        },
    );
}

/// A request with the command `on-load` calls the load hook with what the map holds, under the
/// number of the request, and concerns no one who waits.
pub proof fn law_load_hook_called<B, U, R>(
    packet: AnyPacket,
    m: Seq<(Seq<char>, Value)>,
    pending: &mut HashMap<u32, RequestKind<B, U, R>>,
    r: Result<PacketAction<B, U, R>, ProtocolError>,
)
    requires
        call_ensures(handle_packet::<B, U, R>, (packet, pending), r),
        packet.is_request,
        packet.value@ == Value::Dict(m),
        value::lookup(m, "command"@) == Some(Value::Text("on-load"@)),
    ensures
        final(pending)@ == old(pending)@,
        r is Ok <==> read::on_load_request_readable(Value::Dict(m)),
        r matches Ok(action) ==> (action matches PacketAction::OnLoad(id, x) && id == packet.id
            && read::on_load_request_read(Value::Dict(m), x)),
{
    lemma_commands_differ();
    read::lemma_on_load_request_read(
        Value::Dict(m),
        match r {
            Ok(PacketAction::OnLoad(_, x)) => x,
            _ => arbitrary(),
        },
    );
}

/// A request with the command `on-end` calls the end hook with what the map holds, under the number
/// of the request, and concerns no one who waits.
pub proof fn law_end_hook_called<B, U, R>(
    packet: AnyPacket,
    m: Seq<(Seq<char>, Value)>,
    pending: &mut HashMap<u32, RequestKind<B, U, R>>,
    r: Result<PacketAction<B, U, R>, ProtocolError>,
)
    requires
        call_ensures(handle_packet::<B, U, R>, (packet, pending), r),
        packet.is_request,
        packet.value@ == Value::Dict(m),
        value::lookup(m, "command"@) == Some(Value::Text("on-end"@)),
    ensures
        final(pending)@ == old(pending)@,
        r is Ok <==> read::on_end_request_readable(Value::Dict(m)),
        r matches Ok(action) ==> (action matches PacketAction::OnEnd(id, x) && id == packet.id
            && read::on_end_request_read(Value::Dict(m), x)),
{
    lemma_commands_differ();
    read::lemma_on_end_request_read(
        Value::Dict(m),
        match r {
            Ok(PacketAction::OnEnd(_, x)) => x,
            _ => arbitrary(),
        },
    );
}

/// Nobody waits under `id` any more, and whoever waits under another number still does.
pub open spec fn answered<K>(before: Map<u32, K>, after: Map<u32, K>, id: u32) -> bool {
    &&& !after.contains_key(id)
    &&& forall|k: u32|
        k != id ==> (#[trigger] after.contains_key(k) <==> before.contains_key(k))
    &&& forall|k: u32|
        k != id && before.contains_key(k) ==> #[trigger] after[k] == before[k]
}

/// The reply to a build request goes to the one who waits for it: as an error where it holds an
/// entry `error`, and else as the outcome. Nobody waits for it any more, and the others still do.
pub proof fn law_build_reply<B, U, R>(
    packet: AnyPacket,
    m: Seq<(Seq<char>, Value)>,
    pending: &mut HashMap<u32, RequestKind<B, U, R>>,
    tx: B,
    r: Result<PacketAction<B, U, R>, ProtocolError>,
)
    requires
        call_ensures(handle_packet::<B, U, R>, (packet, pending), r),
        !packet.is_request,
        packet.value@ == Value::Dict(m),
        old(pending)@.contains_key(packet.id),
        old(pending)@[packet.id] == RequestKind::<B, U, R>::Build(tx),
    ensures
        answered(old(pending)@, final(pending)@, packet.id),
        match value::lookup(m, "error"@) {
            Some(f) => {
                &&& r is Ok <==> f is Text || read::message_readable(f)
                &&& r matches Ok(action) ==> (action matches PacketAction::Built(to, Err(x)) && to
                    == tx && read::error_read(f, x))
            },
            None => {
                &&& r is Ok <==> read::build_response_readable(Value::Dict(m))
                &&& r matches Ok(action) ==> (action matches PacketAction::Built(to, Ok(x)) && to
                    == tx && read::build_response_read(Value::Dict(m), x))
            },
        },
{
    if let Some(f) = value::lookup(m, "error"@) {
        read::lemma_message_read(
            f,
            match r {
                Ok(PacketAction::Built(_, Err(x))) => x,
                _ => arbitrary(),
            },
        );
    }
    read::lemma_build_response_read(
        Value::Dict(m),
        match r {
            Ok(PacketAction::Built(_, Ok(x))) => x,
            _ => arbitrary(),
        },
    );
}

/// The reply to a rebuild request goes to the one who waits for it: as an error where it holds an
/// entry `error`, and else as the outcome. Nobody waits for it any more, and the others still do.
pub proof fn law_rebuild_reply<B, U, R>(
    packet: AnyPacket,
    m: Seq<(Seq<char>, Value)>,
    pending: &mut HashMap<u32, RequestKind<B, U, R>>,
    tx: R,
    r: Result<PacketAction<B, U, R>, ProtocolError>,
)
    requires
        call_ensures(handle_packet::<B, U, R>, (packet, pending), r),
        !packet.is_request,
        packet.value@ == Value::Dict(m),
        old(pending)@.contains_key(packet.id),
        old(pending)@[packet.id] == RequestKind::<B, U, R>::Rebuild(tx),
    ensures
        answered(old(pending)@, final(pending)@, packet.id),
        match value::lookup(m, "error"@) {
            Some(f) => {
                &&& r is Ok <==> f is Text || read::message_readable(f)
                &&& r matches Ok(action) ==> (action matches PacketAction::Rebuilt(to, Err(x)) && to
                    == tx && read::error_read(f, x))
            },
            None => {
                &&& r is Ok <==> read::rebuild_response_readable(Value::Dict(m))
                &&& r matches Ok(action) ==> (action matches PacketAction::Rebuilt(to, Ok(x)) && to
                    == tx && read::rebuild_response_read(Value::Dict(m), x))
            },
        },
{
    if let Some(f) = value::lookup(m, "error"@) {
        read::lemma_message_read(
            f,
            match r {
                Ok(PacketAction::Rebuilt(_, Err(x))) => x,
                _ => arbitrary(),
            },
        );
    }
    read::lemma_rebuild_response_read(
        Value::Dict(m),
        match r {
            Ok(PacketAction::Rebuilt(_, Ok(x))) => x,
            _ => arbitrary(),
        },
    );
}

/// The reply to a dispose request tells the one who waits that it was carried out.
pub proof fn law_dispose_reply<B, U, R>(
    packet: AnyPacket,
    pending: &mut HashMap<u32, RequestKind<B, U, R>>,
    tx: U,
    r: Result<PacketAction<B, U, R>, ProtocolError>,
)
    requires
        call_ensures(handle_packet::<B, U, R>, (packet, pending), r),
        !packet.is_request,
        packet.value@ is Dict,
        old(pending)@.contains_key(packet.id),
        old(pending)@[packet.id] == RequestKind::<B, U, R>::Dispose(tx),
    ensures
        answered(old(pending)@, final(pending)@, packet.id),
        r matches Ok(action) && action matches PacketAction::Acknowledged(to) && to == tx,
{
}

/// The reply to a cancel request tells the one who waits that it was carried out.
pub proof fn law_cancel_reply<B, U, R>(
    packet: AnyPacket,
    pending: &mut HashMap<u32, RequestKind<B, U, R>>,
    tx: U,
    r: Result<PacketAction<B, U, R>, ProtocolError>,
)
    requires
        call_ensures(handle_packet::<B, U, R>, (packet, pending), r),
        !packet.is_request,
        packet.value@ is Dict,
        old(pending)@.contains_key(packet.id),
        old(pending)@[packet.id] == RequestKind::<B, U, R>::Cancel(tx),
    ensures
        answered(old(pending)@, final(pending)@, packet.id),
        r matches Ok(action) && action matches PacketAction::Acknowledged(to) && to == tx,
{
}

/// At first nothing arrived, and there is room for 1024 bytes.
pub proof fn law_new_state(r: ProtocolState)
    requires
        call_ensures(ProtocolState::new, (), r),
    ensures
        r.buffer@.len() == 1024,
        r.read_into_offset == 0,
        r.offset == 0,
        r.first_packet,
{
}

/// A read keeps the bytes that arrived where they are, counts the new ones, and leaves room for
/// more.
pub proof fn law_read_keeps_bytes(amount: usize, state: &mut ProtocolState, r: Vec<ReadEvent>)
    requires
        call_ensures(handle_read, (amount, state), r),
    ensures
        final(state).read_into_offset == old(state).read_into_offset + amount,
        final(state).read_into_offset < final(state).buffer@.len(),
        old(state).buffer@.len() <= final(state).buffer@.len(),
        forall|i: int|
            0 <= i < old(state).buffer@.len() ==> #[trigger] final(state).buffer@[i] == old(
                state,
            ).buffer@[i],
        old(state).offset <= final(state).offset <= final(state).read_into_offset,
{
    stream::lemma_consumed(old(state).input(amount));
}

/// The bytes that are not consumed once `amount` more have arrived.
pub open spec fn arrived(state: ProtocolState, amount: usize) -> Seq<u8> {
    state.buffer@.subrange(state.offset as int, state.read_into_offset + amount)
}

/// Once the other side is ready, the packets that it wrote are the packets that are read: each of
/// them, in order, and nothing else; and every byte of them is consumed.
pub proof fn law_packets_read(
    amount: usize,
    state: &mut ProtocolState,
    packets: Seq<PacketModel>,
    r: Vec<ReadEvent>,
)
    requires
        call_ensures(handle_read, (amount, state), r),
        old(state).offset <= old(state).read_into_offset,
        old(state).read_into_offset + amount <= old(state).buffer@.len(),
        !old(state).first_packet,
        arrived(*old(state), amount) == stream::written(packets),
        forall|i: int| 0 <= i < packets.len() ==> stream::deliverable(#[trigger] packets[i]),
    ensures
        r@.len() == packets.len(),
        forall|i: int|
            0 <= i < packets.len() ==> (#[trigger] r@[i] matches ReadEvent::Packet(p) && p.id
                == packets[i].id && p.is_request == packets[i].is_request && p.value@
                == packets[i].value),
        final(state).offset == final(state).read_into_offset,
        !final(state).first_packet,
{
    stream::lemma_written_packets_arrive(packets);
    let input = arrived(*old(state), amount);
    stream::lemma_consumed(input);
    assert(stream::leftover(input).len() == 0);
    assert(stream::event_models(r@).len() == r@.len());
    assert forall|i: int| 0 <= i < packets.len() implies (#[trigger] r@[i]
        matches ReadEvent::Packet(p) && p.id == packets[i].id && p.is_request
        == packets[i].is_request && p.value@ == packets[i].value) by {
        assert(stream::event_models(r@)[i] == stream::Event::Packet(packets[i]));
    }
}

/// The very first frame, whatever it holds, only says that the other side is ready.
pub proof fn law_first_frame_is_ready(
    amount: usize,
    state: &mut ProtocolState,
    message: Seq<u8>,
    r: Vec<ReadEvent>,
)
    requires
        call_ensures(handle_read, (amount, state), r),
        old(state).offset <= old(state).read_into_offset,
        old(state).read_into_offset + amount <= old(state).buffer@.len(),
        old(state).first_packet,
        message.len() <= u32::MAX,
        arrived(*old(state), amount) == encode::delimited(message),
    ensures
        r@.len() == 1,
        r@[0] is Ready,
        final(state).offset == final(state).read_into_offset,
        !final(state).first_packet,
{
    let input = arrived(*old(state), amount);
    stream::lemma_written_frame(message, Seq::empty());
    assert(encode::delimited(message) + Seq::<u8>::empty() =~= encode::delimited(message));
    stream::lemma_consumed(input);
    stream::lemma_consumed(Seq::empty());
    assert(stream::leftover(input).len() == 0);
    assert(stream::messages(Seq::<u8>::empty()).len() == 0);
    assert(stream::event_models(r@).len() == r@.len());
    assert(stream::event_models(r@)[0] == stream::Event::Ready);
}

/// A frame that is not whole is left where it is until the rest arrives.
pub proof fn law_part_of_a_frame_waits(
    amount: usize,
    state: &mut ProtocolState,
    r: Vec<ReadEvent>,
)
    requires
        call_ensures(handle_read, (amount, state), r),
        old(state).offset <= old(state).read_into_offset,
        old(state).read_into_offset + amount <= old(state).buffer@.len(),
        arrived(*old(state), amount).len() < 4 || {
            let b = arrived(*old(state), amount);
            b.len() < 4 + b[0] + 0x100 * b[1] + 0x1_0000 * b[2] + 0x100_0000 * b[3]
        },
    ensures
        r@.len() == 0,
        final(state).offset == old(state).offset,
        final(state).first_packet == old(state).first_packet,
{
    assert(stream::event_models(r@).len() == r@.len());
}

/// It makes no difference where one read ends and the next begins: two reads give together what
/// one read of the same bytes gives, and leave the same.
pub proof fn law_reads_can_be_split(
    a: usize,
    b: usize,
    one: &mut ProtocolState,
    two: &mut ProtocolState,
    whole: &mut ProtocolState,
    first: Vec<ReadEvent>,
    second: Vec<ReadEvent>,
    all: Vec<ReadEvent>,
)
    requires
        call_ensures(handle_read, (a, one), first),
        call_ensures(handle_read, (b, two), second),
        call_ensures(handle_read, ((a + b) as usize, whole), all),
        a + b <= usize::MAX,
        old(one).offset <= old(one).read_into_offset,
        old(one).read_into_offset + a <= old(one).buffer@.len(),
        old(whole).offset <= old(whole).read_into_offset,
        old(whole).read_into_offset + a + b <= old(whole).buffer@.len(),
        old(two).offset == final(one).offset,
        old(two).read_into_offset == final(one).read_into_offset,
        old(two).first_packet == final(one).first_packet,
        old(two).read_into_offset + b <= old(two).buffer@.len(),
        old(whole).first_packet == old(one).first_packet,
        arrived(*old(two), 0) == final(one).unread(),
        arrived(*old(whole), (a + b) as usize) == arrived(*old(one), a) + old(two).buffer@.subrange(
            old(two).read_into_offset as int,
            old(two).read_into_offset + b,
        ),
    ensures
        all@.len() == first@.len() + second@.len(),
        forall|i: int| 0 <= i < first@.len() ==> (#[trigger] all@[i])@ == first@[i]@,
        forall|i: int|
            0 <= i < second@.len() ==> all@[first@.len() + i]@ == (#[trigger] second@[i])@,
        final(whole).unread() == final(two).unread(),
        final(whole).first_packet == final(two).first_packet,
{
    let x = arrived(*old(one), a);
    let y = old(two).buffer@.subrange(
        old(two).read_into_offset as int,
        old(two).read_into_offset + b,
    );
    let ready = old(one).first_packet;
    stream::lemma_reads_can_be_split(x, y, ready);
    stream::lemma_consumed(x);
    assert(old(two).input(b) =~= stream::leftover(x) + y);
    assert(stream::event_models(all@) == stream::event_models(first@) + stream::event_models(
        second@,
    ));
    assert(stream::event_models(all@).len() == all@.len());
    assert(stream::event_models(first@).len() == first@.len());
    assert(stream::event_models(second@).len() == second@.len());
    assert forall|i: int| 0 <= i < first@.len() implies (#[trigger] all@[i])@ == first@[i]@ by {
        assert(stream::event_models(all@)[i] == stream::event_models(first@)[i]);
    }
    assert forall|i: int| 0 <= i < second@.len() implies all@[first@.len() + i]@ == (
    #[trigger] second@[i])@ by {
        assert(stream::event_models(all@)[first@.len() + i] == stream::event_models(second@)[i]);
    }
}

/// Frames are read one after the other: behind the first frame the rest is read as if it had come
/// alone. The frame is the packet that its bytes are decoded to, or it is reported as none.
pub proof fn law_frames_one_by_one(
    amount: usize,
    whole: &mut ProtocolState,
    other: usize,
    rest: &mut ProtocolState,
    message: &[u8],
    decoded: Option<Result<AnyPacket, ProtocolError>>,
    all: Vec<ReadEvent>,
    later: Vec<ReadEvent>,
)
    requires
        call_ensures(handle_read, (amount, whole), all),
        call_ensures(handle_read, (other, rest), later),
        call_ensures(wire::try_decode_any_packet, (message,), decoded),
        decoded is Some,
        old(whole).offset <= old(whole).read_into_offset,
        old(whole).read_into_offset + amount <= old(whole).buffer@.len(),
        old(rest).offset <= old(rest).read_into_offset,
        old(rest).read_into_offset + other <= old(rest).buffer@.len(),
        !old(whole).first_packet,
        !old(rest).first_packet,
        message@.len() <= u32::MAX,
        arrived(*old(whole), amount) == encode::delimited(message@) + arrived(*old(rest), other),
    ensures
        all@.len() == later@.len() + 1,
        match decoded {
            Some(Ok(p)) => all@[0] matches ReadEvent::Packet(q) && q.id == p.id && q.is_request
                == p.is_request && q.value@ == p.value@,
            Some(Err(e)) => all@[0] matches ReadEvent::Undecodable(f) && f@ == e@,
            None => false,
        },
        forall|i: int| 0 <= i < later@.len() ==> all@[i + 1]@ == (#[trigger] later@[i])@,
        final(whole).unread() == final(rest).unread(),
{
    let x = arrived(*old(whole), amount);
    let y = arrived(*old(rest), other);
    stream::lemma_written_frame(message@, y);
    assert(stream::event_models(all@).len() == all@.len());
    assert(stream::event_models(later@).len() == later@.len());
    assert(stream::messages(x).len() == stream::messages(y).len() + 1);
    assert(stream::event_models(all@)[0] == stream::event(message@, false));
    assert forall|i: int| 0 <= i < later@.len() implies all@[i + 1]@ == (
    #[trigger] later@[i])@ by {
        assert(stream::messages(x)[i + 1] == stream::messages(y)[i]);
        assert(stream::event_models(all@)[i + 1] == stream::event_models(later@)[i]);
    }
}

/// A frame whose content ends before the packet does is reported and left unread.
pub proof fn law_cut_frame_reported(
    amount: usize,
    state: &mut ProtocolState,
    message: &[u8],
    decoded: Option<Result<AnyPacket, ProtocolError>>,
    more: Seq<u8>,
    r: (Vec<ReadEvent>, bool),
)
    requires
        call_ensures(try_handle_read, (amount, state), r),
        call_ensures(wire::try_decode_any_packet, (message,), decoded),
        decoded is None,
        old(state).offset <= old(state).read_into_offset,
        old(state).read_into_offset + amount <= old(state).buffer@.len(),
        !old(state).first_packet,
        message@.len() <= u32::MAX,
        arrived(*old(state), amount) == encode::delimited(message@) + more,
    ensures
        r.1,
        r.0@.len() == 0,
{
    stream::lemma_written_frame(message@, more);
    let all = stream::messages(arrived(*old(state), amount));
    assert(all[0] == message@);
    assert(stream::truncated(all[0], false));
}

/// Where no frame is cut short, both ways to read give the same.
pub proof fn law_reads_agree(
    amount: usize,
    one: &mut ProtocolState,
    two: &mut ProtocolState,
    r: Vec<ReadEvent>,
    s: (Vec<ReadEvent>, bool),
)
    requires
        call_ensures(handle_read, (amount, one), r),
        call_ensures(try_handle_read, (amount, two), s),
        *old(one) == *old(two),
        !s.1,
    ensures
        r@.len() == s.0@.len(),
        forall|i: int| 0 <= i < r@.len() ==> (#[trigger] r@[i])@ == s.0@[i]@,
        final(one).offset == final(two).offset,
        final(one).read_into_offset == final(two).read_into_offset,
        final(one).first_packet == final(two).first_packet,
        final(one).buffer@ == final(two).buffer@,
{
    assert(stream::event_models(r@).len() == r@.len());
    assert(stream::event_models(s.0@).len() == s.0@.len());
    assert forall|i: int| 0 <= i < r@.len() implies (#[trigger] r@[i])@ == s.0@[i]@ by {
        assert(stream::event_models(r@)[i] == stream::event_models(s.0@)[i]);
    }
}

} // verus!
