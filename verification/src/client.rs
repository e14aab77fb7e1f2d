//! The requests that were sent and not answered yet, and what a packet that arrives asks for.
//!
//! Those who wait for a response are given as values of any type: `B` for a build, `R` for a
//! repeated build, `U` for a request whose response holds nothing.
use crate::protocol::convert::FromMap;
use crate::protocol::error::{Fault, ProtocolError};
use crate::protocol::messages::{
    AnyRequest, BuildRequest, BuildResponse, DisposeRequest, Message, OnEndRequest,
    OnLoadRequest, OnResolveRequest, OnStartRequest, ProtocolMessage, ProtocolPacket,
    RebuildRequest, RebuildResponse, RequestKind,
};
use crate::protocol::value;
use crate::protocol::value::{AnyValue, Value};
use crate::protocol::wire::{AnyPacket, PacketModel};
use crate::text;
use std::collections::HashMap;
use vstd::prelude::*;

verus! {

broadcast use vstd::std_specs::hash::group_hash_axioms;

/// The number after `id`; after the last one they start again.
pub open spec fn next_id(id: u32) -> u32 {
    if id == u32::MAX {
        0
    } else {
        (id + 1) as u32
    }
}

/// The requests of a client.
pub struct ProtocolClientInner<B, U, R> {
    /// The number of the next request.
    pub id: u32,
    /// Who waits for a response, by the number of the request.
    pub pending: HashMap<u32, RequestKind<B, U, R>>,
}

impl<B, U, R> ProtocolClientInner<B, U, R> {
    /// Nothing was sent yet.
    pub fn new() -> (r: Self)
        ensures
            r.id == 0,
            r.pending@ == Map::<u32, RequestKind<B, U, R>>::empty(),
    {
        ProtocolClientInner { id: 0, pending: HashMap::new() }
    }

    /// Numbers a request and records who waits for the response.
    fn send(&mut self, request: AnyRequest, kind: RequestKind<B, U, R>) -> (packet: ProtocolPacket)
        ensures
            packet == (ProtocolPacket {
                id: old(self).id,
                is_request: true,
                value: ProtocolMessage::Request(request),
            }),
            final(self).id == next_id(old(self).id),
            final(self).pending@ == old(self).pending@.insert(old(self).id, kind),
    {
        let id: u32 = self.id;
        self.id = id.wrapping_add(1);
        self.pending.insert(id, kind);
        ProtocolPacket { id, is_request: true, value: ProtocolMessage::Request(request) }
    }

    /// The packet that asks for a build, whose response `tx` waits for.
    pub fn send_build_request(&mut self, req: BuildRequest, tx: B) -> (packet: ProtocolPacket)
        ensures
            packet == (ProtocolPacket {
                id: old(self).id,
                is_request: true,
                value: ProtocolMessage::Request(AnyRequest::Build(Box::new(req))),
            }),
            final(self).id == next_id(old(self).id),
            final(self).pending@ == old(self).pending@.insert(
                old(self).id,
                RequestKind::Build(tx),
            ),
    {
        self.send(AnyRequest::Build(Box::new(req)), RequestKind::Build(tx))
    }

    /// The packet that gives up a build context, whose response `tx` waits for.
    pub fn send_dispose_request(&mut self, key: u32, tx: U) -> (packet: ProtocolPacket)
        ensures
            packet == (ProtocolPacket {
                id: old(self).id,
                is_request: true,
                value: ProtocolMessage::Request(AnyRequest::Dispose(DisposeRequest { key })),
            }),
            final(self).id == next_id(old(self).id),
            final(self).pending@ == old(self).pending@.insert(
                old(self).id,
                RequestKind::Dispose(tx),
            ),
    {
        self.send(AnyRequest::Dispose(DisposeRequest { key }), RequestKind::Dispose(tx))
    }

    /// The packet that asks for a build to be repeated, whose response `tx` waits for.
    pub fn send_rebuild_request(&mut self, key: u32, tx: R) -> (packet: ProtocolPacket)
        ensures
            packet == (ProtocolPacket {
                id: old(self).id,
                is_request: true,
                value: ProtocolMessage::Request(AnyRequest::Rebuild(RebuildRequest { key })),
            }),
            final(self).id == next_id(old(self).id),
            final(self).pending@ == old(self).pending@.insert(
                old(self).id,
                RequestKind::Rebuild(tx),
            ),
    {
        self.send(AnyRequest::Rebuild(RebuildRequest { key }), RequestKind::Rebuild(tx))
    }
}

/// What a packet that arrived asks for.
pub enum PacketAction<B, U, R> {
    /// Call the start hook, and answer under this number.
    OnStart(u32, OnStartRequest),
    /// Call the resolve hook, and answer under this number.
    OnResolve(u32, OnResolveRequest),
    /// Call the load hook, and answer under this number.
    OnLoad(u32, OnLoadRequest),
    /// Call the end hook, and answer under this number.
    OnEnd(u32, OnEndRequest),
    /// Hand the outcome of a build to the one who waits for it.
    Built(B, Result<BuildResponse, Message>),
    /// Hand the outcome of a repeated build to the one who waits for it.
    Rebuilt(R, Result<RebuildResponse, Message>),
    /// Tell the one who waits that the request was carried out.
    Acknowledged(U),
}

/// The command that a request names.
pub open spec fn command(m: Seq<(Seq<char>, Value)>) -> Option<Seq<char>> {
    match value::lookup(m, "command"@) {
        Some(Value::Text(s)) => Some(s),
        _ => None,
    }
}

/// The commands that a plugin is called by.
pub open spec fn is_hook(command: Seq<char>) -> bool {
    ||| command == "on-start"@
    ||| command == "on-resolve"@
    ||| command == "on-load"@
    ||| command == "on-end"@
}

/// Whether there is anything to do for a packet: it is a request that calls a hook, or the
/// response to a request that was not answered yet.
pub open spec fn handled<K>(packet: PacketModel, pending: Map<u32, K>) -> bool {
    match packet.value {
        Value::Dict(m) => if packet.is_request {
            command(m) matches Some(c) && is_hook(c)
        } else {
            pending.contains_key(packet.id)
        },
        _ => false,
    }
}

/// `r` is the outcome of converting the map `m`.
pub open spec fn converted<T: FromMap>(
    r: Result<T, Fault>,
    m: Seq<(Seq<char>, Value)>,
) -> bool {
    match r {
        Ok(x) => T::map_fault(m) is None && x.represents_map(m),
        Err(f) => T::map_fault(m) == Some(f),
    }
}

/// `r` is what a request that calls a hook asks for.
pub open spec fn hook_action<B, U, R>(
    r: Result<PacketAction<B, U, R>, ProtocolError>,
    id: u32,
    m: Seq<(Seq<char>, Value)>,
    command: Seq<char>,
) -> bool {
    if command == "on-start"@ {
        match r {
            Ok(PacketAction::OnStart(n, request)) => n == id && converted(Ok(request), m),
            Ok(_) => false,
            Err(e) => converted::<OnStartRequest>(Err(e@), m),
        }
    } else if command == "on-resolve"@ {
        match r {
            Ok(PacketAction::OnResolve(n, request)) => n == id && converted(Ok(request), m),
            Ok(_) => false,
            Err(e) => converted::<OnResolveRequest>(Err(e@), m),
        }
    } else if command == "on-load"@ {
        match r {
            Ok(PacketAction::OnLoad(n, request)) => n == id && converted(Ok(request), m),
            Ok(_) => false,
            Err(e) => converted::<OnLoadRequest>(Err(e@), m),
        }
    } else {
        match r {
            Ok(PacketAction::OnEnd(n, request)) => n == id && converted(Ok(request), m),
            Ok(_) => false,
            Err(e) => converted::<OnEndRequest>(Err(e@), m),
        }
    }
}

/// `r` is what the response to a request of this kind asks for.
pub open spec fn response_action<B, U, R>(
    r: Result<PacketAction<B, U, R>, ProtocolError>,
    kind: RequestKind<B, U, R>,
    m: Seq<(Seq<char>, Value)>,
) -> bool {
    match kind {
        RequestKind::Build(tx) => match r {
            Ok(PacketAction::Built(to, outcome)) => to == tx && converted(Ok(outcome), m),
            Ok(_) => false,
            Err(e) => converted::<Result<BuildResponse, Message>>(Err(e@), m),
        },
        RequestKind::Rebuild(tx) => match r {
            Ok(PacketAction::Rebuilt(to, outcome)) => to == tx && converted(Ok(outcome), m),
            Ok(_) => false,
            Err(e) => converted::<Result<RebuildResponse, Message>>(Err(e@), m),
        },
        RequestKind::Dispose(tx) => r == Ok::<PacketAction<B, U, R>, ProtocolError>(
            PacketAction::Acknowledged(tx),
        ),
        RequestKind::Cancel(tx) => r == Ok::<PacketAction<B, U, R>, ProtocolError>(
            PacketAction::Acknowledged(tx),
        ),
    }
}

/// Whether there is anything to do for a packet.
pub fn can_handle<B, U, R>(
    packet: &AnyPacket,
    pending: &HashMap<u32, RequestKind<B, U, R>>,
) -> (r: bool)
    ensures
        r == handled(packet@, pending@),
{
    match &packet.value {
        AnyValue::Mapping(m) => {
            if packet.is_request {
                match m.get("command") {
                    Some(AnyValue::String(s)) => {
                        text::is_text(s, "on-start") || text::is_text(s, "on-resolve")
                            || text::is_text(s, "on-load") || text::is_text(s, "on-end")
                    },
                    _ => false,
                }
            } else {
                pending.contains_key(&packet.id)
            }
        },
        _ => false,
    }
}

/// What a packet asks for. A response is the last one to its request, even where it cannot be
/// converted.
pub fn handle_packet<B, U, R>(
    packet: AnyPacket,
    pending: &mut HashMap<u32, RequestKind<B, U, R>>,
) -> (r: Result<PacketAction<B, U, R>, ProtocolError>)
    requires
        handled(packet@, old(pending)@),
    ensures
        packet@.value matches Value::Dict(m) && if packet.is_request {
            &&& command(m) matches Some(c) && hook_action(r, packet.id, m, c)
            &&& final(pending)@ == old(pending)@
        } else {
            &&& response_action(r, old(pending)@[packet.id], m)
            &&& final(pending)@ == old(pending)@.remove(packet.id)
        },
{
    let map = packet.value.as_map()?;
    if packet.is_request {
        let command = map.get("command").unwrap().as_string()?;
        if text::is_text(command, "on-start") {
            Ok(PacketAction::OnStart(packet.id, OnStartRequest::from_map(map)?))
        } else if text::is_text(command, "on-resolve") {
            Ok(PacketAction::OnResolve(packet.id, OnResolveRequest::from_map(map)?))
        } else if text::is_text(command, "on-load") {
            Ok(PacketAction::OnLoad(packet.id, OnLoadRequest::from_map(map)?))
        } else {
            Ok(PacketAction::OnEnd(packet.id, OnEndRequest::from_map(map)?))
        }
    } else {
        let kind = pending.remove(&packet.id).unwrap();
        match kind {
            RequestKind::Build(tx) => {
                Ok(PacketAction::Built(tx, Result::<BuildResponse, Message>::from_map(map)?))
            },
            RequestKind::Dispose(tx) => Ok(PacketAction::Acknowledged(tx)),
            RequestKind::Rebuild(tx) => {
                Ok(PacketAction::Rebuilt(tx, Result::<RebuildResponse, Message>::from_map(map)?))
            },
            RequestKind::Cancel(tx) => Ok(PacketAction::Acknowledged(tx)),
        }
    }
}

/// The number of the request that is sent `n` requests after the one with number `first`.
pub open spec fn nth_id(first: u32, n: nat) -> u32
    decreases n,
{
    if n == 0 {
        first
    } else {
        next_id(nth_id(first, (n - 1) as nat))
    }
}

/// Requests are numbered one after the other; after the last number they start again at 0.
pub proof fn lemma_nth_id(first: u32, n: nat)
    ensures
        nth_id(first, n) == (first + n) % 0x1_0000_0000,
    decreases n,
{
    if n > 0 {
        lemma_nth_id(first, (n - 1) as nat);
    }
}

/// Two requests have different numbers, unless all the numbers were used between them.
pub proof fn lemma_ids_differ(first: u32, i: nat, j: nat)
    requires
        i < j < i + 0x1_0000_0000,
    ensures
        nth_id(first, i) != nth_id(first, j),
{
    lemma_nth_id(first, i);
    lemma_nth_id(first, j);
}

/// Once a request was sent, the response with its number is handled and goes to the one who waits
/// for it. Nobody waits under that number afterwards, and whoever waits under another number
/// still does.
pub proof fn lemma_response_reaches_sender<B, U, R>(
    before: Map<u32, RequestKind<B, U, R>>,
    id: u32,
    kind: RequestKind<B, U, R>,
    response: PacketModel,
    other: u32,
)
    requires
        !response.is_request,
        response.id == id,
        response.value is Dict,
        other != id,
    ensures
        handled(response, before.insert(id, kind)),
        before.insert(id, kind)[id] == kind,
        !handled(response, before.insert(id, kind).remove(id)),
        before.insert(id, kind).remove(id).contains_key(other) == before.contains_key(other),
        before.contains_key(other) ==> before.insert(id, kind).remove(id)[other] == before[other],
{
}

/// A request that calls a hook is handled whatever was sent before.
pub proof fn lemma_hooks_need_no_request<K>(
    request: PacketModel,
    one: Map<u32, K>,
    two: Map<u32, K>,
)
    requires
        request.is_request,
    ensures
        handled(request, one) == handled(request, two),
{
}

} // verus!
