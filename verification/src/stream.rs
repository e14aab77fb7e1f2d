//! Reassembly of packets from the bytes that arrive.
//!
//! What arrives is a sequence of frames, a length of four bytes and then that many bytes, but it
//! arrives in pieces of any size. The first frame only announces that the other side is ready;
//! every later one is a packet.
use crate::protocol::encode;
use crate::protocol::encoders;
use crate::protocol::error::{Fault, ProtocolError};
use crate::protocol::roundtrip;
use crate::protocol::value;
use crate::protocol::wire;
use crate::protocol::wire::{AnyPacket, PacketModel, Parse};
use vstd::prelude::*;

verus! {

/// What a frame amounts to.
#[derive(Debug)]
pub enum ReadEvent {
    /// The other side is ready.
    Ready,
    /// A packet arrived.
    Packet(AnyPacket),
    /// The frame is no packet.
    Undecodable(ProtocolError),
}

/// The model of a [`ReadEvent`].
#[verifier::ext_equal]
pub enum Event {
    Ready,
    Packet(PacketModel),
    Undecodable(Fault),
}

impl View for ReadEvent {
    type V = Event;

    open spec fn view(&self) -> Event {
        match *self {
            ReadEvent::Ready => Event::Ready,
            ReadEvent::Packet(p) => Event::Packet(p@),
            ReadEvent::Undecodable(e) => Event::Undecodable(e@),
        }
    }
}

/// The models of some events, one by one.
pub open spec fn event_models(events: Seq<ReadEvent>) -> Seq<Event> {
    events.map_values(|e: ReadEvent| e@)
}

/// Whether `bytes` start with a whole frame.
pub open spec fn has_frame(bytes: Seq<u8>) -> bool {
    bytes.len() >= 4 && 4 + wire::le_u32(bytes, 0) <= bytes.len()
}

/// The number of bytes of the frame that `bytes` start with, its length included.
pub open spec fn frame_size(bytes: Seq<u8>) -> int {
    4 + wire::le_u32(bytes, 0)
}

/// The contents of the whole frames that `bytes` start with.
pub open spec fn messages(bytes: Seq<u8>) -> Seq<Seq<u8>>
    decreases bytes.len(),
{
    if has_frame(bytes) {
        seq![bytes.subrange(4, frame_size(bytes))] + messages(bytes.skip(frame_size(bytes)))
    } else {
        Seq::empty()
    }
}

/// The number of bytes of the whole frames that `bytes` start with.
pub open spec fn consumed(bytes: Seq<u8>) -> int
    decreases bytes.len(),
{
    if has_frame(bytes) {
        frame_size(bytes) + consumed(bytes.skip(frame_size(bytes)))
    } else {
        0
    }
}

/// What follows the whole frames that `bytes` start with.
pub open spec fn leftover(bytes: Seq<u8>) -> Seq<u8> {
    bytes.skip(consumed(bytes))
}

/// A whole frame at the start is the first message; the others come from what follows it.
proof fn lemma_first_message(bytes: Seq<u8>)
    requires
        has_frame(bytes),
    ensures
        messages(bytes).len() > 0,
        messages(bytes)[0] == bytes.subrange(4, frame_size(bytes)),
        messages(bytes).skip(1) == messages(bytes.skip(frame_size(bytes))),
        consumed(bytes) == frame_size(bytes) + consumed(bytes.skip(frame_size(bytes))),
{
    assert(messages(bytes).skip(1) =~= messages(bytes.skip(frame_size(bytes))));
}

/// What a frame with this content amounts to; `first` for the very first frame.
pub open spec fn event(message: Seq<u8>, first: bool) -> Event {
    if first {
        Event::Ready
    } else {
        match wire::parse_packet(message, 0) {
            Parse::Done(packet, _) => Event::Packet(packet),
            Parse::Failed(fault, _) => Event::Undecodable(fault),
            Parse::Short => arbitrary(),
        }
    }
}

/// Whether the content of a frame ends before the packet does.
pub open spec fn truncated(message: Seq<u8>, first: bool) -> bool {
    !first && wire::parse_packet(message, 0) is Short
}

/// Whether no frame that `bytes` start with is cut short; `first` where the first of them is the
/// very first.
pub open spec fn untruncated(bytes: Seq<u8>, first: bool) -> bool {
    forall|i: int|
        0 <= i < messages(bytes).len() ==> !truncated(
            #[trigger] messages(bytes)[i],
            first && i == 0,
        )
}

/// What the frames that `bytes` start with amount to; `first` where the first of them is the very
/// first.
pub open spec fn events(bytes: Seq<u8>, first: bool) -> Seq<Event> {
    Seq::new(messages(bytes).len(), |i: int| event(messages(bytes)[i], first && i == 0))
}

/// The bytes that arrived and how far they were consumed.
pub struct ProtocolState {
    /// The bytes that arrived, and behind them room for more.
    pub buffer: Vec<u8>,
    /// The number of bytes that arrived.
    pub read_into_offset: usize,
    /// The number of bytes that were consumed.
    pub offset: usize,
    /// Whether the very first frame is still to come.
    pub first_packet: bool,
}

impl ProtocolState {
    /// No more was consumed than arrived, and there is room for more.
    pub open spec fn wf(&self) -> bool {
        self.offset <= self.read_into_offset < self.buffer@.len()
    }

    /// The bytes that arrived and were not consumed.
    pub open spec fn unread(&self) -> Seq<u8> {
        self.buffer@.subrange(self.offset as int, self.read_into_offset as int)
    }

    /// The unread bytes once `amount` more have arrived.
    pub open spec fn input(&self, amount: usize) -> Seq<u8> {
        self.buffer@.subrange(self.offset as int, self.read_into_offset + amount)
    }

    /// The buffer once `amount` more bytes have arrived: where that fills it, it grows.
    pub open spec fn grown(&self, amount: usize) -> Seq<u8> {
        if self.read_into_offset + amount >= self.buffer@.len() {
            self.buffer@ + Seq::new(1024, |i: int| 0u8)
        } else {
            self.buffer@
        }
    }

    /// Nothing arrived yet.
    pub fn new() -> (r: Self)
        ensures
            r.wf(),
            r.buffer@ == Seq::new(1024, |i: int| 0u8),
            r.read_into_offset == 0,
            r.offset == 0,
            r.first_packet,
    {
        ProtocolState {
            buffer: vec![0; 1024],
            read_into_offset: 0,
            offset: 0,
            first_packet: true,
        }
    }
}

/// The length at the start of the unread bytes, and whether the frame is whole.
fn whole_frame(state: &ProtocolState) -> (r: Option<usize>)
    requires
        state.wf(),
    ensures
        match r {
            Some(length) => has_frame(state.unread()) && 4 + length == frame_size(state.unread()),
            None => !has_frame(state.unread()),
        },
{
    let unread: usize = state.read_into_offset - state.offset;
    if unread < 4 {
        return None;
    }
    let mut header = wire::Buf::new(
        vstd::slice::slice_subrange(state.buffer.as_slice(), state.offset, state.read_into_offset),
    );
    let length: u32 = header.read_u32();
    if length as usize <= unread - 4 {
        Some(length as usize)
    } else {
        None
    }
}

/// What a frame with this content amounts to, or `None` if the content ends before the packet
/// does.
fn read_message(message: &[u8], first: bool) -> (r: Option<ReadEvent>)
    ensures
        match r {
            Some(e) => !truncated(message@, first) && e@ == event(message@, first),
            None => truncated(message@, first),
        },
{
    if first {
        return Some(ReadEvent::Ready);
    }
    match wire::try_decode_any_packet(message) {
        Some(Ok(packet)) => Some(ReadEvent::Packet(packet)),
        Some(Err(e)) => Some(ReadEvent::Undecodable(e)),
        None => None,
    }
}

/// What the unread bytes start with.
enum Frame {
    /// A frame of which a part is still to come.
    Incomplete,
    /// A frame whose content ends before the packet does.
    Truncated,
    /// A whole frame.
    Whole(ReadEvent),
}

/// Consumes the frame that the unread bytes start with, if it is whole.
fn take_frame(state: &mut ProtocolState) -> (r: Frame)
    requires
        old(state).wf(),
    ensures
        final(state).wf(),
        final(state).buffer@ == old(state).buffer@,
        final(state).read_into_offset == old(state).read_into_offset,
        ({
            let unread = old(state).unread();
            let message = unread.subrange(4, frame_size(unread));
            if !has_frame(unread) {
                r is Incomplete && *final(state) == *old(state)
            } else if truncated(message, old(state).first_packet) {
                r is Truncated && *final(state) == *old(state)
            } else {
                &&& r matches Frame::Whole(e) && e@ == event(message, old(state).first_packet)
                &&& final(state).offset == old(state).offset + frame_size(unread)
                &&& final(state).unread() == unread.skip(frame_size(unread))
                &&& !final(state).first_packet
            }
        }),
{
    let ghost unread = state.unread();
    let length: usize = match whole_frame(state) {
        Some(length) => length,
        None => {
            return Frame::Incomplete;
        },
    };
    let start: usize = state.offset + 4;
    let message = vstd::slice::slice_subrange(state.buffer.as_slice(), start, start + length);
    assert(message@ =~= unread.subrange(4, frame_size(unread)));
    match read_message(message, state.first_packet) {
        Some(event) => {
            state.first_packet = false;
            state.offset = start + length;
            assert(state.unread() =~= unread.skip(frame_size(unread)));
            Frame::Whole(event)
        },
        None => Frame::Truncated,
    }
}

/// Takes `amount` more bytes, which were written behind those that arrived before, and consumes
/// the frames that are whole. Stops at a frame whose content ends before the packet does, says
/// so, and leaves that frame and those after it unread.
pub fn try_handle_read(amount: usize, state: &mut ProtocolState) -> (r: (Vec<ReadEvent>, bool))
    requires
        old(state).wf(),
        old(state).read_into_offset + amount <= old(state).buffer@.len(),
    ensures
        final(state).wf(),
        final(state).buffer@ == old(state).grown(amount),
        final(state).read_into_offset == old(state).read_into_offset + amount,
        r.1 == !untruncated(old(state).input(amount), old(state).first_packet),
        !r.1 ==> {
            let input = old(state).input(amount);
            &&& event_models(r.0@) == events(input, old(state).first_packet)
            &&& final(state).offset == old(state).offset + consumed(input)
            &&& final(state).unread() == leftover(input)
            &&& final(state).first_packet == (old(state).first_packet && messages(input).len() == 0)
        },
        r.1 ==> {
            let all = messages(old(state).input(amount));
            let n = r.0@.len() as int;
            &&& n < all.len()
            &&& truncated(all[n], old(state).first_packet && n == 0)
            &&& forall|i: int|
                0 <= i < n ==> !truncated(#[trigger] all[i], old(state).first_packet && i == 0)
            &&& event_models(r.0@) == events(old(state).input(amount), old(state).first_packet).take(
                n,
            )
            &&& messages(final(state).unread()) == all.skip(n)
            &&& final(state).offset + consumed(final(state).unread()) == old(state).offset
                + consumed(old(state).input(amount))
            &&& final(state).first_packet == (old(state).first_packet && n == 0)
        },
{
    let ghost input = state.input(amount);
    let ghost first = state.first_packet;
    let capacity: usize = state.buffer.len();
    state.read_into_offset += amount;
    if state.read_into_offset >= capacity {
        let mut room: Vec<u8> = vec![0; 1024];
        state.buffer.append(&mut room);
    }
    let mut out: Vec<ReadEvent> = Vec::new();
    let ghost all = messages(input);
    assert(state.buffer@ =~= old(state).grown(amount));
    assert(state.unread() =~= input);
    assert(all.skip(0) =~= all);
    loop
        invariant
            state.wf(),
            state.buffer@ == old(state).grown(amount),
            state.read_into_offset == old(state).read_into_offset + amount,
            input == old(state).input(amount),
            input == state.buffer@.subrange(
                old(state).offset as int,
                state.read_into_offset as int,
            ),
            first == old(state).first_packet,
            all == messages(input),
            old(state).offset <= state.offset,
            out@.len() <= all.len(),
            all.skip(out@.len() as int) == messages(state.unread()),
            consumed(input) == state.offset - old(state).offset + consumed(state.unread()),
            state.first_packet == (first && out@.len() == 0),
            forall|i: int|
                0 <= i < out@.len() ==> !truncated(#[trigger] all[i], first && i == 0) && out@[i]@
                    == event(all[i], first && i == 0),
        decreases state.read_into_offset - state.offset,
    {
        let ghost unread = state.unread();
        let ghost n = out@.len() as int;
        proof {
            if has_frame(unread) {
                lemma_first_message(unread);
                assert(all.skip(n)[0] == all[n]);
                assert(all.skip(n + 1) =~= all.skip(n).skip(1));
            } else {
                assert(all.skip(n).len() == 0);
            }
        }
        match take_frame(state) {
            Frame::Incomplete => {
                assert(state.unread() =~= leftover(input));
                assert(event_models(out@) =~= events(input, first));
                return (out, false);
            },
            Frame::Truncated => {
                assert(event_models(out@) =~= events(input, first).take(n));
                return (out, true);
            },
            Frame::Whole(event) => {
                out.push(event);
            },
        }
    }
}

/// Takes `amount` more bytes, which were written behind those that arrived before, and consumes
/// the frames that are whole. No frame may be cut short; [`try_handle_read`] can be used where
/// one may.
pub fn handle_read(amount: usize, state: &mut ProtocolState) -> (r: Vec<ReadEvent>)
    requires
        old(state).wf(),
        old(state).read_into_offset + amount <= old(state).buffer@.len(),
        untruncated(old(state).input(amount), old(state).first_packet),
    ensures
        final(state).wf(),
        final(state).buffer@ == old(state).grown(amount),
        final(state).read_into_offset == old(state).read_into_offset + amount,
        event_models(r@) == events(old(state).input(amount), old(state).first_packet),
        final(state).offset == old(state).offset + consumed(old(state).input(amount)),
        final(state).unread() == leftover(old(state).input(amount)),
        final(state).first_packet == (old(state).first_packet && messages(
            old(state).input(amount),
        ).len() == 0),
{
    try_handle_read(amount, state).0
}

/// It makes no difference where one read ends and the next begins: reading `a` and then `b` gives
/// the same messages and events, and leaves the same bytes unread, as reading both at once.
pub proof fn lemma_reads_can_be_split(a: Seq<u8>, b: Seq<u8>, first: bool)
    ensures
        messages(a + b) == messages(a) + messages(leftover(a) + b),
        leftover(a + b) == leftover(leftover(a) + b),
        events(a + b, first) == events(a, first) + events(
            leftover(a) + b,
            first && messages(a).len() == 0,
        ),
        untruncated(a + b, first) == (untruncated(a, first) && untruncated(
            leftover(a) + b,
            first && messages(a).len() == 0,
        )),
{
    lemma_messages_split(a, b);
    let later = first && messages(a).len() == 0;
    let all = messages(a + b);
    let one = messages(a);
    let two = messages(leftover(a) + b);
    assert(events(a + b, first) =~= events(a, first) + events(leftover(a) + b, later));
    if untruncated(a + b, first) {
        assert forall|i: int| 0 <= i < one.len() implies !truncated(
            #[trigger] one[i],
            first && i == 0,
        ) by {
            assert(all[i] == one[i]);
        }
        assert forall|i: int| 0 <= i < two.len() implies !truncated(
            #[trigger] two[i],
            later && i == 0,
        ) by {
            assert(all[one.len() + i] == two[i]);
        }
    }
    if untruncated(a, first) && untruncated(leftover(a) + b, later) {
        assert forall|i: int| 0 <= i < all.len() implies !truncated(
            #[trigger] all[i],
            first && i == 0,
        ) by {
            if i < one.len() {
                assert(all[i] == one[i]);
            } else {
                assert(all[i] == two[i - one.len()]);
            }
        }
    }
}

proof fn lemma_messages_split(a: Seq<u8>, b: Seq<u8>)
    ensures
        0 <= consumed(a) <= a.len(),
        messages(a + b) == messages(a) + messages(leftover(a) + b),
        consumed(a + b) == consumed(a) + consumed(leftover(a) + b),
        leftover(a + b) == leftover(leftover(a) + b),
    decreases a.len(),
{
    if has_frame(a) {
        let n = frame_size(a);
        let rest = a.skip(n);
        lemma_messages_split(rest, b);
        assert(frame_size(a + b) == n);
        assert((a + b).subrange(4, n) =~= a.subrange(4, n));
        assert((a + b).skip(n) =~= rest + b);
        assert(leftover(a) =~= leftover(rest));
        assert(messages(a + b) =~= messages(a) + messages(leftover(a) + b));
        assert(leftover(a + b) =~= leftover(rest + b)) by {
            lemma_consumed(rest + b);
        }
    } else {
        assert(leftover(a) =~= a);
        assert(messages(a + b) =~= messages(a) + messages(leftover(a) + b));
    }
}

/// The whole frames are some of the bytes.
pub proof fn lemma_consumed(bytes: Seq<u8>)
    ensures
        0 <= consumed(bytes) <= bytes.len(),
    decreases bytes.len(),
{
    if has_frame(bytes) {
        lemma_consumed(bytes.skip(frame_size(bytes)));
    }
}

/// A read leaves no whole frame unread, so that reading nothing more gives no more events.
pub proof fn lemma_no_frame_left(bytes: Seq<u8>, first: bool)
    ensures
        !has_frame(leftover(bytes)),
        messages(leftover(bytes)).len() == 0,
        events(leftover(bytes), first).len() == 0,
        leftover(leftover(bytes)) == leftover(bytes),
    decreases bytes.len(),
{
    lemma_consumed(bytes);
    if has_frame(bytes) {
        let rest = bytes.skip(frame_size(bytes));
        lemma_consumed(rest);
        lemma_no_frame_left(rest, first);
        assert(leftover(bytes) =~= leftover(rest));
    } else {
        assert(leftover(bytes) =~= bytes);
    }
}

/// The other side is announced ready by the very first frame and by no later one.
pub proof fn lemma_ready_once(bytes: Seq<u8>, first: bool, i: int)
    requires
        untruncated(bytes, first),
        0 <= i < events(bytes, first).len(),
    ensures
        events(bytes, first)[i] == Event::Ready <==> first && i == 0,
{
    assert(!truncated(messages(bytes)[i], first && i == 0));
}

/// The bytes that are written for some packets, one after the other.
pub open spec fn written(packets: Seq<PacketModel>) -> Seq<u8>
    decreases packets.len(),
{
    if packets.len() == 0 {
        Seq::empty()
    } else {
        encode::delimited(encoders::encode_packet(packets[0])) + written(packets.drop_first())
    }
}

/// Whether a packet arrives as it was sent: its number leaves room for the bit that tells a
/// response from a request, its length fits in four bytes, and no map in it holds a key twice.
/// The last holds of every packet that was encoded.
pub open spec fn deliverable(packet: PacketModel) -> bool {
    &&& packet.id < 0x8000_0000
    &&& encoders::encode_packet(packet).len() <= u32::MAX
    &&& value::keyed(packet.value)
}

/// A frame that was written is the first message, and the messages of what follows come next.
pub proof fn lemma_written_frame(message: Seq<u8>, rest: Seq<u8>)
    requires
        message.len() <= u32::MAX,
    ensures
        has_frame(encode::delimited(message) + rest),
        messages(encode::delimited(message) + rest) == seq![message] + messages(rest),
        leftover(encode::delimited(message) + rest) == leftover(rest),
{
    let bytes = encode::delimited(message) + rest;
    let length = encode::le_bytes(message.len());
    assert(bytes[0] == length[0] && bytes[1] == length[1] && bytes[2] == length[2] && bytes[3]
        == length[3]);
    assert(wire::le_u32(bytes, 0) == message.len());
    assert(bytes.subrange(4, frame_size(bytes)) =~= message);
    assert(bytes.skip(frame_size(bytes)) =~= rest);
    lemma_consumed(rest);
    assert(leftover(bytes) =~= leftover(rest));
}

/// The frame of a packet amounts to that packet.
proof fn lemma_frame_of_packet(packet: PacketModel)
    requires
        deliverable(packet),
    ensures
        !truncated(encoders::encode_packet(packet), false),
        event(encoders::encode_packet(packet), false) == Event::Packet(packet),
{
    roundtrip::lemma_short_encoding_fits(packet.value);
    roundtrip::lemma_decode_encoded_packet(packet, Seq::empty());
    assert(encoders::encode_packet(packet) + Seq::<u8>::empty() =~= encoders::encode_packet(packet));
}

/// The messages that are found in what was written for some packets, and what is left over.
proof fn lemma_written_messages(packets: Seq<PacketModel>)
    requires
        forall|i: int| 0 <= i < packets.len() ==> deliverable(#[trigger] packets[i]),
    ensures
        messages(written(packets)) == packets.map_values(
            |p: PacketModel| encoders::encode_packet(p),
        ),
        leftover(written(packets)) == Seq::<u8>::empty(),
    decreases packets.len(),
{
    let f = |p: PacketModel| encoders::encode_packet(p);
    if packets.len() == 0 {
        assert(messages(written(packets)) =~= packets.map_values(f));
        assert(leftover(written(packets)) =~= Seq::empty());
    } else {
        let rest = packets.drop_first();
        let message = encoders::encode_packet(packets[0]);
        assert forall|i: int| 0 <= i < rest.len() implies deliverable(#[trigger] rest[i]) by {
            assert(rest[i] == packets[i + 1]);
        }
        lemma_written_messages(rest);
        lemma_written_frame(message, written(rest));
        assert(messages(written(packets)) == seq![message] + rest.map_values(f));
        assert(seq![message] + rest.map_values(f) =~= packets.map_values(f));
    }
}

/// The packets that one side writes are the packets that arrive at the other: each of them, in
/// order, nothing else, and no byte is left over. By [`lemma_reads_can_be_split`] that holds
/// however the bytes are cut up on their way.
pub proof fn lemma_written_packets_arrive(packets: Seq<PacketModel>)
    requires
        forall|i: int| 0 <= i < packets.len() ==> deliverable(#[trigger] packets[i]),
    ensures
        untruncated(written(packets), false),
        events(written(packets), false) == packets.map_values(|p: PacketModel| Event::Packet(p)),
        leftover(written(packets)) == Seq::<u8>::empty(),
{
    let all = written(packets);
    lemma_written_messages(packets);
    assert forall|i: int| 0 <= i < messages(all).len() implies !truncated(
        #[trigger] messages(all)[i],
        false,
    ) && event(messages(all)[i], false) == Event::Packet(packets[i]) by {
        lemma_frame_of_packet(packets[i]);
    }
    assert(events(all, false) =~= packets.map_values(|p: PacketModel| Event::Packet(p)));
}

} // verus!
