//! The decisions of one connection's session: what the reader does with
//! the bytes it has, and how the session closes as its two loops end.
//!
//! The loops themselves wait on a socket and on queues; they live with the
//! caller, which performs what is decided here.

use crate::buffer::{buffer_bytes, buffer_put};
use crate::codec::{CodecError, DiceCodec};
use crate::grammar::{spec_decode, spec_encode, Parsed};
use crate::laws::{
    lemma_decode_then_encode, lemma_decoded_is_valid, lemma_following_bytes_untouched,
    lemma_frame_consumes, lemma_prefix_incomplete,
};
use crate::packet::{DicePacket, PacketView};
use tokio_util::bytes::BytesMut;
use vstd::prelude::*;

verus! {

/// How far a session has closed.
#[derive(Clone, Copy, Debug, PartialEq, Eq, Structural)]
pub enum SessionState {
    /// Both loops run.
    Open,
    /// One loop has ended; the other is to follow.
    HalfClosed,
    /// Both loops have ended: the socket and the queues can go.
    Closed,
}

impl SessionState {
    /// How far along a state is: a session only ever moves to a higher one.
    pub open spec fn rank(self) -> nat {
        match self {
            SessionState::Open => 0,
            SessionState::HalfClosed => 1,
            SessionState::Closed => 2,
        }
    }
}

/// Which of a session's two loops still run.
#[derive(Clone, Copy, Debug, PartialEq, Eq, Structural)]
pub struct Session {
    pub reader_running: bool,
    pub writer_running: bool,
}

impl Session {
    pub open spec fn spec_state(&self) -> SessionState {
        if self.reader_running && self.writer_running {
            SessionState::Open
        } else if self.reader_running || self.writer_running {
            SessionState::HalfClosed
        } else {
            SessionState::Closed
        }
    }

    /// A session as it is when a connection is accepted.
    pub fn new() -> (r: Session)
        ensures
            r.spec_state() == SessionState::Open,
            r.reader_running,
            r.writer_running,
    {
        Session { reader_running: true, writer_running: true }
    }

    #[verifier::when_used_as_spec(spec_state)]
    pub fn state(&self) -> (r: SessionState)
        ensures
            r == self.spec_state(),
    {
        if self.reader_running && self.writer_running {
            SessionState::Open
        } else if self.reader_running || self.writer_running {
            SessionState::HalfClosed
        } else {
            SessionState::Closed
        }
    }

    /// The reader loop has ended. Returns the state reached, which the
    /// owner is to be told.
    pub fn reader_exited(&mut self) -> (r: SessionState)
        ensures
            !final(self).reader_running,
            final(self).writer_running == old(self).writer_running,
            r == final(self).spec_state(),
            r != SessionState::Open,
            old(self).spec_state().rank() <= r.rank() <= old(self).spec_state().rank() + 1,
    {
        self.reader_running = false;
        self.state()
    }

    /// The writer loop has ended. Returns the state reached, which the
    /// owner is to be told.
    pub fn writer_exited(&mut self) -> (r: SessionState)
        ensures
            !final(self).writer_running,
            final(self).reader_running == old(self).reader_running,
            r == final(self).spec_state(),
            r != SessionState::Open,
            old(self).spec_state().rank() <= r.rank() <= old(self).spec_state().rank() + 1,
    {
        self.writer_running = false;
        self.state()
    }

    /// The owner ends the session: both loops are to stop, whatever they
    /// were doing.
    pub fn shut_down(&mut self) -> (r: SessionState)
        ensures
            final(self).spec_state() == SessionState::Closed,
            r == SessionState::Closed,
    {
        self.reader_running = false;
        self.writer_running = false;
        SessionState::Closed
    }

    /// Whether a session that last heard from its peer at `last_heard` has
    /// been idle for `limit` or longer at `now`, all in milliseconds. A
    /// clock that ran backwards counts as no time passed.
    pub fn idle_expired(last_heard: u64, now: u64, limit: u64) -> (r: bool)
        ensures
            r == (now >= last_heard && now - last_heard >= limit),
    {
        now >= last_heard && now - last_heard >= limit
    }

    /// Whether an outbound packet may still be queued: always, until the
    /// session is closed.
    pub fn accepts_outbound(&self) -> (r: bool)
        ensures
            r == (self.spec_state() != SessionState::Closed),
    {
        self.reader_running || self.writer_running
    }
}

/// What the reader loop does after one call of the decoder.
#[derive(Clone, Debug, PartialEq, Eq)]
pub enum ReaderStep {
    /// Queue the packet for the tick loop and decode again.
    Deliver(DicePacket),
    /// Wait for more bytes from the socket.
    ReadMore,
    /// End the loop: the stream cannot be framed any more.
    Close,
}

/// Tells the reader loop what to do with what the decoder returned. A
/// malformed frame ends the loop; it is never waited out.
pub fn reader_step(decoded: Result<Option<DicePacket>, CodecError>) -> (r: ReaderStep)
    ensures
        match decoded {
            Ok(Some(packet)) => r == ReaderStep::Deliver(packet),
            Ok(None) => r is ReadMore,
            Err(_) => r is Close,
        },
{
    match decoded {
        Ok(Some(packet)) => ReaderStep::Deliver(packet),
        Ok(None) => ReaderStep::ReadMore,
        Err(_) => ReaderStep::Close,
    }
}

/// The packets that a run of bytes holds, frame after frame, and where the
/// framing stops.
pub struct Drained {
    /// The packets of the whole frames, in the order of their bytes.
    pub packets: Seq<PacketView>,
    /// The bytes behind the last whole frame.
    pub rest: Seq<u8>,
    /// Whether those bytes can begin no frame.
    pub malformed: bool,
}

/// Frames taken off the front of `s` for as long as a whole one is there.
pub open spec fn spec_drain(s: Seq<u8>) -> Drained
    decreases s.len(),
{
    match spec_decode(s) {
        Parsed::Frame(packet, rest) => if rest.len() < s.len() {
            let later = spec_drain(rest);
            Drained {
                packets: seq![packet] + later.packets,
                rest: later.rest,
                malformed: later.malformed,
            }
        } else {
            Drained { packets: Seq::empty(), rest: s, malformed: true }
        },
        Parsed::Incomplete => Drained { packets: Seq::empty(), rest: s, malformed: false },
        Parsed::Malformed => Drained { packets: Seq::empty(), rest: s, malformed: true },
    }
}

/// What a queue of packets stands for.
pub open spec fn views(packets: Seq<DicePacket>) -> Seq<PacketView> {
    Seq::new(packets.len(), |i: int| packets[i]@)
}

/// The frames of several packets, one behind the other.
pub open spec fn spec_encode_all(packets: Seq<PacketView>) -> Seq<u8>
    decreases packets.len(),
{
    if packets.len() == 0 {
        Seq::empty()
    } else {
        spec_encode(packets[0]) + spec_encode_all(packets.skip(1))
    }
}

/// Moves every whole frame at the front of `buffer` to the back of
/// `inbound`, in the order of the bytes, and leaves the rest in the buffer.
/// `Ok` asks for more bytes; the error ends the reader loop.
pub fn pump_inbound(
    codec: &mut DiceCodec,
    buffer: &mut BytesMut,
    inbound: &mut Vec<DicePacket>,
) -> (r: Result<(), CodecError>)
    ensures
        views(final(inbound)@) == views(old(inbound)@) + spec_drain(
            buffer_bytes(*old(buffer)),
        ).packets,
        buffer_bytes(*final(buffer)) == spec_drain(buffer_bytes(*old(buffer))).rest,
        r is Err <==> spec_drain(buffer_bytes(*old(buffer))).malformed,
        r is Err ==> r->Err_0 == CodecError::MalformedFrame,
{
    let ghost all = spec_drain(buffer_bytes(*buffer));
    let ghost before = views(inbound@);
    assert(before + all.packets =~= views(inbound@) + all.packets);
    loop
        invariant
            all == spec_drain(buffer_bytes(*old(buffer))),
            before == views(old(inbound)@),
            views(inbound@) + spec_drain(buffer_bytes(*buffer)).packets == before + all.packets,
            spec_drain(buffer_bytes(*buffer)).rest == all.rest,
            spec_drain(buffer_bytes(*buffer)).malformed == all.malformed,
        decreases buffer_bytes(*buffer).len(),
    {
        let ghost now = buffer_bytes(*buffer);
        let ghost queued = views(inbound@);
        match reader_step(codec.decode(buffer)) {
            ReaderStep::Deliver(packet) => {
                inbound.push(packet);
                proof {
                    let later = spec_drain(buffer_bytes(*buffer));
                    assert(views(inbound@) =~= queued + seq![packet@]);
                    assert((queued + seq![packet@]) + later.packets =~= queued + (seq![packet@]
                        + later.packets));
                }
            },
            ReaderStep::ReadMore => {
                assert(views(inbound@) + Seq::<PacketView>::empty() =~= views(inbound@));
                return Ok(());
            },
            ReaderStep::Close => {
                assert(views(inbound@) + Seq::<PacketView>::empty() =~= views(inbound@));
                return Err(CodecError::MalformedFrame);
            },
        }
    }
}

/// Takes in the bytes of one read: puts them behind what the buffer still
/// holds, then moves every whole frame to the back of `inbound`, as
/// `pump_inbound` does.
pub fn receive(
    codec: &mut DiceCodec,
    buffer: &mut BytesMut,
    chunk: &[u8],
    inbound: &mut Vec<DicePacket>,
) -> (r: Result<(), CodecError>)
    ensures
        views(final(inbound)@) == views(old(inbound)@) + spec_drain(
            buffer_bytes(*old(buffer)) + chunk@,
        ).packets,
        buffer_bytes(*final(buffer)) == spec_drain(buffer_bytes(*old(buffer)) + chunk@).rest,
        r is Err <==> spec_drain(buffer_bytes(*old(buffer)) + chunk@).malformed,
        r is Err ==> r->Err_0 == CodecError::MalformedFrame,
{
    buffer_put(buffer, chunk);
    pump_inbound(codec, buffer, inbound)
}

/// What a reader has delivered, and what its buffer holds, after the reads
/// `chunks`: after each read it takes in the bytes as `receive` does, and
/// once the framing is lost it takes in no more.
pub open spec fn spec_feed(chunks: Seq<Seq<u8>>) -> Drained
    decreases chunks.len(),
{
    if chunks.len() == 0 {
        Drained { packets: Seq::empty(), rest: Seq::empty(), malformed: false }
    } else {
        let before = spec_feed(chunks.drop_last());
        if before.malformed {
            before
        } else {
            let now = spec_drain(before.rest + chunks.last());
            Drained {
                packets: before.packets + now.packets,
                rest: now.rest,
                malformed: now.malformed,
            }
        }
    }
}

/// The bytes of several reads, one behind the other.
pub open spec fn spec_joined(chunks: Seq<Seq<u8>>) -> Seq<u8>
    decreases chunks.len(),
{
    if chunks.len() == 0 {
        Seq::empty()
    } else {
        spec_joined(chunks.drop_last()) + chunks.last()
    }
}

/// Bytes that come behind a whole frame do not change what it decodes to.
pub proof fn lemma_frame_stable(s: Seq<u8>, more: Seq<u8>)
    requires
        spec_decode(s) is Frame,
    ensures
        spec_decode(s + more) == Parsed::Frame(
            spec_decode(s)->Frame_0,
            spec_decode(s)->Frame_1 + more,
        ),
{
    let packet = spec_decode(s)->Frame_0;
    let rest = spec_decode(s)->Frame_1;
    lemma_decode_then_encode(s);
    lemma_decoded_is_valid(s);
    lemma_following_bytes_untouched(packet, rest + more);
    assert(s + more =~= spec_encode(packet) + (rest + more));
}

/// Draining bytes, then draining what was left together with more bytes,
/// delivers what draining all of them at once delivers.
pub proof fn lemma_drain_append(s: Seq<u8>, more: Seq<u8>)
    requires
        !spec_drain(s).malformed,
    ensures
        spec_drain(s + more) == (Drained {
            packets: spec_drain(s).packets + spec_drain(spec_drain(s).rest + more).packets,
            rest: spec_drain(spec_drain(s).rest + more).rest,
            malformed: spec_drain(spec_drain(s).rest + more).malformed,
        }),
    decreases s.len(),
{
    match spec_decode(s) {
        Parsed::Frame(packet, rest) => {
            lemma_frame_consumes(s);
            lemma_frame_stable(s, more);
            lemma_drain_append(rest, more);
            let later = spec_drain(rest);
            let last = spec_drain(later.rest + more);
            assert(seq![packet] + (later.packets + last.packets) =~= (seq![packet]
                + later.packets) + last.packets);
        },
        Parsed::Incomplete => {
            let last = spec_drain(s + more);
            assert(Seq::<PacketView>::empty() + last.packets =~= last.packets);
        },
        Parsed::Malformed => {},
    }
}

/// A stream of valid frames cut off anywhere is never malformed.
pub proof fn lemma_drain_prefix(packets: Seq<PacketView>, k: int)
    requires
        forall|i: int| 0 <= i < packets.len() ==> (#[trigger] packets[i]).wf(),
        0 <= k <= spec_encode_all(packets).len(),
    ensures
        !spec_drain(spec_encode_all(packets).take(k)).malformed,
    decreases packets.len(),
{
    let s = spec_encode_all(packets).take(k);
    if packets.len() == 0 {
        assert(s =~= Seq::<u8>::empty());
    } else {
        let first = packets[0];
        let later = packets.skip(1);
        let frame = spec_encode(first);
        let tail = spec_encode_all(later);
        assert(first.wf());
        assert forall|i: int| 0 <= i < later.len() implies (#[trigger] later[i]).wf() by {
            assert(later[i] == packets[i + 1]);
        }
        if k < frame.len() {
            assert(s =~= frame.take(k));
            lemma_prefix_incomplete(first, k);
        } else {
            let cut = tail.take(k - frame.len());
            assert(s =~= frame + cut);
            lemma_following_bytes_untouched(first, cut);
            lemma_frame_consumes(s);
            lemma_drain_prefix(later, k - frame.len());
        }
    }
}

/// While the reads so far make up the beginning of a stream of valid
/// frames, the reader has delivered what those bytes hold as one run.
pub proof fn lemma_feed_prefix(packets: Seq<PacketView>, chunks: Seq<Seq<u8>>, k: int)
    requires
        forall|i: int| 0 <= i < packets.len() ==> (#[trigger] packets[i]).wf(),
        0 <= k <= spec_encode_all(packets).len(),
        spec_joined(chunks) == spec_encode_all(packets).take(k),
    ensures
        spec_feed(chunks) == spec_drain(spec_joined(chunks)),
        !spec_feed(chunks).malformed,
    decreases chunks.len(),
{
    lemma_drain_prefix(packets, k);
    if chunks.len() == 0 {
    } else {
        let all = spec_encode_all(packets);
        let before = spec_joined(chunks.drop_last());
        let last = chunks.last();
        let k0 = before.len() as int;
        assert(before =~= all.take(k0)) by {
            assert(before =~= (before + last).take(k0));
            assert(all.take(k).take(k0) =~= all.take(k0));
        }
        lemma_feed_prefix(packets, chunks.drop_last(), k0);
        lemma_drain_append(before, last);
    }
}

/// However the bytes of a stream of valid frames are split into reads, the
/// reader delivers the packets of the stream, each once, in the order their
/// frames were sent, and is left with nothing.
pub proof fn lemma_split_reads(packets: Seq<PacketView>, chunks: Seq<Seq<u8>>)
    requires
        forall|i: int| 0 <= i < packets.len() ==> (#[trigger] packets[i]).wf(),
        spec_joined(chunks) == spec_encode_all(packets),
    ensures
        spec_feed(chunks) == (Drained { packets, rest: Seq::empty(), malformed: false }),
{
    let all = spec_encode_all(packets);
    assert(all.take(all.len() as int) =~= all);
    lemma_feed_prefix(packets, chunks, all.len() as int);
    lemma_drain_in_order(packets);
}

/// Frames written one behind the other are read back as their packets, in
/// the order they were written, with nothing left over: what a peer sends
/// first reaches the inbound queue first.
pub proof fn lemma_drain_in_order(packets: Seq<PacketView>)
    requires
        forall|i: int| 0 <= i < packets.len() ==> (#[trigger] packets[i]).wf(),
    ensures
        spec_drain(spec_encode_all(packets)) == (Drained {
            packets,
            rest: Seq::empty(),
            malformed: false,
        }),
    decreases packets.len(),
{
    if packets.len() == 0 {
        assert(spec_drain(Seq::empty()).packets =~= packets);
    } else {
        let first = packets[0];
        let later = packets.skip(1);
        let tail = spec_encode_all(later);
        assert(first.wf());
        assert forall|i: int| 0 <= i < later.len() implies (#[trigger] later[i]).wf() by {
            assert(later[i] == packets[i + 1]);
        }
        lemma_drain_in_order(later);
        lemma_following_bytes_untouched(first, tail);
        lemma_frame_consumes(spec_encode(first) + tail);
        assert(seq![first] + later =~= packets);
    }
}

} // verus!
