//! The reliable per-channel stream format and its incremental reader.
//!
//! One reliable stream carries, in order: a 4-byte big-endian channel id
//! written exactly once, then one frame per packet, each frame a 2-byte
//! big-endian length prefix followed by exactly that many payload bytes.
//! A reader rejects any declared length above the reliable payload bound
//! and reads nothing further from that stream.

use vstd::prelude::*;

use crate::wire::be16_bytes;
use crate::wire::be32_bytes;
use crate::wire::decode_be16;
use crate::wire::decode_be32;
use crate::wire::i32_of_word;
use crate::wire::lemma_be16_round_trip;
use crate::wire::u16_of_be;
use crate::wire::u32_of_be;
use crate::wire::word_of_i32;
use crate::wire::word_to_i32;

verus! {

/// Largest payload a reader accepts in one reliable frame.
pub const MAX_RELIABLE_PAYLOAD: u16 = 1024;

/// The frame carrying one payload: a 2-byte big-endian length prefix,
/// then the payload itself.
pub open spec fn frame_bytes(p: Seq<u8>) -> Seq<u8>
    recommends
        p.len() <= u16::MAX,
{
    be16_bytes(p.len() as u16) + p
}

/// The 4-byte big-endian channel-id header that opens a reliable stream.
pub open spec fn stream_header_bytes(channel: i32) -> Seq<u8> {
    be32_bytes(word_of_i32(channel))
}

/// What a reader expects next from its stream.
#[derive(Clone, Copy, PartialEq, Eq, Structural, Debug)]
pub enum ReaderPhase {
    /// The 4-byte channel-id header.
    Header,
    /// A 2-byte frame length prefix.
    Length,
    /// The declared number of payload bytes.
    Payload,
    /// Nothing: the stream was rejected for an oversized declared length.
    Failed,
}

/// Incremental reader for one reliable stream.
///
/// A driver repeatedly reads exactly `needed()` bytes from the stream and
/// hands them to `feed`; `feed` never asks for I/O itself, so the caller
/// stays free to read without blocking anything else.
#[derive(PartialEq, Eq, Structural)]
pub struct StreamReader {
    /// What the reader expects next.
    pub phase: ReaderPhase,
    /// The stream's channel id, once the header has been read.
    pub channel: i32,
    /// The declared payload length while a payload is expected.
    pub want: u16,
}

/// What one call of `feed` produced, stated over mathematical values.
pub enum StepEvent {
    /// The stream's channel id was read from the header.
    Channel(i32),
    /// A length prefix was accepted; the payload is still to come.
    Await,
    /// One complete frame payload, exactly as it appeared on the wire.
    Frame(Seq<u8>),
    /// The declared length exceeds the payload bound: the stream is rejected.
    Oversized,
}

/// What one call of `feed` produced.
pub enum FeedEvent {
    /// The stream's channel id was read from the header.
    Channel(i32),
    /// A length prefix was accepted; the payload is still to come.
    Await,
    /// One complete frame payload, exactly as it appeared on the wire.
    Frame(Vec<u8>),
    /// The declared length exceeds the payload bound: the stream is rejected.
    Oversized,
}

impl View for FeedEvent {
    type V = StepEvent;

    open spec fn view(&self) -> StepEvent {
        match self {
            FeedEvent::Channel(c) => StepEvent::Channel(*c),
            FeedEvent::Await => StepEvent::Await,
            FeedEvent::Frame(p) => StepEvent::Frame(p@),
            FeedEvent::Oversized => StepEvent::Oversized,
        }
    }
}

/// The state of a reader on a stream of which nothing has been read.
pub open spec fn initial_reader() -> StreamReader {
    StreamReader { phase: ReaderPhase::Header, channel: 0, want: 0 }
}

/// How many bytes a reader in a given state consumes in one step.
pub open spec fn spec_needed(r: StreamReader) -> usize {
    match r.phase {
        ReaderPhase::Header => 4,
        ReaderPhase::Length => 2,
        ReaderPhase::Payload => r.want as usize,
        ReaderPhase::Failed => 0,
    }
}

/// The reader's transition: the state after consuming one exact read,
/// and what that read produced.
pub open spec fn spec_feed(r: StreamReader, bytes: Seq<u8>) -> (StreamReader, StepEvent)
    recommends
        bytes.len() == spec_needed(r),
        !(r.phase is Failed),
{
    match r.phase {
        ReaderPhase::Header => {
            let channel = i32_of_word(u32_of_be(bytes[0], bytes[1], bytes[2], bytes[3]));
            (
                StreamReader { phase: ReaderPhase::Length, channel, want: 0 },
                StepEvent::Channel(channel),
            )
        },
        ReaderPhase::Length => {
            let n = u16_of_be(bytes[0], bytes[1]);
            if n > MAX_RELIABLE_PAYLOAD {
                (StreamReader { phase: ReaderPhase::Failed, ..r }, StepEvent::Oversized)
            } else {
                (StreamReader { phase: ReaderPhase::Payload, channel: r.channel, want: n }, StepEvent::Await)
            }
        },
        ReaderPhase::Payload => {
            (StreamReader { phase: ReaderPhase::Length, channel: r.channel, want: 0 }, StepEvent::Frame(bytes))
        },
        ReaderPhase::Failed => (r, StepEvent::Await),
    }
}

impl StreamReader {
    /// A reader for a stream of which nothing has been read yet.
    pub fn new() -> (r: StreamReader)
        ensures
            r == initial_reader(),
    {
        StreamReader { phase: ReaderPhase::Header, channel: 0, want: 0 }
    }

    /// How many bytes to read from the stream before the next `feed`.
    pub fn needed(&self) -> (r: usize)
        ensures
            r == spec_needed(*self),
    {
        match self.phase {
            ReaderPhase::Header => 4,
            ReaderPhase::Length => 2,
            ReaderPhase::Payload => self.want as usize,
            ReaderPhase::Failed => 0,
        }
    }

    /// Consumes exactly the bytes asked for by `needed` and reports what
    /// they completed. A declared frame length above
    /// `MAX_RELIABLE_PAYLOAD` rejects the stream: the reader moves to
    /// `Failed` and asks for nothing further.
    pub fn feed(&mut self, bytes: Vec<u8>) -> (r: FeedEvent)
        requires
            !(old(self).phase is Failed),
            bytes@.len() == spec_needed(*old(self)),
        ensures
            *final(self) == spec_feed(*old(self), bytes@).0,
            r@ == spec_feed(*old(self), bytes@).1,
    {
        match self.phase {
            ReaderPhase::Header => {
                let channel = word_to_i32(decode_be32(bytes[0], bytes[1], bytes[2], bytes[3]));
                self.phase = ReaderPhase::Length;
                self.channel = channel;
                self.want = 0;
                FeedEvent::Channel(channel)
            },
            ReaderPhase::Length => {
                let n = decode_be16(bytes[0], bytes[1]);
                if n > MAX_RELIABLE_PAYLOAD {
                    self.phase = ReaderPhase::Failed;
                    FeedEvent::Oversized
                } else {
                    self.phase = ReaderPhase::Payload;
                    self.want = n;
                    FeedEvent::Await
                }
            },
            ReaderPhase::Payload => {
                self.phase = ReaderPhase::Length;
                self.want = 0;
                FeedEvent::Frame(bytes)
            },
            ReaderPhase::Failed => {
                proof {
                    assert(false);
                }
                FeedEvent::Await
            },
        }
    }
}

/// Appends one frame for the payload: length prefix then payload bytes.
pub fn push_frame(out: &mut Vec<u8>, payload: &Vec<u8>)
    requires
        payload@.len() <= u16::MAX,
        old(out)@.len() + payload@.len() + 2 <= usize::MAX,
    ensures
        final(out)@ == old(out)@ + frame_bytes(payload@),
{
    crate::wire::push_be16(out, payload.len() as u16);
    let mut i: usize = 0;
    while i < payload.len()
        invariant
            i <= payload@.len(),
            payload@.len() <= u16::MAX,
            out@ == old(out)@ + be16_bytes(payload@.len() as u16) + payload@.subrange(0, i as int),
        decreases payload@.len() - i,
    {
        out.push(payload[i]);
        i = i + 1;
        assert(out@ =~= old(out)@ + be16_bytes(payload@.len() as u16) + payload@.subrange(
            0,
            i as int,
        ));
    }
    assert(payload@.subrange(0, payload@.len() as int) =~= payload@);
    assert(out@ =~= old(out)@ + frame_bytes(payload@));
}

/// The frame carrying one payload, as a fresh vector.
pub fn encode_frame(payload: &Vec<u8>) -> (r: Vec<u8>)
    requires
        payload@.len() <= u16::MAX,
    ensures
        r@ == frame_bytes(payload@),
{
    let mut out: Vec<u8> = Vec::new();
    push_frame(&mut out, payload);
    assert(out@ =~= frame_bytes(payload@));
    out
}

/// The 4-byte channel-id header that opens a reliable stream.
pub fn encode_stream_header(channel: i32) -> (r: Vec<u8>)
    ensures
        r@ == stream_header_bytes(channel),
{
    crate::wire::encode_be32(crate::wire::i32_to_word(channel))
}

/// The exact reads that carry the frames of the given payloads: for each
/// payload, its length prefix, then its bytes.
pub open spec fn frame_segments(payloads: Seq<Seq<u8>>) -> Seq<Seq<u8>>
    decreases payloads.len(),
{
    if payloads.len() == 0 {
        Seq::empty()
    } else {
        seq![be16_bytes(payloads[0].len() as u16), payloads[0]] + frame_segments(
            payloads.subrange(1, payloads.len() as int),
        )
    }
}

/// The frames of the given payloads, laid out back to back.
pub open spec fn frames_concat(payloads: Seq<Seq<u8>>) -> Seq<u8>
    decreases payloads.len(),
{
    if payloads.len() == 0 {
        Seq::empty()
    } else {
        frame_bytes(payloads[0]) + frames_concat(payloads.subrange(1, payloads.len() as int))
    }
}

/// The contiguous bytes of one reliable stream carrying the payloads:
/// the channel header, then every frame in send order.
pub open spec fn stream_bytes(channel: i32, payloads: Seq<Seq<u8>>) -> Seq<u8> {
    stream_header_bytes(channel) + frames_concat(payloads)
}

/// The exact reads of the frames are a re-chunking of the frames' bytes:
/// flattened, the segments are the frames laid back to back.
pub proof fn lemma_frame_segments_flatten(payloads: Seq<Seq<u8>>)
    ensures
        frame_segments(payloads).flatten() == frames_concat(payloads),
    decreases payloads.len(),
{
    if payloads.len() == 0 {
        assert(frame_segments(payloads).flatten() =~= frames_concat(payloads));
    } else {
        let p0 = payloads[0];
        let rest = payloads.subrange(1, payloads.len() as int);
        let prefix = be16_bytes(p0.len() as u16);
        let segs = frame_segments(payloads);
        lemma_frame_segments_flatten(rest);
        assert(segs.first() == prefix);
        assert(segs.drop_first() =~= seq![p0] + frame_segments(rest));
        let tail = seq![p0] + frame_segments(rest);
        assert(tail.first() == p0);
        assert(tail.drop_first() =~= frame_segments(rest));
        assert(segs.flatten() == prefix + tail.flatten());
        assert(tail.flatten() == p0 + frame_segments(rest).flatten());
        assert(segs.flatten() =~= frames_concat(payloads));
    }
}

/// The exact reads a reader makes of a whole stream — header first, then
/// each length prefix and payload — are a re-chunking of the stream's
/// bytes: flattened, they are exactly what the sender wrote.
pub proof fn lemma_segments_flatten_to_stream(channel: i32, payloads: Seq<Seq<u8>>)
    ensures
        (seq![stream_header_bytes(channel)] + frame_segments(payloads)).flatten() == stream_bytes(
            channel,
            payloads,
        ),
{
    let inputs = seq![stream_header_bytes(channel)] + frame_segments(payloads);
    lemma_frame_segments_flatten(payloads);
    assert(inputs.first() == stream_header_bytes(channel));
    assert(inputs.drop_first() =~= frame_segments(payloads));
    assert(inputs.flatten() == stream_header_bytes(channel) + frame_segments(payloads).flatten());
    assert(inputs.flatten() =~= stream_bytes(channel, payloads));
}

/// The frames a reader delivers over a sequence of exact reads, with the
/// state it ends in.
pub open spec fn run_frames(r: StreamReader, inputs: Seq<Seq<u8>>) -> (StreamReader, Seq<Seq<u8>>)
    decreases inputs.len(),
{
    if inputs.len() == 0 {
        (r, Seq::empty())
    } else {
        let (r1, e) = spec_feed(r, inputs[0]);
        let (r2, frames) = run_frames(r1, inputs.subrange(1, inputs.len() as int));
        match e {
            StepEvent::Frame(p) => (r2, seq![p] + frames),
            _ => (r2, frames),
        }
    }
}

/// A reader that expects a length prefix delivers, over the exact reads of
/// any in-bound payloads, exactly those payloads in order, and ends where
/// it began: expecting a length prefix on the same channel.
pub proof fn lemma_frames_round_trip(r: StreamReader, payloads: Seq<Seq<u8>>)
    requires
        r.phase is Length,
        r.want == 0,
        forall|i: int| 0 <= i < payloads.len() ==> #[trigger] payloads[i].len()
            <= MAX_RELIABLE_PAYLOAD,
    ensures
        run_frames(r, frame_segments(payloads)) == (r, payloads),
    decreases payloads.len(),
{
    if payloads.len() == 0 {
        assert(run_frames(r, frame_segments(payloads)) == (r, Seq::<Seq<u8>>::empty()));
        assert(payloads =~= Seq::<Seq<u8>>::empty());
    } else {
        let p0 = payloads[0];
        let rest = payloads.subrange(1, payloads.len() as int);
        let segs = frame_segments(payloads);
        let prefix = be16_bytes(p0.len() as u16);
        lemma_be16_round_trip(p0.len() as u16);
        assert(u16_of_be(prefix[0], prefix[1]) == p0.len() as u16);
        let (r1, e1) = spec_feed(r, segs[0]);
        assert(segs[0] == prefix);
        assert(r1.phase is Payload && r1.want == p0.len() as u16 && r1.channel == r.channel);
        assert(e1 is Await);
        let tail = segs.subrange(1, segs.len() as int);
        assert(tail[0] == p0);
        let (r2, e2) = spec_feed(r1, tail[0]);
        assert(r2 == StreamReader { phase: ReaderPhase::Length, channel: r.channel, want: 0 });
        assert(r2 == r);
        assert(e2 == StepEvent::Frame(p0));
        let tail2 = tail.subrange(1, tail.len() as int);
        assert(tail2 =~= frame_segments(rest));
        lemma_frames_round_trip(r, rest);
        assert(run_frames(r1, tail).1 =~= seq![p0] + payloads.subrange(1, payloads.len() as int));
        assert(run_frames(r, segs).1 =~= payloads);
        assert(run_frames(r, segs).0 == r);
    }
}

/// A whole reliable stream round-trips: a fresh reader, over the exact
/// reads of a stream header and any in-bound payloads, reports the
/// channel id and then exactly those payloads in order.
pub proof fn lemma_stream_round_trip(channel: i32, payloads: Seq<Seq<u8>>)
    requires
        forall|i: int| 0 <= i < payloads.len() ==> #[trigger] payloads[i].len()
            <= MAX_RELIABLE_PAYLOAD,
    ensures
        ({
            let inputs = seq![stream_header_bytes(channel)] + frame_segments(payloads);
            let (end, frames) = run_frames(initial_reader(), inputs);
            frames == payloads && end == (StreamReader {
                phase: ReaderPhase::Length,
                channel,
                want: 0,
            })
        }),
{
    let inputs = seq![stream_header_bytes(channel)] + frame_segments(payloads);
    let header = stream_header_bytes(channel);
    crate::wire::lemma_be32_round_trip(word_of_i32(channel));
    crate::wire::lemma_i32_word_round_trip(channel);
    assert(u32_of_be(header[0], header[1], header[2], header[3]) == word_of_i32(channel));
    let (r1, e1) = spec_feed(initial_reader(), inputs[0]);
    assert(r1 == StreamReader { phase: ReaderPhase::Length, channel, want: 0 });
    let tail = inputs.subrange(1, inputs.len() as int);
    assert(tail =~= frame_segments(payloads));
    lemma_frames_round_trip(r1, payloads);
}

/// A declared frame length above the bound rejects the stream: the reader
/// reports the oversize, moves to `Failed`, and asks for nothing further.
pub proof fn lemma_oversized_rejects_stream(r: StreamReader, bytes: Seq<u8>)
    requires
        r.phase is Length,
        bytes.len() == 2,
        u16_of_be(bytes[0], bytes[1]) > MAX_RELIABLE_PAYLOAD,
    ensures
        spec_feed(r, bytes).0.phase is Failed,
        spec_feed(r, bytes).1 is Oversized,
        spec_needed(spec_feed(r, bytes).0) == 0,
{
}

} // verus!
