//! The unreliable datagram format and the per-channel ordering rule.
//!
//! One datagram carries a payload followed by a 4-byte big-endian channel
//! id and a 4-byte big-endian sequence counter. Counter `0` marks plain
//! unordered traffic. Ordered traffic carries counters that start at `1`,
//! grow by one per send, wrap around the 32-bit boundary, and skip `0`.
//! A receiver drops an ordered datagram whose counter sits a short way
//! behind the newest counter seen on its channel; a large gap backwards is
//! read as a wraparound of newer traffic and accepted.

use std::collections::HashMap;
use vstd::prelude::*;

use crate::wire::be32_bytes;
use crate::wire::i32_of_word;
use crate::wire::lemma_be32_bytes_of_value;
use crate::wire::lemma_i32_word_round_trip;
use crate::wire::u32_of_be;
use crate::wire::word_of_i32;
use crate::wire::word_to_i32;

verus! {

broadcast use vstd::std_specs::hash::group_hash_axioms;

/// Gap below the newest counter within which an ordered datagram counts
/// as stale rather than as wrapped-around newer traffic: a quarter of the
/// 32-bit counter space.
pub const ORDERED_WINDOW: u32 = 1073741824;

/// The bytes of one datagram: payload, then the channel id's wire word,
/// then the sequence counter, both big-endian.
pub open spec fn datagram_bytes(channel: i32, counter: u32, p: Seq<u8>) -> Seq<u8> {
    p + be32_bytes(word_of_i32(channel)) + be32_bytes(counter)
}

/// What a datagram's bytes carry: its payload, channel id and counter;
/// nothing if the bytes cannot even hold the 8-byte trailer.
pub open spec fn parse_datagram(b: Seq<u8>) -> Option<(Seq<u8>, i32, u32)> {
    if b.len() < 8 {
        None
    } else {
        let n = b.len() as int;
        Some(
            (
                b.subrange(0, n - 8),
                i32_of_word(u32_of_be(b[n - 8], b[n - 7], b[n - 6], b[n - 5])),
                u32_of_be(b[n - 4], b[n - 3], b[n - 2], b[n - 1]),
            ),
        )
    }
}

/// The counter that follows `c` in the ordered sequence: one more,
/// wrapping at the 32-bit boundary and skipping the reserved `0`.
pub open spec fn next_counter(c: u32) -> u32 {
    if c == u32::MAX {
        1u32
    } else {
        (c + 1) as u32
    }
}

/// Whether an ordered datagram with counter `count` is delivered when the
/// newest counter seen on its channel is `last`: it is dropped only when
/// it sits behind `last` by less than the staleness window.
pub open spec fn accepts_ordered(last: u32, count: u32) -> bool {
    !(count < last && last - count < ORDERED_WINDOW)
}

/// The counter recorded for a channel, `0` where none was recorded yet.
pub open spec fn counter_of(m: Map<i32, u32>, channel: i32) -> u32 {
    if m.contains_key(channel) {
        m[channel]
    } else {
        0
    }
}

/// A parsed datagram's bytes are exactly the datagram encoding of what
/// was parsed out of them.
pub proof fn lemma_parse_encodes_back(b: Seq<u8>)
    requires
        b.len() >= 8,
    ensures
        ({
            let (p, channel, counter) = parse_datagram(b).unwrap();
            b == datagram_bytes(channel, counter, p)
        }),
{
    let n = b.len() as int;
    let (p, channel, counter) = parse_datagram(b).unwrap();
    lemma_be32_bytes_of_value(b[n - 8], b[n - 7], b[n - 6], b[n - 5]);
    lemma_be32_bytes_of_value(b[n - 4], b[n - 3], b[n - 2], b[n - 1]);
    crate::wire::lemma_word_i32_round_trip(u32_of_be(b[n - 8], b[n - 7], b[n - 6], b[n - 5]));
    assert(b =~= datagram_bytes(channel, counter, p));
}

/// A datagram's encoding parses back to exactly what was sent.
pub proof fn lemma_datagram_round_trip(channel: i32, counter: u32, p: Seq<u8>)
    ensures
        parse_datagram(datagram_bytes(channel, counter, p)) == Some((p, channel, counter)),
{
    let b = datagram_bytes(channel, counter, p);
    let n = b.len() as int;
    let w = word_of_i32(channel);
    crate::wire::lemma_be32_round_trip(w);
    crate::wire::lemma_be32_round_trip(counter);
    lemma_i32_word_round_trip(channel);
    assert(b.subrange(0, n - 8) =~= p);
    assert(b[n - 8] == be32_bytes(w)[0] && b[n - 7] == be32_bytes(w)[1] && b[n - 6] == be32_bytes(
        w,
    )[2] && b[n - 5] == be32_bytes(w)[3]);
    assert(b[n - 4] == be32_bytes(counter)[0] && b[n - 3] == be32_bytes(counter)[1] && b[n - 2]
        == be32_bytes(counter)[2] && b[n - 1] == be32_bytes(counter)[3]);
}

/// Appends the channel and counter trailer to a payload, making one
/// datagram.
pub fn encode_datagram(channel: i32, counter: u32, payload: Vec<u8>) -> (r: Vec<u8>)
    requires
        payload@.len() + 8 <= usize::MAX,
    ensures
        r@ == datagram_bytes(channel, counter, payload@),
{
    let ghost p0 = payload@;
    let mut out = payload;
    crate::wire::push_be32(&mut out, crate::wire::i32_to_word(channel));
    crate::wire::push_be32(&mut out, counter);
    assert(out@ =~= datagram_bytes(channel, counter, p0));
    out
}

/// Splits one datagram into payload, channel id and counter; nothing if
/// it is shorter than its 8-byte trailer.
pub fn decode_datagram(b: &Vec<u8>) -> (r: Option<(Vec<u8>, i32, u32)>)
    ensures
        r is Some <==> b@.len() >= 8,
        match r {
            Some(d) => parse_datagram(b@) == Some((d.0@, d.1, d.2)),
            None => true,
        },
{
    let n = b.len();
    if n < 8 {
        return None;
    }
    let mut payload: Vec<u8> = Vec::new();
    let mut i: usize = 0;
    while i < n - 8
        invariant
            i <= n - 8,
            n == b@.len(),
            n >= 8,
            payload@ == b@.subrange(0, i as int),
        decreases n - 8 - i,
    {
        payload.push(b[i]);
        i = i + 1;
        assert(payload@ =~= b@.subrange(0, i as int));
    }
    let channel = word_to_i32(crate::wire::decode_be32(b[n - 8], b[n - 7], b[n - 6], b[n - 5]));
    let counter = crate::wire::decode_be32(b[n - 4], b[n - 3], b[n - 2], b[n - 1]);
    Some((payload, channel, counter))
}

/// Outbound state of the unreliable path: the newest ordered counter
/// handed out per channel.
pub struct UnreliableSender {
    counters: HashMap<i32, u32>,
}

impl View for UnreliableSender {
    type V = Map<i32, u32>;

    closed spec fn view(&self) -> Map<i32, u32> {
        self.counters@
    }
}

impl UnreliableSender {
    /// A sender that has handed out no ordered counters yet.
    pub fn new() -> (r: UnreliableSender)
        ensures
            r@ == Map::<i32, u32>::empty(),
    {
        UnreliableSender { counters: HashMap::new() }
    }

    /// Builds the datagram for one send. Unordered traffic carries
    /// counter `0` and leaves the sender unchanged; ordered traffic
    /// carries the channel's next counter, which is recorded and is
    /// never `0`.
    pub fn prepare(&mut self, channel: i32, ordered: bool, payload: Vec<u8>) -> (r: Vec<u8>)
        requires
            payload@.len() + 8 <= usize::MAX,
        ensures
            !ordered ==> r@ == datagram_bytes(channel, 0, payload@) && final(self)@ == old(self)@,
            ordered ==> ({
                let c = next_counter(counter_of(old(self)@, channel));
                r@ == datagram_bytes(channel, c, payload@) && final(self)@ == old(self)@.insert(
                    channel,
                    c,
                ) && c != 0
            }),
    {
        if !ordered {
            encode_datagram(channel, 0, payload)
        } else {
            let cur: u32 = match self.counters.get(&channel) {
                Some(c) => *c,
                None => 0,
            };
            let next: u32 = if cur == u32::MAX {
                1
            } else {
                cur + 1
            };
            self.counters.insert(channel, next);
            encode_datagram(channel, next, payload)
        }
    }
}

/// What the receiving side does with one inbound datagram.
pub enum DatagramDecision {
    /// Too short to carry its 8-byte trailer: the unreliable path is
    /// treated as broken and reads nothing further.
    Malformed,
    /// Delivered as plain unordered traffic.
    DeliverUnreliable { channel: i32, payload: Vec<u8> },
    /// Delivered as ordered traffic, newest on its channel.
    DeliverOrdered { channel: i32, payload: Vec<u8> },
    /// An ordered datagram from the channel's recent past: dropped.
    Stale,
}

/// Inbound state of the unreliable path: the newest ordered counter seen
/// per channel.
pub struct UnreliableReceiver {
    last_seen: HashMap<i32, u32>,
}

impl View for UnreliableReceiver {
    type V = Map<i32, u32>;

    closed spec fn view(&self) -> Map<i32, u32> {
        self.last_seen@
    }
}

impl UnreliableReceiver {
    /// A receiver that has seen no ordered traffic yet.
    pub fn new() -> (r: UnreliableReceiver)
        ensures
            r@ == Map::<i32, u32>::empty(),
    {
        UnreliableReceiver { last_seen: HashMap::new() }
    }

    /// Decides one inbound datagram: splits off its trailer, delivers
    /// unordered traffic unconditionally, and delivers ordered traffic
    /// exactly when the staleness rule accepts its counter, recording the
    /// counter as the channel's newest.
    pub fn on_datagram(&mut self, bytes: &Vec<u8>) -> (r: DatagramDecision)
        ensures
            bytes@.len() < 8 ==> r is Malformed && final(self)@ == old(self)@,
            bytes@.len() >= 8 ==> ({
                let (p, channel, counter) = parse_datagram(bytes@).unwrap();
                if counter == 0 {
                    r matches DatagramDecision::DeliverUnreliable { channel: ch, payload }
                        && ch == channel && payload@ == p && final(self)@ == old(self)@
                } else if accepts_ordered(counter_of(old(self)@, channel), counter) {
                    r matches DatagramDecision::DeliverOrdered { channel: ch, payload }
                        && ch == channel && payload@ == p && final(self)@ == old(self)@.insert(
                        channel,
                        counter,
                    )
                } else {
                    r is Stale && final(self)@ == old(self)@
                }
            }),
    {
        match decode_datagram(bytes) {
            None => DatagramDecision::Malformed,
            Some((payload, channel, counter)) => {
                if counter == 0 {
                    DatagramDecision::DeliverUnreliable { channel, payload }
                } else {
                    let last: u32 = match self.last_seen.get(&channel) {
                        Some(c) => *c,
                        None => 0,
                    };
                    if counter < last && last - counter < ORDERED_WINDOW {
                        DatagramDecision::Stale
                    } else {
                        self.last_seen.insert(channel, counter);
                        DatagramDecision::DeliverOrdered { channel, payload }
                    }
                }
            },
        }
    }
}

/// On a fresh channel, ordered datagrams that arrive in the order they
/// were numbered are both delivered: the first is never stale, and a
/// counter ahead of the newest seen is never stale.
pub proof fn lemma_ordered_in_order_delivered(c1: u32, c2: u32)
    requires
        c1 < c2,
    ensures
        accepts_ordered(0, c1),
        accepts_ordered(c1, c2),
{
}

/// When the later-numbered of two ordered datagrams arrives first and the
/// two counters lie within the staleness window, the earlier one is
/// dropped on arrival.
pub proof fn lemma_ordered_out_of_order_dropped(c1: u32, c2: u32)
    requires
        c1 < c2,
        c2 - c1 < ORDERED_WINDOW,
    ensures
        accepts_ordered(0, c2),
        !accepts_ordered(c2, c1),
{
}

/// A counter that has wrapped past zero while the newest seen sits near
/// the top of the counter space lies far outside the staleness window,
/// and is accepted.
pub proof fn lemma_wraparound_accepted(last: u32, count: u32)
    requires
        count < last,
        last - count >= ORDERED_WINDOW,
    ensures
        accepts_ordered(last, count),
{
}

/// A datagram that arrives right after the one numbered before it is
/// always delivered, even across the counter wrap: in-order traffic is
/// never dropped.
pub proof fn lemma_next_counter_accepted(c: u32)
    ensures
        accepts_ordered(c, next_counter(c)),
{
}

/// The ordered counter a sender hands out is never the reserved `0`, and
/// successive counters below the wrap boundary grow by exactly one.
pub proof fn lemma_counter_monotonic(c: u32)
    ensures
        next_counter(c) != 0,
        c < u32::MAX ==> next_counter(c) == c + 1,
        c == u32::MAX ==> next_counter(c) == 1,
{
}

} // verus!
