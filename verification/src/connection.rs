//! One peer-to-peer connection: its handshake, its human-readable
//! connection string, and the outbound half of its channel transport.
//!
//! The accepting side of a handshake opens one unidirectional stream and
//! writes the assigned peer id as a bare 4-byte big-endian integer. A
//! connection string names an endpoint by the URL-safe unpadded base64
//! form of its 32-byte node id.
//!
//! The outbound transport lazily starts one reliable stream per channel —
//! a stream, once started, serves its channel for the transport's whole
//! life — and numbers ordered datagrams per channel.

use vstd::prelude::*;

use crate::TransferMode;
use crate::datagram::UnreliableSender;
use crate::datagram::counter_of;
use crate::datagram::datagram_bytes;
use crate::datagram::next_counter;
use crate::stream::frame_bytes;
use crate::stream::stream_header_bytes;
use crate::wire::be32_bytes;
use crate::wire::i32_of_word;
use crate::wire::u32_of_be;
use crate::wire::word_of_i32;

verus! {

/// The accepting side's handshake message: the assigned peer id as a
/// bare 4-byte big-endian integer, no framing around it.
pub open spec fn handshake_bytes(peer_id: i32) -> Seq<u8> {
    be32_bytes(word_of_i32(peer_id))
}

/// The handshake message assigning a peer id.
pub fn encode_handshake(peer_id: i32) -> (r: Vec<u8>)
    ensures
        r@ == handshake_bytes(peer_id),
{
    crate::wire::encode_be32(crate::wire::i32_to_word(peer_id))
}

/// The peer id a handshake message assigns: the unique id whose
/// handshake message is exactly these four bytes.
pub fn decode_handshake(b: &Vec<u8>) -> (r: i32)
    requires
        b@.len() == 4,
    ensures
        handshake_bytes(r) == b@,
{
    let r = crate::wire::word_to_i32(crate::wire::decode_be32(b[0], b[1], b[2], b[3]));
    proof {
        crate::wire::lemma_be32_bytes_of_value(b@[0], b@[1], b@[2], b@[3]);
        crate::wire::lemma_word_i32_round_trip(u32_of_be(b@[0], b@[1], b@[2], b@[3]));
        assert(handshake_bytes(r) =~= b@);
    }
    r
}

/// What the URL-safe unpadded base64 encoding makes of a byte sequence.
pub uninterp spec fn base64_url_of(b: Seq<u8>) -> Seq<char>;

/// Relies on base64's `Engine::encode` with the `URL_SAFE_NO_PAD`
/// engine: the output is a function of the input bytes alone, four
/// characters per three input bytes with a shortened final group and no
/// padding.
#[verifier::external_body]
fn b64_encode(b: &Vec<u8>) -> (r: String)
    requires
        b@.len() <= 0x10000000,
    ensures
        r@ == base64_url_of(b@),
        r@.len() == 4 * (b@.len() / 3) + (if b@.len() % 3 == 0 {
            0int
        } else {
            b@.len() % 3 + 1int
        }),
{
    base64::Engine::encode(&base64::engine::general_purpose::URL_SAFE_NO_PAD, b)
}

/// Relies on base64's `Engine::decode` with the `URL_SAFE_NO_PAD`
/// engine: it accepts exactly the encodings that `Engine::encode` with
/// that engine produces, and inverts them.
#[verifier::external_body]
fn b64_decode(s: &str) -> (r: Result<Vec<u8>, ()>)
    ensures
        r is Ok ==> base64_url_of(r->Ok_0@) == s@,
        forall|b: Seq<u8>| s@ == base64_url_of(b) ==> r is Ok && r->Ok_0@ == b,
{
    match base64::Engine::decode(&base64::engine::general_purpose::URL_SAFE_NO_PAD, s) {
        Ok(v) => Ok(v),
        Err(_) => Err(()),
    }
}

/// Why a connection attempt never started.
#[derive(Clone, Copy, PartialEq, Eq, Structural, Debug)]
pub enum ConnectError {
    /// The connection string is not the encoding of a 32-byte node id.
    InvalidConnectionString,
}

impl ConnectError {
    /// The human-readable message for this error.
    pub fn message(&self) -> (r: String)
        ensures
            r@ == "invalid connection string"@,
            r@.len() > 0,
    {
        let r: String = "invalid connection string".to_string();
        proof {
            reveal_strlit("invalid connection string");
        }
        r
    }
}

/// The connection string that names an endpoint: the URL-safe unpadded
/// base64 form of its 32-byte node id, always 43 characters.
pub fn connection_string_of(node_id: &Vec<u8>) -> (r: String)
    requires
        node_id@.len() == 32,
    ensures
        r@ == base64_url_of(node_id@),
        r@.len() == 43,
{
    b64_encode(node_id)
}

/// The 32-byte node id a connection string names. Exactly the encodings
/// of 32-byte ids are accepted: anything else is an invalid connection
/// string.
pub fn parse_connection_string(s: &str) -> (r: Result<Vec<u8>, ConnectError>)
    ensures
        match r {
            Ok(v) => v@.len() == 32 && base64_url_of(v@) == s@,
            Err(e) => e is InvalidConnectionString,
        },
        forall|b: Seq<u8>| b.len() == 32 && s@ == base64_url_of(b) ==> (r matches Ok(v) && v@
            == b),
{
    match b64_decode(s) {
        Err(_) => Err(ConnectError::InvalidConnectionString),
        Ok(v) => {
            if v.len() == 32 {
                Ok(v)
            } else {
                Err(ConnectError::InvalidConnectionString)
            }
        },
    }
}

/// What a transport does for one outbound packet.
pub enum SendAction {
    /// Open a new unidirectional stream for the channel and write these
    /// bytes: the stream header followed by the first frame.
    OpenStream { channel: i32, bytes: Vec<u8> },
    /// Write these bytes — one frame — onto the channel's existing
    /// stream.
    WriteStream { channel: i32, bytes: Vec<u8> },
    /// Transmit these bytes as one unreliable datagram.
    SendDatagram { bytes: Vec<u8> },
}

/// The outbound half of one connection's channel transport: which
/// channels already have a reliable stream, and the ordered datagram
/// counters.
pub struct ChannelTransport {
    reliable_channels: Vec<i32>,
    unreliable: UnreliableSender,
}

impl ChannelTransport {
    /// The channels whose reliable stream has been started.
    pub closed spec fn spec_channels(self) -> Set<i32> {
        self.reliable_channels@.to_set()
    }

    /// The ordered datagram counters handed out so far.
    pub closed spec fn spec_counters(self) -> Map<i32, u32> {
        self.unreliable@
    }

    /// A transport with no streams started and no counters handed out.
    pub fn new() -> (r: ChannelTransport)
        ensures
            r.spec_channels() == Set::<i32>::empty(),
            r.spec_counters() == Map::<i32, u32>::empty(),
    {
        let r = ChannelTransport { reliable_channels: Vec::new(), unreliable: UnreliableSender::new() };
        proof {
            assert(r.spec_channels() =~= Set::<i32>::empty());
        }
        r
    }

    /// Whether the channel's reliable stream has been started.
    fn has_reliable_channel(&self, channel: i32) -> (r: bool)
        ensures
            r == self.spec_channels().contains(channel),
    {
        let mut i: usize = 0;
        while i < self.reliable_channels.len()
            invariant
                i <= self.reliable_channels@.len(),
                forall|j: int| 0 <= j < i ==> self.reliable_channels@[j] != channel,
            decreases self.reliable_channels@.len() - i,
        {
            if self.reliable_channels[i] == channel {
                proof {
                    assert(self.reliable_channels@.contains(channel));
                }
                return true;
            }
            i = i + 1;
        }
        proof {
            assert(!self.reliable_channels@.contains(channel));
        }
        false
    }

    /// The bytes one outbound packet puts on the wire, and where they
    /// go. The first reliable send on a channel opens that channel's
    /// stream, carrying the stream header before the frame; every later
    /// one reuses the stream. Unreliable sends become one datagram each,
    /// ordered ones numbered by the channel's counter.
    pub fn send_packet(&mut self, channel: i32, mode: TransferMode, payload: Vec<u8>) -> (r:
        SendAction)
        requires
            mode is Reliable ==> payload@.len() <= u16::MAX,
            !(mode is Reliable) ==> payload@.len() + 8 <= usize::MAX,
        ensures
            mode is Reliable ==> final(self).spec_counters() == old(self).spec_counters(),
            mode is Reliable && !old(self).spec_channels().contains(channel) ==> ({
                &&& r matches SendAction::OpenStream { channel: ch, bytes }
                &&& ch == channel
                &&& bytes@ == stream_header_bytes(channel) + frame_bytes(payload@)
                &&& final(self).spec_channels() == old(self).spec_channels().insert(channel)
            }),
            mode is Reliable && old(self).spec_channels().contains(channel) ==> ({
                &&& r matches SendAction::WriteStream { channel: ch, bytes }
                &&& ch == channel
                &&& bytes@ == frame_bytes(payload@)
                &&& final(self).spec_channels() == old(self).spec_channels()
            }),
            !(mode is Reliable) ==> final(self).spec_channels() == old(self).spec_channels(),
            mode is UnreliableOrdered ==> ({
                let c = next_counter(counter_of(old(self).spec_counters(), channel));
                &&& r matches SendAction::SendDatagram { bytes }
                &&& bytes@ == datagram_bytes(channel, c, payload@)
                &&& c != 0
                &&& final(self).spec_counters() == old(self).spec_counters().insert(channel, c)
            }),
            mode is Unreliable ==> ({
                &&& r matches SendAction::SendDatagram { bytes }
                &&& bytes@ == datagram_bytes(channel, 0, payload@)
                &&& final(self).spec_counters() == old(self).spec_counters()
            }),
    {
        match mode {
            TransferMode::Reliable => {
                if !self.has_reliable_channel(channel) {
                    self.reliable_channels.push(channel);
                    proof {
                        broadcast use vstd::seq_lib::lemma_seq_contains_after_push;

                        assert(self.reliable_channels@ == old(self).reliable_channels@.push(
                            channel,
                        ));
                        assert(self.reliable_channels@.to_set() =~= old(
                            self,
                        ).reliable_channels@.to_set().insert(channel));
                    }
                    let mut bytes = crate::stream::encode_stream_header(channel);
                    crate::stream::push_frame(&mut bytes, &payload);
                    SendAction::OpenStream { channel, bytes }
                } else {
                    let bytes = crate::stream::encode_frame(&payload);
                    SendAction::WriteStream { channel, bytes }
                }
            },
            TransferMode::UnreliableOrdered => {
                let bytes = self.unreliable.prepare(channel, true, payload);
                SendAction::SendDatagram { bytes }
            },
            TransferMode::Unreliable => {
                let bytes = self.unreliable.prepare(channel, false, payload);
                SendAction::SendDatagram { bytes }
            },
        }
    }
}

} // verus!
