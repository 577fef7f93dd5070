//! The single-connection client: the mirror image of the registry for a
//! process with exactly one upstream peer.
//!
//! A client is born connecting. The handshake's outcome moves it to
//! connected — adopting the peer id the accepting side minted for it —
//! or to failed, which keeps a human-readable message. A connected
//! client only ever moves to disconnected, on transport closure or an
//! explicit disconnect; failed and disconnected are terminal.

use std::collections::VecDeque;
use vstd::prelude::*;

use crate::ConnectionStatus;
use crate::TransferMode;

verus! {

broadcast use vstd::std_specs::vecdeque::group_vec_dequeue_axioms;

/// One packet the client's upstream peer delivered.
pub struct ClientPacket {
    /// The logical channel the packet was sent on.
    pub channel: i32,
    /// The delivery guarantee it was sent under.
    pub mode: TransferMode,
    /// The payload bytes, exactly as sent.
    pub payload: Vec<u8>,
}

/// Where a client stands in its connect-once lifecycle.
pub enum ClientStatus {
    /// The handshake is still in flight.
    Connecting,
    /// The handshake succeeded; the host assigned this peer id.
    Connected { peer_id: i32 },
    /// The handshake failed, with a human-readable message.
    Failed { message: String },
    /// The connection is gone: closed by the caller or by the peer.
    Disconnected,
}

/// The client's whole observable state: its lifecycle position, the
/// packets its peer delivered, and the caller's send settings.
pub struct ClientState {
    /// Where the client stands in its lifecycle.
    pub status: ClientStatus,
    /// Packets from the upstream peer, in arrival order.
    pub received: VecDeque<ClientPacket>,
    /// The channel the next outbound packet is sent on.
    pub transfer_channel: i32,
    /// The delivery guarantee the next outbound packet is sent under.
    pub transfer_mode: TransferMode,
}

impl ClientState {
    /// A client whose connection attempt was just started, with the
    /// caller's settings at their defaults.
    pub fn new_connecting() -> (r: ClientState)
        ensures
            r.status is Connecting,
            r.received@ == Seq::<ClientPacket>::empty(),
            r.transfer_channel == 0,
            r.transfer_mode is Reliable,
    {
        let r = ClientState {
            status: ClientStatus::Connecting,
            received: VecDeque::new(),
            transfer_channel: 0,
            transfer_mode: TransferMode::Reliable,
        };
        proof {
            assert(r.received@ =~= Seq::<ClientPacket>::empty());
        }
        r
    }

    /// Settles the handshake: success connects the client under the id
    /// the host assigned, failure is terminal and keeps the message.
    /// The result says whether to announce the connection.
    pub fn on_connect_result(&mut self, outcome: Result<i32, String>) -> (notify: bool)
        requires
            old(self).status is Connecting,
        ensures
            final(self).received == old(self).received,
            final(self).transfer_channel == old(self).transfer_channel,
            final(self).transfer_mode == old(self).transfer_mode,
            match outcome {
                Ok(id) => final(self).status == (ClientStatus::Connected { peer_id: id })
                    && notify,
                Err(message) => final(self).status == (ClientStatus::Failed { message })
                    && !notify,
            },
    {
        match outcome {
            Ok(id) => {
                self.status = ClientStatus::Connected { peer_id: id };
                true
            },
            Err(message) => {
                self.status = ClientStatus::Failed { message };
                false
            },
        }
    }

    /// Queues one packet the upstream peer delivered, behind everything
    /// already queued.
    pub fn on_packet(&mut self, channel: i32, mode: TransferMode, payload: Vec<u8>)
        requires
            old(self).status is Connected,
            old(self).received@.len() < usize::MAX,
        ensures
            final(self).received@ == old(self).received@.push(
                ClientPacket { channel, mode, payload },
            ),
            final(self).status == old(self).status,
            final(self).transfer_channel == old(self).transfer_channel,
            final(self).transfer_mode == old(self).transfer_mode,
    {
        self.received.push_back(ClientPacket { channel, mode, payload });
    }

    /// Records that the transport under a connected client is gone. The
    /// result says to announce the disconnection — always, here: the
    /// peer ended the connection, not the caller.
    pub fn on_transport_closed(&mut self) -> (notify: bool)
        requires
            old(self).status is Connected,
        ensures
            final(self).status is Disconnected,
            notify,
            final(self).received == old(self).received,
            final(self).transfer_channel == old(self).transfer_channel,
            final(self).transfer_mode == old(self).transfer_mode,
    {
        self.status = ClientStatus::Disconnected;
        true
    }

    /// Disconnects from the host at the caller's request. Only peer id
    /// `1` — the host — means anything to a client, and only while
    /// connected. The first result says whether a live connection must
    /// be closed; the second whether to announce the disconnection — a
    /// forced disconnect assumes the caller already knows.
    pub fn disconnect_peer(&mut self, peer_id: i32, force: bool) -> (r: (bool, bool))
        ensures
            final(self).received == old(self).received,
            final(self).transfer_channel == old(self).transfer_channel,
            final(self).transfer_mode == old(self).transfer_mode,
            peer_id == 1 && old(self).status is Connected ==> final(self).status is Disconnected
                && r == (true, !force),
            !(peer_id == 1 && old(self).status is Connected) ==> final(self).status == old(
                self,
            ).status && r == (false, false),
    {
        if peer_id != 1 {
            return (false, false);
        }
        match self.status {
            ClientStatus::Connected { .. } => {
                self.status = ClientStatus::Disconnected;
                (true, !force)
            },
            _ => (false, false),
        }
    }

    /// Closes the connection without an announcement, as when the whole
    /// endpoint is torn down. The result says whether a live connection
    /// must be closed.
    pub fn close(&mut self) -> (r: bool)
        ensures
            final(self).received == old(self).received,
            final(self).transfer_channel == old(self).transfer_channel,
            final(self).transfer_mode == old(self).transfer_mode,
            old(self).status is Connected ==> final(self).status is Disconnected && r,
            !(old(self).status is Connected) ==> final(self).status == old(self).status && !r,
    {
        let (closed, _) = self.disconnect_peer(1, true);
        closed
    }

    /// Connecting while the handshake is in flight, connected once it
    /// succeeded, disconnected once it failed or the connection is gone.
    pub fn get_connection_status(&self) -> (r: ConnectionStatus)
        ensures
            r == match self.status {
                ClientStatus::Connecting => ConnectionStatus::Connecting,
                ClientStatus::Connected { .. } => ConnectionStatus::Connected,
                ClientStatus::Failed { .. } => ConnectionStatus::Disconnected,
                ClientStatus::Disconnected => ConnectionStatus::Disconnected,
            },
    {
        match self.status {
            ClientStatus::Connecting => ConnectionStatus::Connecting,
            ClientStatus::Connected { .. } => ConnectionStatus::Connected,
            ClientStatus::Failed { .. } => ConnectionStatus::Disconnected,
            ClientStatus::Disconnected => ConnectionStatus::Disconnected,
        }
    }

    /// The handshake failure's message, empty in every other state.
    pub fn connection_error(&self) -> (r: String)
        ensures
            self.status matches ClientStatus::Failed { message } ==> r == message,
            !(self.status is Failed) ==> r@.len() == 0,
    {
        match &self.status {
            ClientStatus::Failed { message } => message.clone(),
            _ => String::new(),
        }
    }

    /// The id the host assigned, `-1` until one is.
    pub fn get_unique_id(&self) -> (r: i32)
        ensures
            self.status matches ClientStatus::Connected { peer_id } ==> r == peer_id,
            !(self.status is Connected) ==> r == -1,
    {
        match self.status {
            ClientStatus::Connected { peer_id } => peer_id,
            _ => -1,
        }
    }

    /// Whether an outbound packet goes anywhere: only a connected
    /// client sends.
    pub fn can_send(&self) -> (r: bool)
        ensures
            r == self.status is Connected,
    {
        match self.status {
            ClientStatus::Connected { .. } => true,
            _ => false,
        }
    }

    /// How many packets wait in the inbound queue.
    pub fn get_available_packet_count(&self) -> (r: i32)
        requires
            self.received@.len() <= i32::MAX,
        ensures
            r == self.received@.len(),
    {
        self.received.len() as i32
    }

    /// The channel of the next packet to be popped, `0` with nothing
    /// queued.
    pub fn get_packet_channel(&self) -> (r: i32)
        ensures
            r == if self.received@.len() > 0 {
                self.received@[0].channel
            } else {
                0
            },
    {
        if self.received.len() > 0 {
            self.received[0].channel
        } else {
            0
        }
    }

    /// The delivery mode of the next packet to be popped, `Reliable`
    /// with nothing queued.
    pub fn get_packet_mode(&self) -> (r: TransferMode)
        ensures
            r == if self.received@.len() > 0 {
                self.received@[0].mode
            } else {
                TransferMode::Reliable
            },
    {
        if self.received.len() > 0 {
            self.received[0].mode
        } else {
            TransferMode::Reliable
        }
    }

    /// The sender of every client packet: the host, peer `1`.
    pub fn get_packet_peer(&self) -> (r: i32)
        ensures
            r == 1,
    {
        1
    }

    /// Pops the next packet's payload, an empty payload with nothing
    /// queued.
    pub fn pop_packet(&mut self) -> (r: Vec<u8>)
        ensures
            old(self).received@.len() > 0 ==> r == old(self).received@[0].payload
                && final(self).received@ == old(self).received@.subrange(
                1,
                old(self).received@.len() as int,
            ),
            old(self).received@.len() == 0 ==> r@ == Seq::<u8>::empty() && final(self).received@
                == old(self).received@,
            final(self).status == old(self).status,
            final(self).transfer_channel == old(self).transfer_channel,
            final(self).transfer_mode == old(self).transfer_mode,
    {
        match self.received.pop_front() {
            Some(packet) => packet.payload,
            None => Vec::new(),
        }
    }

    /// The largest payload the caller may hand to one send under the
    /// current mode: the 16-bit frame bound when reliable, the datagram
    /// bound otherwise.
    pub fn get_max_packet_size(&self) -> (r: i32)
        ensures
            r == if self.transfer_mode is Reliable {
                65535int
            } else {
                1024int
            },
    {
        if self.transfer_mode == TransferMode::Reliable {
            65535
        } else {
            1024
        }
    }

    /// Sets the channel for the next outbound packet.
    pub fn set_transfer_channel(&mut self, channel: i32)
        ensures
            *final(self) == (ClientState { transfer_channel: channel, ..*old(self) }),
    {
        self.transfer_channel = channel;
    }

    /// The channel the next outbound packet is sent on.
    pub fn get_transfer_channel(&self) -> (r: i32)
        ensures
            r == self.transfer_channel,
    {
        self.transfer_channel
    }

    /// Sets the delivery guarantee for the next outbound packet.
    pub fn set_transfer_mode(&mut self, mode: TransferMode)
        ensures
            *final(self) == (ClientState { transfer_mode: mode, ..*old(self) }),
    {
        self.transfer_mode = mode;
    }

    /// The delivery guarantee the next outbound packet is sent under.
    pub fn get_transfer_mode(&self) -> (r: TransferMode)
        ensures
            r == self.transfer_mode,
    {
        self.transfer_mode
    }
}

} // verus!
