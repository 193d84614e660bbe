use vstd::prelude::*;

use crate::time::elapsed_micros;
use crate::time::micros_between;
use crate::time::Timestamp;

verus! {

/// The kinds of packet that travel between peers.
#[derive(Clone, Copy, Debug, PartialEq, Eq, Structural)]
pub enum PacketType {
    /// An application payload.
    Message,
    /// The receipt that acknowledges a message.
    Echo,
    /// A periodic health report.
    Heartbeat,
    /// The receipt that acknowledges a heartbeat.
    HeartbeatEcho,
}

/// A typed, timestamped record exchanged between peers.
#[derive(Clone, Debug, PartialEq, Eq)]
pub struct Packet {
    /// The serialised payload; absent on receipts.
    pub content: Option<String>,
    /// When the packet was built by its originator.
    pub sent_time: Timestamp,
    /// When the packet was read by its receiver.
    pub receive_time: Option<Timestamp>,
    /// The kind of packet.
    pub packet_type: PacketType,
}

/// The receipt that acknowledges `p`: an echo of a message or of a heartbeat, carrying the
/// acknowledged packet's timestamps and no content; receipts are not acknowledged themselves.
pub open spec fn receipt_of(p: Packet) -> Option<Packet> {
    match p.packet_type {
        PacketType::Message => Some(
            Packet {
                content: None,
                sent_time: p.sent_time,
                receive_time: p.receive_time,
                packet_type: PacketType::Echo,
            },
        ),
        PacketType::Heartbeat => Some(
            Packet {
                content: None,
                sent_time: p.sent_time,
                receive_time: p.receive_time,
                packet_type: PacketType::HeartbeatEcho,
            },
        ),
        _ => None,
    }
}

impl Packet {
    /// A freshly built packet of type `t` carrying `content`, not yet received.
    pub open spec fn is_fresh(&self, t: PacketType, content: String) -> bool {
        &&& self.packet_type == t
        &&& self.content == Some(content)
        &&& self.receive_time is None
        &&& self.sent_time.wf()
    }

    /// Both timestamps are present and the packet was not received before it was sent.
    pub open spec fn has_duration(&self) -> bool {
        &&& self.receive_time is Some
        &&& self.receive_time->Some_0.not_before(self.sent_time)
    }

    /// Microseconds from sending to receipt.
    pub open spec fn duration(&self) -> int {
        micros_between(self.sent_time, self.receive_time->Some_0)
    }

    /// A message carrying the serialised application payload `msg`, stamped now.
    pub fn new(msg: String) -> (p: Packet)
        ensures
            p.is_fresh(PacketType::Message, msg),
    {
        Packet {
            content: Some(msg),
            sent_time: Timestamp::now(),
            receive_time: None,
            packet_type: PacketType::Message,
        }
    }

    /// A heartbeat carrying `stats_json`, the serialised local statistics, stamped now.
    pub fn get_hb(stats_json: String) -> (p: Packet)
        ensures
            p.is_fresh(PacketType::Heartbeat, stats_json),
    {
        Packet {
            content: Some(stats_json),
            sent_time: Timestamp::now(),
            receive_time: None,
            packet_type: PacketType::Heartbeat,
        }
    }

    /// Stamps the packet with the time at which it was read.
    pub fn mark_received(&mut self)
        ensures
            final(self).receive_time is Some,
            final(self).receive_time->Some_0.wf(),
            final(self).content == old(self).content,
            final(self).sent_time == old(self).sent_time,
            final(self).packet_type == old(self).packet_type,
    {
        self.receive_time = Some(Timestamp::now());
    }

    /// The receipt to send back to the originator, if this packet calls for one.
    pub fn get_receipt(&self) -> (r: Option<Packet>)
        ensures
            r == receipt_of(*self),
    {
        if !self.is_workload() && self.packet_type != PacketType::Heartbeat {
            return None;
        }
        let echo_type = if self.is_workload() {
            PacketType::Echo
        } else {
            PacketType::HeartbeatEcho
        };
        Some(
            Packet {
                content: None,
                sent_time: self.sent_time,
                receive_time: self.receive_time,
                packet_type: echo_type,
            },
        )
    }

    /// Whether the packet carries an application payload.
    pub fn is_workload(&self) -> (r: bool)
        ensures
            r == (self.packet_type == PacketType::Message),
    {
        self.packet_type == PacketType::Message
    }

    /// Microseconds from sending to receipt.
    pub fn get_duration(&self) -> (r: u128)
        requires
            self.has_duration(),
        ensures
            r == self.duration(),
    {
        match self.receive_time {
            Some(t) => elapsed_micros(self.sent_time, t),
            None => 0,
        }
    }
}

} // verus!
