use vstd::prelude::*;

use crate::packet::receipt_of;
use crate::packet::Packet;
use crate::packet::PacketType;
use crate::perfstats::find_report;
use crate::perfstats::PerfStats;
use crate::routing::head_node;
use crate::routing::HEAD_NODE;
use crate::time::micros_between;

verus! {

/// Seconds between heartbeats until the interval is set otherwise.
pub const DEFAULT_HEARTBEAT_SECS: u64 = 30;

/// What the application is handed of an inbound packet: the payload of a message, and
/// nothing of any other packet.
pub open spec fn workload_spec(p: Packet) -> Option<String> {
    if p.packet_type == PacketType::Message {
        p.content
    } else {
        None
    }
}

/// What the application is handed of an inbound packet: the payload of a message, and
/// nothing of any other packet.
pub fn workload_of(packet: Packet) -> (r: Option<String>)
    ensures
        r == workload_spec(packet),
{
    if packet.is_workload() {
        packet.content
    } else {
        None
    }
}

/// Handles a packet received from the peer `sender`: records it in `stats`, then returns the
/// payload to hand to the application, which only a message has. For a heartbeat, `report`
/// is the statistics that its content carries.
pub fn on_inbound(
    stats: &mut PerfStats,
    sender: String,
    packet: Packet,
    report: Option<PerfStats>,
) -> (r: Option<String>)
    requires
        old(stats).wf(),
        old(stats).can_record(packet),
        packet.packet_type == PacketType::Heartbeat ==> report is Some,
    ensures
        final(stats).records(*old(stats), sender, packet, report),
        r == workload_spec(packet),
        r is Some ==> packet.packet_type == PacketType::Message,
{
    stats.update(sender, &packet, report);
    workload_of(packet)
}

/// The outbound request for one heartbeat: addressed to [`HEAD_NODE`], carrying
/// `stats_json`, the serialised local-only statistics.
pub fn heartbeat_request(stats_json: String) -> (r: (Option<String>, Packet))
    ensures
        r.0 is Some,
        r.0->Some_0@ == head_node(),
        r.1.is_fresh(PacketType::Heartbeat, stats_json),
{
    let dest = String::from_str(HEAD_NODE);
    proof {
        reveal_strlit("HEAD_NODE");
    }
    assert(dest@ =~= head_node());
    (Some(dest), Packet::get_hb(stats_json))
}

/// Recording the receipt of a message adds the time from the message's sending to its
/// receipt at the remote peer, which is never negative, to the message roundtrip total.
pub proof fn lemma_echo_duration_grows(
    before: PerfStats,
    after: PerfStats,
    name: String,
    echo: Packet,
    report: Option<PerfStats>,
)
    requires
        echo.packet_type == PacketType::Echo,
        before.can_record(echo),
        after.records(before, name, echo, report),
    ensures
        after.msg_duration == before.msg_duration + micros_between(
            echo.sent_time,
            echo.receive_time->Some_0,
        ),
        micros_between(echo.sent_time, echo.receive_time->Some_0) >= 0,
        after.msg_duration >= before.msg_duration,
{
}

/// A message read by its receiver is answered with an echo that carries the message's own
/// timestamps; once the originator records that echo, its count of message receipts has
/// gone up by one.
pub proof fn lemma_message_echo_counted(
    m: Packet,
    received: Packet,
    before: PerfStats,
    after: PerfStats,
    name: String,
    report: Option<PerfStats>,
)
    requires
        m.packet_type == PacketType::Message,
        received.received_from(m),
        after.records(before, name, receipt_of(received)->Some_0, report),
    ensures
        receipt_of(received) is Some,
        receipt_of(received)->Some_0.packet_type == PacketType::Echo,
        receipt_of(received)->Some_0.sent_time == m.sent_time,
        receipt_of(received)->Some_0.receive_time == received.receive_time,
        after.num_msg_echo == before.num_msg_echo + 1,
        after.num_msg == before.num_msg,
        after.total == before.total + 1,
{
}

/// Once a peer has recorded a message from the originator, the next heartbeat it sends
/// (carrying its local statistics) leaves the originator holding, under that peer's name, a
/// report whose message count includes that message.
pub proof fn lemma_message_reported_back(
    m: Packet,
    peer_before: PerfStats,
    peer_after: PerfStats,
    origin: String,
    hb: Packet,
    report: PerfStats,
    before: PerfStats,
    after: PerfStats,
    peer: String,
)
    requires
        m.packet_type == PacketType::Message,
        peer_after.records(peer_before, origin, m, None),
        report.same_counts(peer_after),
        hb.packet_type == PacketType::Heartbeat,
        after.records(before, peer, hb, Some(report)),
    ensures
        0 <= find_report(after.others@, peer@) < after.others@.len(),
        after.others@[find_report(after.others@, peer@)].1.num_msg == peer_before.num_msg + 1,
{
    let s = before.others@;
    let i = find_report(s, peer@);
    let t = after.others@;
    let k = if 0 <= i { i } else { s.len() as int };
    assert(t[k].0@ == peer@);
    assert(t[k].1 == report);
    assert(0 <= find_report(t, peer@));
    let j = find_report(t, peer@);
    assert(t[j].0@ == peer@);
    assert(j == k);
}

} // verus!
