use vstd::prelude::*;

use crate::packet::Packet;
use crate::packet::PacketType;

verus! {

/// Health statistics of one peer: what it has received, the roundtrip times measured from
/// the receipts of what it sent, and the latest statistics each remote peer reported.
#[derive(Debug)]
pub struct PerfStats {
    /// Packets received, of every type.
    pub total: usize,
    /// Messages received.
    pub num_msg: usize,
    /// Receipts of messages received.
    pub num_msg_echo: usize,
    /// Heartbeats received.
    pub num_hb: usize,
    /// Receipts of heartbeats received.
    pub num_hb_echo: usize,
    /// Summed roundtrip time of messages, in microseconds.
    pub msg_duration: u128,
    /// Summed roundtrip time of heartbeats, in microseconds.
    pub hb_duration: u128,
    /// The latest statistics reported by each remote peer, one entry per peer name,
    /// in the order in which the peers first reported.
    pub others: Vec<(String, PerfStats)>,
}

/// No two entries of `s` carry the same peer name.
pub open spec fn names_unique(s: Seq<(String, PerfStats)>) -> bool {
    forall|i: int, j: int|
        0 <= i < s.len() && 0 <= j < s.len() && i != j ==> #[trigger] s[i].0@ != #[trigger] s[j].0@
}

/// The position of the entry named `name` in `s`, or -1 if there is none.
pub open spec fn find_report(s: Seq<(String, PerfStats)>, name: Seq<char>) -> int {
    if exists|i: int| 0 <= i < s.len() && #[trigger] s[i].0@ == name {
        choose|i: int| 0 <= i < s.len() && #[trigger] s[i].0@ == name
    } else {
        -1
    }
}

/// `s` with the entry named `name` replaced by `report`, or `report` appended under `name`
/// if no entry has that name.
pub open spec fn upsert_report(s: Seq<(String, PerfStats)>, name: String, report: PerfStats) -> Seq<
    (String, PerfStats),
> {
    let i = find_report(s, name@);
    if 0 <= i {
        s.update(i, (name, report))
    } else {
        s.push((name, report))
    }
}

/// 1 if `b` holds, else 0.
pub open spec fn count_if(b: bool) -> int {
    if b {
        1
    } else {
        0
    }
}

impl PerfStats {
    /// The total counts every packet exactly once, by its type.
    pub open spec fn counts_agree(&self) -> bool {
        self.total == self.num_msg + self.num_msg_echo + self.num_hb + self.num_hb_echo
    }

    /// Well-formed statistics: the counts agree and each remote peer has one entry.
    pub open spec fn wf(&self) -> bool {
        &&& self.counts_agree()
        &&& names_unique(self.others@)
    }

    /// Recording `packet` overflows none of the counters or durations.
    pub open spec fn can_record(&self, packet: Packet) -> bool {
        &&& self.total < usize::MAX
        &&& packet.packet_type == PacketType::Echo ==> {
            &&& packet.has_duration()
            &&& self.msg_duration + packet.duration() <= u128::MAX
        }
        &&& packet.packet_type == PacketType::HeartbeatEcho ==> {
            &&& packet.has_duration()
            &&& self.hb_duration + packet.duration() <= u128::MAX
        }
    }

    /// The counters and durations of `self` equal those of `other`.
    pub open spec fn same_counts(&self, other: PerfStats) -> bool {
        &&& self.total == other.total
        &&& self.num_msg == other.num_msg
        &&& self.num_msg_echo == other.num_msg_echo
        &&& self.num_hb == other.num_hb
        &&& self.num_hb_echo == other.num_hb_echo
        &&& self.msg_duration == other.msg_duration
        &&& self.hb_duration == other.hb_duration
    }

    /// `self` is `before` with `packet`, received from the peer `name`, recorded: the total
    /// and the count of its type go up by one; a receipt adds its roundtrip time to the
    /// duration of its kind; a heartbeat's `report` becomes that peer's latest statistics.
    pub open spec fn records(
        &self,
        before: PerfStats,
        name: String,
        packet: Packet,
        report: Option<PerfStats>,
    ) -> bool {
        let t = packet.packet_type;
        &&& self.wf()
        &&& self.total == before.total + 1
        &&& self.num_msg == before.num_msg + count_if(t == PacketType::Message)
        &&& self.num_msg_echo == before.num_msg_echo + count_if(t == PacketType::Echo)
        &&& self.num_hb == before.num_hb + count_if(t == PacketType::Heartbeat)
        &&& self.num_hb_echo == before.num_hb_echo + count_if(t == PacketType::HeartbeatEcho)
        &&& self.msg_duration == before.msg_duration + (if t == PacketType::Echo {
            packet.duration()
        } else {
            0
        })
        &&& self.hb_duration == before.hb_duration + (if t == PacketType::HeartbeatEcho {
            packet.duration()
        } else {
            0
        })
        &&& self.others@ == (if t == PacketType::Heartbeat {
            upsert_report(before.others@, name, report->Some_0)
        } else {
            before.others@
        })
    }

    /// Empty statistics.
    pub fn new() -> (r: PerfStats)
        ensures
            r.wf(),
            r.total == 0,
            r.num_msg == 0,
            r.num_msg_echo == 0,
            r.num_hb == 0,
            r.num_hb_echo == 0,
            r.msg_duration == 0,
            r.hb_duration == 0,
            r.others@.len() == 0,
    {
        PerfStats {
            total: 0,
            num_msg: 0,
            num_msg_echo: 0,
            num_hb: 0,
            num_hb_echo: 0,
            msg_duration: 0,
            hb_duration: 0,
            others: Vec::new(),
        }
    }

    /// The local-only projection of `ps`: its counters and durations, without the statistics
    /// of other peers. This is what a heartbeat carries.
    pub fn new_local(ps: &PerfStats) -> (r: PerfStats)
        ensures
            r.same_counts(*ps),
            r.others@.len() == 0,
            ps.counts_agree() ==> r.wf(),
    {
        PerfStats {
            total: ps.total,
            num_msg: ps.num_msg,
            num_msg_echo: ps.num_msg_echo,
            num_hb: ps.num_hb,
            num_hb_echo: ps.num_hb_echo,
            msg_duration: ps.msg_duration,
            hb_duration: ps.hb_duration,
            others: Vec::new(),
        }
    }

    /// Whether `packet` can be recorded without overflowing a counter or a duration.
    pub fn can_update(&self, packet: &Packet) -> (r: bool)
        requires
            self.wf(),
        ensures
            r == self.can_record(*packet),
    {
        if self.total == usize::MAX {
            return false;
        }
        match packet.packet_type {
            PacketType::Echo => self.duration_fits(packet, self.msg_duration),
            PacketType::HeartbeatEcho => self.duration_fits(packet, self.hb_duration),
            _ => true,
        }
    }

    /// Whether `packet` has a duration that can be added to `sum`.
    fn duration_fits(&self, packet: &Packet, sum: u128) -> (r: bool)
        ensures
            r == (packet.has_duration() && sum + packet.duration() <= u128::MAX),
    {
        match packet.receive_time {
            Some(t) => {
                if t.as_nanos() < packet.sent_time.as_nanos() {
                    false
                } else {
                    packet.get_duration() <= u128::MAX - sum
                }
            },
            None => false,
        }
    }

    /// Records a packet received from the peer `name`. For a heartbeat, `report` holds the
    /// statistics that its content carries, which replace that peer's earlier report.
    pub fn update(&mut self, name: String, packet: &Packet, report: Option<PerfStats>)
        requires
            old(self).wf(),
            old(self).can_record(*packet),
            packet.packet_type == PacketType::Heartbeat ==> report is Some,
        ensures
            final(self).records(*old(self), name, *packet, report),
    {
        self.total += 1;
        match packet.packet_type {
            PacketType::Message => {
                self.num_msg += 1;
            },
            PacketType::Echo => {
                self.msg_duration += packet.get_duration();
                self.num_msg_echo += 1;
            },
            PacketType::Heartbeat => {
                self.num_hb += 1;
                match report {
                    Some(r) => self.record_report(name, r),
                    None => {},
                }
            },
            PacketType::HeartbeatEcho => {
                self.hb_duration += packet.get_duration();
                self.num_hb_echo += 1;
            },
        }
    }

    /// Stores `report` as the latest statistics of the peer `name`.
    fn record_report(&mut self, name: String, report: PerfStats)
        requires
            names_unique(old(self).others@),
        ensures
            names_unique(final(self).others@),
            final(self).others@ == upsert_report(old(self).others@, name, report),
            final(self).same_counts(*old(self)),
    {
        match report_index(&self.others, &name) {
            Some(i) => {
                assert(find_report(self.others@, name@) == i as int);
                self.others[i] = (name, report);
            },
            None => {
                assert(find_report(self.others@, name@) == -1);
                self.others.push((name, report));
            },
        }
    }
}

/// The position of the entry named `name` in `others`, if there is one.
fn report_index(others: &Vec<(String, PerfStats)>, name: &String) -> (r: Option<usize>)
    ensures
        match r {
            Some(i) => i < others@.len() && others@[i as int].0@ == name@,
            None => forall|j: int| 0 <= j < others@.len() ==> #[trigger] others@[j].0@ != name@,
        },
{
    let n = others.len();
    let mut i: usize = 0;
    while i < n
        invariant
            n == others@.len(),
            i <= n,
            forall|j: int| 0 <= j < i ==> #[trigger] others@[j].0@ != name@,
        decreases n - i,
    {
        if others[i].0 == *name {
            return Some(i);
        }
        i += 1;
    }
    None
}

} // verus!
