use vstd::prelude::*;

use std::collections::VecDeque;

use crate::network::workload_of;
use crate::packet::Packet;
use crate::packet::PacketType;
use crate::perfstats::PerfStats;

verus! {

/// The address a mock network reports as its only subscriber.
pub const MOCK_SUBSCRIBER: &'static str = "mock";

/// The characters of [`MOCK_SUBSCRIBER`].
pub open spec fn mock_subscriber() -> Seq<char> {
    seq!['m', 'o', 'c', 'k']
}

/// Why nothing could be taken from a mock network's outbound queue.
#[derive(Clone, Copy, Debug, PartialEq, Eq, Structural)]
pub enum TryRecvError {
    /// Nothing has been sent that was not taken already.
    Empty,
}

/// A stand-in for the network that bypasses sockets: what the application sends is kept in a
/// queue for `mock_get`, and `mock_send` hands a payload to the application as if a message
/// had arrived.
pub struct MockNetwork {
    outbound: VecDeque<(Option<String>, Packet)>,
    /// Statistics; nothing is recorded in them.
    pub _perf_stats: PerfStats,
}

impl MockNetwork {
    /// The outbound requests sent and not yet taken, oldest first.
    pub closed spec fn queue(&self) -> Seq<(Option<String>, Packet)> {
        self.outbound@
    }

    /// The statistics held.
    pub closed spec fn stats(&self) -> PerfStats {
        self._perf_stats
    }

    /// A mock network with nothing sent; port and neighbours are not used.
    pub fn new(_port: u16, _remote_ips: &Vec<String>) -> (r: MockNetwork)
        ensures
            r.queue() == Seq::<(Option<String>, Packet)>::empty(),
            r.stats().wf(),
            r.stats().total == 0,
            r.stats().others@.len() == 0,
    {
        MockNetwork { outbound: VecDeque::new(), _perf_stats: PerfStats::new() }
    }

    /// The subscribers: the single placeholder [`MOCK_SUBSCRIBER`].
    pub fn get_subscribers(&self) -> (r: Vec<String>)
        ensures
            r@.len() == 1,
            r@[0]@ == mock_subscriber(),
    {
        let s = String::from_str(MOCK_SUBSCRIBER);
        proof {
            reveal_strlit("mock");
        }
        assert(s@ =~= mock_subscriber());
        let mut r: Vec<String> = Vec::new();
        r.push(s);
        r
    }

    /// Records a message carrying the serialised payload `payload_json` for `dest`.
    pub fn send(&mut self, dest: Option<String>, payload_json: String) -> (r: Result<(), ()>)
        ensures
            r is Ok,
            final(self).queue().len() == old(self).queue().len() + 1,
            final(self).queue().subrange(0, old(self).queue().len() as int) == old(self).queue(),
            final(self).queue().last().0 == dest,
            final(self).queue().last().1.is_fresh(PacketType::Message, payload_json),
            final(self).stats() == old(self).stats(),
    {
        let packet = Packet::new(payload_json);
        self.outbound.push_back((dest, packet));
        assert(self.queue().subrange(0, old(self).queue().len() as int) =~= old(self).queue());
        Ok(())
    }

    /// Takes the oldest outbound request that the application sent, if any.
    pub fn mock_get(&mut self) -> (r: Result<(Option<String>, Packet), TryRecvError>)
        ensures
            old(self).queue().len() == 0 ==> r == Err::<(Option<String>, Packet), TryRecvError>(
                TryRecvError::Empty,
            ) && final(self).queue() == old(self).queue(),
            old(self).queue().len() > 0 ==> r == Ok::<(Option<String>, Packet), TryRecvError>(
                old(self).queue()[0],
            ) && final(self).queue() == old(self).queue().drop_first(),
            final(self).stats() == old(self).stats(),
    {
        match self.outbound.pop_front() {
            Some(req) => {
                assert(self.queue() =~= old(self).queue().drop_first());
                Ok(req)
            },
            None => Err(TryRecvError::Empty),
        }
    }

    /// Hands the serialised payload `payload_json` to the application as a message from
    /// `source`: returns the sender's name and the payload that the application receives.
    pub fn mock_send(&mut self, source: &String, payload_json: String) -> (r: Option<
        (String, String),
    >)
        ensures
            r is Some,
            r->Some_0.0@ == source@,
            r->Some_0.1 == payload_json,
            final(self).queue() == old(self).queue(),
            final(self).stats() == old(self).stats(),
    {
        let packet = Packet::new(payload_json);
        match workload_of(packet) {
            Some(content) => Some((source.clone(), content)),
            None => None,
        }
    }
}

} // verus!
