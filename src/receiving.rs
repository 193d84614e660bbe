use vstd::prelude::*;

use crate::packet::receipt_of;
use crate::packet::Packet;

verus! {

/// Connection attempts made to a peer before giving up on it.
pub const CONNECT_ATTEMPTS: u32 = 3;

/// Seconds waited after a failed connection attempt.
pub const CONNECT_RETRY_SECS: u64 = 2;

/// Whether `c` is white space as `char::is_whitespace` decides it (Unicode's `White_Space`).
pub open spec fn is_white_space(c: char) -> bool {
    let u = c as u32;
    ||| 0x09 <= u <= 0x0d
    ||| u == 0x20
    ||| u == 0x85
    ||| u == 0xa0
    ||| u == 0x1680
    ||| 0x2000 <= u <= 0x200a
    ||| u == 0x2028
    ||| u == 0x2029
    ||| u == 0x202f
    ||| u == 0x205f
    ||| u == 0x3000
}

/// A line that holds nothing but white space.
pub open spec fn is_blank(s: Seq<char>) -> bool {
    forall|k: int| 0 <= k < s.len() ==> is_white_space(#[trigger] s[k])
}

/// `t` is `s` without its leading and trailing white space.
pub open spec fn is_trim_of(t: Seq<char>, s: Seq<char>) -> bool {
    &&& exists|i: int, j: int|
        {
            &&& 0 <= i <= j <= s.len()
            &&& t == s.subrange(i, j)
            &&& forall|k: int| 0 <= k < i ==> is_white_space(#[trigger] s[k])
            &&& forall|k: int| j <= k < s.len() ==> is_white_space(#[trigger] s[k])
        }
    &&& t.len() > 0 ==> !is_white_space(t[0]) && !is_white_space(t.last())
}

/// Relies on `str::trim`: the result is `s` without its leading and trailing white space
/// (as `char::is_whitespace` decides it).
#[verifier::external_body]
fn trim_white_space(s: &str) -> (r: &str)
    ensures
        is_trim_of(r@, s@),
{
    s.trim()
}

/// Whether `line` holds nothing but white space.
pub fn is_blank_line(line: &str) -> (r: bool)
    ensures
        r == is_blank(line@),
{
    let t = trim_white_space(line);
    let r = t.is_empty();
    proof {
        let (i, j) = choose|i: int, j: int|
            {
                &&& 0 <= i <= j <= line@.len()
                &&& t@ == line@.subrange(i, j)
                &&& forall|k: int| 0 <= k < i ==> is_white_space(#[trigger] line@[k])
                &&& forall|k: int| j <= k < line@.len() ==> is_white_space(#[trigger] line@[k])
            };
        if r {
            assert forall|k: int| 0 <= k < line@.len() implies is_white_space(#[trigger] line@[k]) by {
                assert(k < i || j <= k);
            }
        } else {
            assert(line@[i] == t@[0]);
            assert(!is_white_space(line@[i]));
        }
    }
    r
}

/// The remote addresses that a reader has been started for. An address, once claimed,
/// stays; none is claimed twice.
pub struct ReceiverSet {
    seen: Vec<String>,
}

impl View for ReceiverSet {
    type V = Set<Seq<char>>;

    closed spec fn view(&self) -> Set<Seq<char>> {
        Set::new(|a: Seq<char>| exists|i: int| 0 <= i < self.seen@.len() && #[trigger] self.seen@[i]@ == a)
    }
}

impl ReceiverSet {
    /// A set with no address.
    pub fn new() -> (r: ReceiverSet)
        ensures
            r@ == Set::<Seq<char>>::empty(),
    {
        let r = ReceiverSet { seen: Vec::new() };
        assert(r@ =~= Set::<Seq<char>>::empty());
        r
    }

    /// Claims `addr`: true, and the address is recorded, if no reader was started for it yet;
    /// false if one was.
    pub fn claim(&mut self, addr: String) -> (fresh: bool)
        ensures
            fresh == !old(self)@.contains(addr@),
            final(self)@ == old(self)@.insert(addr@),
    {
        let n = self.seen.len();
        let mut i: usize = 0;
        while i < n
            invariant
                n == self.seen@.len(),
                i <= n,
                forall|j: int| 0 <= j < i ==> #[trigger] self.seen@[j]@ != addr@,
            decreases n - i,
        {
            if self.seen[i] == addr {
                assert(self@.contains(addr@));
                assert(self@.insert(addr@) =~= self@);
                return false;
            }
            i += 1;
        }
        let ghost before = self@;
        self.seen.push(addr);
        assert(!before.contains(self.seen@[n as int]@));
        assert(self@ =~= before.insert(self.seen@[n as int]@)) by {
            assert forall|a: Seq<char>| #[trigger] self@.contains(a) implies before.insert(
                self.seen@[n as int]@,
            ).contains(a) by {
                let k = choose|k: int| 0 <= k < self.seen@.len() && #[trigger] self.seen@[k]@ == a;
                if k < n {
                    assert(old(self).seen@[k]@ == a);
                }
            }
            assert forall|a: Seq<char>| #[trigger] before.insert(self.seen@[n as int]@).contains(
                a,
            ) implies self@.contains(a) by {
                if a != self.seen@[n as int]@ {
                    let k = choose|k: int| 0 <= k < old(self).seen@.len() && #[trigger] old(self).seen@[k]@ == a;
                    assert(self.seen@[k]@ == a);
                } else {
                    assert(self.seen@[n as int]@ == a);
                }
            }
        }
        true
    }
}

/// The connection attempts made to one peer. No more than [`CONNECT_ATTEMPTS`] are allowed.
pub struct ConnectRetry {
    attempts: u32,
}

impl ConnectRetry {
    /// Attempts made so far.
    pub closed spec fn attempts(&self) -> nat {
        self.attempts as nat
    }

    /// No attempt made yet.
    pub fn new() -> (r: ConnectRetry)
        ensures
            r.attempts() == 0,
    {
        ConnectRetry { attempts: 0 }
    }

    /// Whether another attempt is allowed.
    pub fn may_attempt(&self) -> (r: bool)
        ensures
            r == (self.attempts() < CONNECT_ATTEMPTS),
    {
        self.attempts < CONNECT_ATTEMPTS
    }

    /// Counts an attempt about to be made.
    pub fn start_attempt(&mut self)
        requires
            old(self).attempts() < CONNECT_ATTEMPTS,
        ensures
            final(self).attempts() == old(self).attempts() + 1,
            final(self).attempts() <= CONNECT_ATTEMPTS,
    {
        self.attempts += 1;
    }
}

/// What one line read from a peer amounts to.
#[derive(Debug)]
pub enum LineOutcome {
    /// Nothing but white space: ignored.
    Blank,
    /// Not a frame: dropped, and the connection kept.
    Malformed,
    /// A packet, stamped with its receive time, for the local handler; and the receipt to
    /// send back, addressed to the peer, if the packet calls for one.
    Delivered { sender: String, packet: Packet, reply: Option<(Option<String>, Packet)> },
}

impl Packet {
    /// `self` is `orig` as read by its receiver: the same packet, stamped with a receive time.
    pub open spec fn received_from(&self, orig: Packet) -> bool {
        &&& self.content == orig.content
        &&& self.sent_time == orig.sent_time
        &&& self.packet_type == orig.packet_type
        &&& self.receive_time is Some
        &&& self.receive_time->Some_0.wf()
    }
}

/// The receipt for `p`, addressed back to the peer named `sender`.
pub open spec fn reply_of(sender: Seq<char>, p: Packet) -> Option<(Option<Seq<char>>, Packet)> {
    match receipt_of(p) {
        Some(r) => Some((Some(sender), r)),
        None => None,
    }
}

/// The receipt addressed back to the peer, as a view.
pub open spec fn reply_view(reply: Option<(Option<String>, Packet)>) -> Option<(Option<Seq<char>>, Packet)> {
    match reply {
        Some((Some(d), p)) => Some((Some(d@), p)),
        Some((None, p)) => Some((None, p)),
        None => None,
    }
}

/// The reading side of one connection to a remote peer: its name, and the number of lines read.
pub struct PeerReader {
    sender: String,
    lines: u64,
}

impl PeerReader {
    /// The name under which the peer's packets are handed on: its address without the port.
    pub closed spec fn sender(&self) -> Seq<char> {
        self.sender@
    }

    /// Lines read so far (modulo 2^64).
    pub closed spec fn lines(&self) -> u64 {
        self.lines
    }

    /// A reader for the peer named `sender` that has read nothing yet.
    pub fn new(sender: String) -> (r: PeerReader)
        ensures
            r.sender() == sender@,
            r.lines() == 0,
    {
        PeerReader { sender, lines: 0 }
    }

    /// Takes one line read from the peer, and `frame`, the packet that the line decodes to,
    /// if it decodes to one. Every line counts as read, whatever it holds.
    pub fn on_line(&mut self, line: &str, frame: Option<Packet>) -> (out: LineOutcome)
        ensures
            final(self).sender() == old(self).sender(),
            final(self).lines() == old(self).lines().wrapping_add(1),
            is_blank(line@) ==> out is Blank,
            !is_blank(line@) && frame is None ==> out is Malformed,
            !is_blank(line@) && frame is Some ==> match out {
                LineOutcome::Delivered { sender, packet, reply } => {
                    &&& sender@ == old(self).sender()
                    &&& packet.received_from(frame->Some_0)
                    &&& reply_view(reply) == reply_of(old(self).sender(), packet)
                },
                _ => false,
            },
    {
        self.lines = self.lines.wrapping_add(1);
        if is_blank_line(line) {
            return LineOutcome::Blank;
        }
        match frame {
            None => LineOutcome::Malformed,
            Some(mut packet) => {
                packet.mark_received();
                let reply = match packet.get_receipt() {
                    Some(r) => Some((Some(self.sender.clone()), r)),
                    None => None,
                };
                LineOutcome::Delivered { sender: self.sender.clone(), packet, reply }
            },
        }
    }
}

} // verus!
