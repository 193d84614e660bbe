use vstd::prelude::*;

verus! {

/// Nanoseconds in one second.
pub const NANOS_PER_SEC: u32 = 1_000_000_000;

/// Nanoseconds in one microsecond.
pub const NANOS_PER_MICRO: u128 = 1_000;

/// A wall-clock instant, as whole seconds and the nanoseconds past them since the Unix epoch.
///
/// This is the form in which an instant travels on the wire.
#[derive(Clone, Copy, Debug, PartialEq, Eq, Structural)]
pub struct Timestamp {
    pub secs: u64,
    pub nanos: u32,
}

impl Timestamp {
    /// The nanosecond part stays below one second.
    pub open spec fn wf(&self) -> bool {
        self.nanos < NANOS_PER_SEC
    }

    /// The instant as a count of nanoseconds since the epoch.
    pub open spec fn total_nanos(&self) -> int {
        self.secs * 1_000_000_000 + self.nanos
    }

    /// Whether this instant is not earlier than `other`.
    pub open spec fn not_before(&self, other: Timestamp) -> bool {
        self.total_nanos() >= other.total_nanos()
    }

    /// The current wall-clock time.
    pub fn now() -> (t: Timestamp)
        ensures
            t.wf(),
    {
        clock_now()
    }

    /// The instant as a count of nanoseconds since the epoch.
    pub fn as_nanos(&self) -> (r: u128)
        ensures
            r == self.total_nanos(),
    {
        self.secs as u128 * 1_000_000_000u128 + self.nanos as u128
    }
}

/// Whole microseconds elapsed from `from` to `to`, rounded down.
pub open spec fn micros_between(from: Timestamp, to: Timestamp) -> int {
    (to.total_nanos() - from.total_nanos()) / 1000
}

/// Whole microseconds elapsed from `from` to `to`, rounded down.
pub fn elapsed_micros(from: Timestamp, to: Timestamp) -> (r: u128)
    requires
        to.not_before(from),
    ensures
        r == micros_between(from, to),
{
    let diff = to.as_nanos() - from.as_nanos();
    diff / NANOS_PER_MICRO
}

/// Relies on std's `SystemTime::now`, read as the seconds and sub-second nanoseconds since
/// `UNIX_EPOCH` (`Duration::subsec_nanos` stays below one second; a clock set before the
/// epoch reads as the epoch).
#[verifier::external_body]
fn clock_now() -> (t: Timestamp)
    ensures
        t.wf(),
{
    let d = std::time::SystemTime::now().duration_since(std::time::UNIX_EPOCH).unwrap_or_default();
    Timestamp { secs: d.as_secs(), nanos: d.subsec_nanos() }
}

} // verus!
