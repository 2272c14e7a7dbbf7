//! When a source file has to be compiled again.

use vstd::prelude::*;

verus! {

/// A point in time, as a file system records it: whole seconds since the
/// epoch and the nanoseconds within the second.
#[derive(Debug, Clone, Copy, PartialEq, Eq, Structural)]
pub struct Timestamp {
    pub secs: i64,
    pub nanos: u32,
}

impl Timestamp {
    /// Whether the nanoseconds stay within one second.
    pub open spec fn wf(self) -> bool {
        self.nanos < 1_000_000_000
    }

    /// This point in time as a number of nanoseconds since the epoch,
    /// negative before it.
    pub open spec fn instant(self) -> int {
        self.secs * 1_000_000_000 + self.nanos
    }

    /// Whether this point in time comes strictly after `other`.
    pub open spec fn later_than(self, other: Timestamp) -> bool {
        self.secs > other.secs || (self.secs == other.secs && self.nanos > other.nanos)
    }

    /// The point in time that lies `secs` seconds and `nanos` nanoseconds
    /// after the epoch, if the seconds can be held and the nanoseconds stay
    /// within one second.
    pub fn after_epoch(secs: u64, nanos: u32) -> (time: Option<Timestamp>)
        ensures
            time is Some <==> secs <= i64::MAX && nanos < 1_000_000_000,
            time matches Some(t) ==> t.wf() && t.instant() == secs * 1_000_000_000 + nanos,
    {
        if secs > i64::MAX as u64 || nanos >= 1_000_000_000 {
            None
        } else {
            Some(Timestamp { secs: secs as i64, nanos })
        }
    }

    /// The point in time that lies `secs` seconds and `nanos` nanoseconds
    /// before the epoch, if the seconds can be held and the nanoseconds stay
    /// within one second.
    pub fn before_epoch(secs: u64, nanos: u32) -> (time: Option<Timestamp>)
        ensures
            time is Some <==> secs <= i64::MAX && nanos < 1_000_000_000,
            time matches Some(t) ==> t.wf() && t.instant() == -(secs * 1_000_000_000 + nanos),
    {
        if secs > i64::MAX as u64 || nanos >= 1_000_000_000 {
            None
        } else if nanos == 0 {
            Some(Timestamp { secs: -(secs as i64), nanos: 0 })
        } else {
            Some(Timestamp { secs: -(secs as i64) - 1, nanos: 1_000_000_000 - nanos })
        }
    }

    /// Whether this point in time comes strictly after `other`.
    pub fn is_later_than(&self, other: &Timestamp) -> (later: bool)
        ensures
            later == self.later_than(*other),
    {
        self.secs > other.secs || (self.secs == other.secs && self.nanos > other.nanos)
    }
}

/// Of two well-formed points in time, the later one is the one with more
/// nanoseconds since the epoch.
pub proof fn law_later_than_orders_instants(a: Timestamp, b: Timestamp)
    requires
        a.wf(),
        b.wf(),
    ensures
        a.later_than(b) <==> a.instant() > b.instant(),
{
}

/// Whether a source file last modified at `source` has to be compiled, given
/// when its object file was last modified, if there is one: it has to where
/// the object file is missing or strictly older than the source. An object
/// file as old as its source is up to date.
pub open spec fn stale(source: Timestamp, object: Option<Timestamp>) -> bool {
    match object {
        None => true,
        Some(built) => source.later_than(built),
    }
}

/// Whether a source file last modified at `source` has to be compiled, given
/// when its object file was last modified, if there is one.
pub fn is_stale(source: Timestamp, object: Option<Timestamp>) -> (compile: bool)
    ensures
        compile == stale(source, object),
{
    match object {
        None => true,
        Some(built) => source.is_later_than(&built),
    }
}

} // verus!
