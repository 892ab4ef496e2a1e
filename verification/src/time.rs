//! Points in time, as the service stores them: whole seconds since the Unix
//! epoch and a sub-second part in nanoseconds.
use vstd::prelude::*;

verus! {

/// Nanoseconds in one second.
pub const NANOS_PER_SECOND: i128 = 1_000_000_000;

/// A UTC instant: `secs` seconds after the Unix epoch plus `nanos`
/// nanoseconds.
#[derive(Clone, Copy, Debug, PartialEq, Eq, Structural)]
pub struct Timestamp {
    pub secs: i64,
    pub nanos: u32,
}

impl Timestamp {
    /// The instant, in nanoseconds since the Unix epoch.
    pub open spec fn instant(self) -> int {
        self.secs * 1_000_000_000 + self.nanos
    }

    pub fn new(secs: i64, nanos: u32) -> (t: Timestamp)
        ensures
            t.secs == secs,
            t.nanos == nanos,
    {
        Timestamp { secs, nanos }
    }

    /// Nanoseconds elapsed from `earlier` to `self` (negative when `earlier`
    /// lies after `self`).
    pub fn nanos_since(self, earlier: Timestamp) -> (d: i128)
        ensures
            d == self.instant() - earlier.instant(),
    {
        let a: i128 = (self.secs as i128) * NANOS_PER_SECOND + (self.nanos as i128);
        let b: i128 = (earlier.secs as i128) * NANOS_PER_SECOND + (earlier.nanos as i128);
        a - b
    }

    /// Whether `self` lies strictly before `other`.
    pub fn is_before(self, other: Timestamp) -> (r: bool)
        ensures
            r == (self.instant() < other.instant()),
    {
        other.nanos_since(self) > 0
    }
}

} // verus!
