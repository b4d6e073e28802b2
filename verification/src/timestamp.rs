use vstd::prelude::*;

verus! {

/// A point in time as seconds since the Unix epoch (UTC) and the nanoseconds
/// within that second. Nanoseconds of `1_000_000_000` and more stand for a
/// leap second, as they do in `chrono`.
#[derive(Clone, Copy, Debug, PartialEq, Eq, Structural)]
pub struct Timestamp {
    pub secs: i64,
    pub nanos: u32,
}

impl Timestamp {
    pub fn new(secs: i64, nanos: u32) -> (t: Timestamp)
        ensures
            t.secs == secs,
            t.nanos == nanos,
    {
        Timestamp { secs, nanos }
    }

    /// `self` is no later than `other`: time order, seconds first.
    pub open spec fn no_later_than(self, other: Timestamp) -> bool {
        self.secs < other.secs || (self.secs == other.secs && self.nanos <= other.nanos)
    }

    pub fn is_no_later_than(&self, other: &Timestamp) -> (b: bool)
        ensures
            b == self.no_later_than(*other),
    {
        self.secs < other.secs || (self.secs == other.secs && self.nanos <= other.nanos)
    }
}

} // verus!
