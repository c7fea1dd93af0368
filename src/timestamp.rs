use vstd::prelude::*;

verus! {

/// Nanoseconds in one second.
pub const NANOS_PER_SEC: u32 = 1_000_000_000;

/// A file's last-modification time, held as signed nanoseconds relative to
/// the Unix epoch, so that times before the epoch order correctly too.
#[derive(Clone, Copy, Debug)]
pub struct Timestamp {
    pub nanos: i128,
}

impl View for Timestamp {
    type V = int;

    /// Nanoseconds since the Unix epoch (negative before it).
    open spec fn view(&self) -> int {
        self.nanos as int
    }
}

impl Timestamp {
    /// The time `secs` seconds and `subsec_nanos` nanoseconds after the epoch.
    pub fn after_epoch(secs: u64, subsec_nanos: u32) -> (r: Timestamp)
        requires
            subsec_nanos < NANOS_PER_SEC,
        ensures
            r@ == secs as int * NANOS_PER_SEC as int + subsec_nanos as int,
    {
        assert(secs as int * 1_000_000_000int <= 18_446_744_073_709_551_615int * 1_000_000_000int)
            by (nonlinear_arith);
        let whole: i128 = secs as i128 * (NANOS_PER_SEC as i128);
        Timestamp { nanos: whole + subsec_nanos as i128 }
    }

    /// The time `secs` seconds and `subsec_nanos` nanoseconds before the epoch.
    pub fn before_epoch(secs: u64, subsec_nanos: u32) -> (r: Timestamp)
        requires
            subsec_nanos < NANOS_PER_SEC,
        ensures
            r@ == -(secs as int * NANOS_PER_SEC as int + subsec_nanos as int),
    {
        assert(secs as int * 1_000_000_000int <= 18_446_744_073_709_551_615int * 1_000_000_000int)
            by (nonlinear_arith);
        let whole: i128 = secs as i128 * (NANOS_PER_SEC as i128);
        Timestamp { nanos: 0 - (whole + subsec_nanos as i128) }
    }

    /// Whether this time is strictly later than `other`; equal times are not.
    pub fn is_later_than(&self, other: &Timestamp) -> (r: bool)
        ensures
            r == (self@ > other@),
    {
        self.nanos > other.nanos
    }
}

} // verus!
