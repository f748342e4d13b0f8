//! Points in time on a monotonic clock, and the idle test made on them.

use vstd::prelude::*;

verus! {

/// Nanoseconds in one second.
pub const NANOS_PER_SEC: u64 = 1_000_000_000;

/// A point in time: nanoseconds counted from an origin that the caller fixes
/// once, such as the moment the daemon started.
#[derive(Clone, Copy, Debug, PartialEq, Eq, Structural)]
pub struct Timestamp {
    nanos: u128,
}

impl View for Timestamp {
    type V = nat;

    closed spec fn view(&self) -> nat {
        self.nanos as nat
    }
}

/// Whether the stretch from `last` to `now` is strictly longer than
/// `timeout_secs` seconds. A `now` that lies before `last` is no stretch at
/// all.
pub open spec fn idle_exceeded(now: nat, last: nat, timeout_secs: nat) -> bool {
    now - last > timeout_secs * NANOS_PER_SEC
}

impl Timestamp {
    /// The point `secs` seconds and `subsec_nanos` nanoseconds after the
    /// origin.
    pub fn from_parts(secs: u64, subsec_nanos: u32) -> (t: Timestamp)
        ensures
            t@ == secs * NANOS_PER_SEC + subsec_nanos,
    {
        assert(secs * NANOS_PER_SEC <= u64::MAX * NANOS_PER_SEC) by (nonlinear_arith)
            requires
                secs <= u64::MAX,
        ;
        Timestamp { nanos: (secs as u128) * (NANOS_PER_SEC as u128) + (subsec_nanos as u128) }
    }

    /// The point a whole number of seconds after the origin.
    pub fn from_secs(secs: u64) -> (t: Timestamp)
        ensures
            t@ == secs * NANOS_PER_SEC,
    {
        Timestamp::from_parts(secs, 0)
    }

    /// Whole seconds between the origin and this point.
    pub fn as_secs(&self) -> (secs: u128)
        ensures
            secs == self@ / (NANOS_PER_SEC as nat),
    {
        self.nanos / (NANOS_PER_SEC as u128)
    }

    /// Nanoseconds of this point beyond its last whole second.
    pub fn subsec_nanos(&self) -> (nanos: u32)
        ensures
            nanos == self@ % (NANOS_PER_SEC as nat),
    {
        (self.nanos % (NANOS_PER_SEC as u128)) as u32
    }

    /// Tests whether more than `timeout_secs` seconds lie between `last` and
    /// this point.
    pub fn idle_exceeded(&self, last: &Timestamp, timeout_secs: u64) -> (idle: bool)
        ensures
            idle == idle_exceeded(self@, last@, timeout_secs as nat),
    {
        assert(timeout_secs * NANOS_PER_SEC <= u64::MAX * NANOS_PER_SEC) by (nonlinear_arith)
            requires
                timeout_secs <= u64::MAX,
        ;
        self.nanos > last.nanos && self.nanos - last.nanos > (timeout_secs as u128) * (
        NANOS_PER_SEC as u128)
    }
}

} // verus!
