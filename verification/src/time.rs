//! NTP fixed-point time: timestamps and signed durations in `2^-32` second
//! ticks, the representation the wire protocol itself uses.

use vstd::prelude::*;

verus! {

/// An absolute moment of the local clock, in `2^-32` second ticks since the
/// NTP era origin.
#[derive(Clone, Copy, Debug, PartialEq, Eq, Structural)]
pub struct NtpTimestamp {
    pub ticks: u64,
}

/// A signed span of time in `2^-32` second ticks.
#[derive(Clone, Copy, Debug, PartialEq, Eq, Structural)]
pub struct NtpDuration {
    pub ticks: i64,
}

impl View for NtpTimestamp {
    type V = int;

    open spec fn view(&self) -> int {
        self.ticks as int
    }
}

impl View for NtpDuration {
    type V = int;

    open spec fn view(&self) -> int {
        self.ticks as int
    }
}

impl NtpTimestamp {
    pub fn from_ticks(ticks: u64) -> (r: Self)
        ensures
            r@ == ticks,
    {
        NtpTimestamp { ticks }
    }

    pub fn ticks(&self) -> (r: u64)
        ensures
            r == self@,
    {
        self.ticks
    }

    /// `true` when `self` happens strictly before `other`.
    pub fn is_before(&self, other: &NtpTimestamp) -> (r: bool)
        ensures
            r == (self@ < other@),
    {
        self.ticks < other.ticks
    }

    /// The signed span from `other` to `self`.
    pub fn elapsed_since(&self, other: &NtpTimestamp) -> (r: NtpDuration)
        requires
            -0x8000_0000_0000_0000 <= self@ - other@ < 0x8000_0000_0000_0000,
        ensures
            r@ == self@ - other@,
    {
        let wide: i128 = self.ticks as i128 - other.ticks as i128;
        NtpDuration { ticks: wide as i64 }
    }

    /// Shift the timestamp by a signed duration.
    pub fn offset_by(&self, delta: &NtpDuration) -> (r: NtpTimestamp)
        requires
            0 <= self@ + delta@ <= u64::MAX,
        ensures
            r@ == self@ + delta@,
    {
        let wide: i128 = self.ticks as i128 + delta.ticks as i128;
        NtpTimestamp { ticks: wide as u64 }
    }
}

impl NtpDuration {
    pub fn from_ticks(ticks: i64) -> (r: Self)
        ensures
            r@ == ticks,
    {
        NtpDuration { ticks }
    }

    pub fn ticks(&self) -> (r: i64)
        ensures
            r == self@,
    {
        self.ticks
    }

    pub fn plus(&self, other: &NtpDuration) -> (r: NtpDuration)
        requires
            i64::MIN <= self@ + other@ <= i64::MAX,
        ensures
            r@ == self@ + other@,
    {
        NtpDuration { ticks: self.ticks + other.ticks }
    }

    pub fn minus(&self, other: &NtpDuration) -> (r: NtpDuration)
        requires
            i64::MIN <= self@ - other@ <= i64::MAX,
        ensures
            r@ == self@ - other@,
    {
        NtpDuration { ticks: self.ticks - other.ticks }
    }
}

} // verus!
