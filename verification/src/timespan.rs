//! Lengths of time, counted in whole nanoseconds.

use vstd::prelude::*;

verus! {

pub const NANOS_PER_SEC: u128 = 1_000_000_000;

pub const NANOS_PER_MILLI: u128 = 1_000_000;

/// A length of time: a timeout that a step is given, or the wall-clock time
/// that a step took.
#[derive(Clone, Copy, Debug, PartialEq, Eq, Structural, PartialOrd, Ord, Hash)]
pub struct TimeSpan {
    pub nanos: u128,
}

impl View for TimeSpan {
    type V = nat;

    open spec fn view(&self) -> nat {
        self.nanos as nat
    }
}

impl TimeSpan {
    pub fn from_nanos(nanos: u128) -> (span: TimeSpan)
        ensures
            span@ == nanos,
    {
        TimeSpan { nanos }
    }

    pub fn from_millis(millis: u64) -> (span: TimeSpan)
        ensures
            span@ == millis * NANOS_PER_MILLI,
    {
        let wide: u128 = millis as u128;
        TimeSpan { nanos: wide * NANOS_PER_MILLI }
    }

    pub fn from_secs(secs: u64) -> (span: TimeSpan)
        ensures
            span@ == secs * NANOS_PER_SEC,
    {
        let wide: u128 = secs as u128;
        TimeSpan { nanos: wide * NANOS_PER_SEC }
    }

    pub fn as_nanos(&self) -> (nanos: u128)
        ensures
            nanos == self@,
    {
        self.nanos
    }

    pub fn is_zero(&self) -> (zero: bool)
        ensures
            zero <==> self@ == 0,
    {
        self.nanos == 0
    }

    /// The sum of two lengths, unless it is more than a `TimeSpan` holds.
    pub fn checked_add(&self, other: TimeSpan) -> (sum: Option<TimeSpan>)
        ensures
            sum is Some <==> self@ + other@ <= u128::MAX,
            sum matches Some(s) ==> s@ == self@ + other@,
    {
        match self.nanos.checked_add(other.nanos) {
            Some(nanos) => Some(TimeSpan { nanos }),
            None => None,
        }
    }
}

} // verus!
