use vstd::prelude::*;

verus! {

/// Nanoseconds in one second.
pub const NANOS_PER_SEC: u128 = 1_000_000_000;

/// A length of time, counted in nanoseconds.
#[derive(Clone, Copy, Debug, PartialEq, Eq, Structural)]
pub struct Span {
    pub nanos: u128,
}

impl Span {
    /// The span of `secs` whole seconds.
    pub fn from_secs(secs: u64) -> (span: Span)
        ensures
            span.nanos == secs * NANOS_PER_SEC,
    {
        let wide: u128 = secs as u128;
        Span { nanos: wide * NANOS_PER_SEC }
    }

    /// The span of `secs` seconds and `subsec_nanos` further nanoseconds.
    pub fn new(secs: u64, subsec_nanos: u32) -> (span: Span)
        ensures
            span.nanos == secs * NANOS_PER_SEC + subsec_nanos,
    {
        let wide: u128 = secs as u128;
        let rest: u128 = subsec_nanos as u128;
        Span { nanos: wide * NANOS_PER_SEC + rest }
    }

    /// The whole seconds of the span.
    pub fn whole_secs(&self) -> (secs: u128)
        ensures
            secs == self.nanos / NANOS_PER_SEC,
    {
        self.nanos / NANOS_PER_SEC
    }

    /// What is left of the span beyond its whole seconds, in nanoseconds.
    pub fn subsec_nanos(&self) -> (rest: u32)
        ensures
            rest == self.nanos % NANOS_PER_SEC,
    {
        (self.nanos % NANOS_PER_SEC) as u32
    }

    /// The whole milliseconds of the span.
    pub fn as_millis(&self) -> (millis: u128)
        ensures
            millis == self.nanos / 1_000_000,
    {
        self.nanos / 1_000_000
    }

    /// `self - other`, or `None` where `other` is the longer span.
    pub fn checked_sub(self, other: Span) -> (left: Option<Span>)
        ensures
            self.nanos >= other.nanos ==> left == Some(
                Span { nanos: (self.nanos - other.nanos) as u128 },
            ),
            self.nanos < other.nanos ==> left.is_none(),
    {
        if self.nanos >= other.nanos {
            Some(Span { nanos: self.nanos - other.nanos })
        } else {
            None
        }
    }

    /// The shorter of two spans.
    pub fn min(self, other: Span) -> (least: Span)
        ensures
            least.nanos == if self.nanos <= other.nanos { self.nanos } else { other.nanos },
    {
        if self.nanos <= other.nanos { self } else { other }
    }

    /// The longer of two spans.
    pub fn max(self, other: Span) -> (most: Span)
        ensures
            most.nanos == if self.nanos >= other.nanos { self.nanos } else { other.nanos },
    {
        if self.nanos >= other.nanos { self } else { other }
    }
}

} // verus!
