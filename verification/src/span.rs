//! Signed spans of time, to the nanosecond.
use vstd::prelude::*;

verus! {

/// Nanoseconds in a second.
pub const NANOS_PER_SEC: i64 = 1_000_000_000;

/// Nanoseconds in a millisecond.
pub const NANOS_PER_MILLI: i64 = 1_000_000;

/// The quotient of `a` by a positive `b`, rounded towards zero.
pub open spec fn quotient(a: int, b: int) -> int
    recommends
        b > 0,
{
    if a >= 0 {
        a / b
    } else {
        -((-a) / b)
    }
}

/// Whether a span may last `nanos` nanoseconds: no less than `i64::MIN` milliseconds and no
/// more than `i64::MAX` of them.
pub open spec fn in_range(nanos: int) -> bool {
    i64::MIN * NANOS_PER_MILLI <= nanos <= i64::MAX * NANOS_PER_MILLI
}

/// Whole seconds of a span of `nanos` nanoseconds.
pub open spec fn whole_seconds(nanos: int) -> int {
    quotient(nanos, NANOS_PER_SEC as int)
}

/// Whole minutes of a span of `nanos` nanoseconds.
pub open spec fn whole_minutes(nanos: int) -> int {
    quotient(whole_seconds(nanos), 60)
}

/// Whole hours of a span of `nanos` nanoseconds.
pub open spec fn whole_hours(nanos: int) -> int {
    quotient(whole_seconds(nanos), 3600)
}

/// Whole milliseconds of a span of `nanos` nanoseconds.
pub open spec fn whole_millis(nanos: int) -> int {
    quotient(nanos, NANOS_PER_MILLI as int)
}

/// Whether `secs` whole seconds and `nanos` further nanoseconds describe a span: both run in
/// the same direction, the second is less than a second, and the whole is in range.
pub open spec fn is_split(secs: int, nanos: int) -> bool {
    &&& -NANOS_PER_SEC < nanos < NANOS_PER_SEC
    &&& secs > 0 ==> nanos >= 0
    &&& secs < 0 ==> nanos <= 0
    &&& in_range(secs * NANOS_PER_SEC + nanos)
}

/// A span of time, forwards or backwards. Its view is its length in nanoseconds.
#[derive(Clone, Copy, Debug, PartialEq, Eq)]
pub struct Span {
    secs: i64,
    nanos: i32,
}

impl View for Span {
    type V = int;

    closed spec fn view(&self) -> int {
        self.secs * NANOS_PER_SEC + self.nanos
    }
}

impl Span {
    /// The two parts of a span make it up as `is_split` says.
    #[verifier::type_invariant]
    pub closed spec fn wf(self) -> bool {
        is_split(self.secs as int, self.nanos as int)
    }

    /// The span of `secs` seconds and `nanos` nanoseconds, if the two describe one.
    pub fn new(secs: i64, nanos: i32) -> (span: Option<Span>)
        ensures
            span is Some <==> is_split(secs as int, nanos as int),
            span matches Some(s) ==> s@ == secs * NANOS_PER_SEC + nanos,
    {
        let total: i128 = secs as i128 * NANOS_PER_SEC as i128 + nanos as i128;
        let lowest: i128 = i64::MIN as i128 * NANOS_PER_MILLI as i128;
        let highest: i128 = i64::MAX as i128 * NANOS_PER_MILLI as i128;
        let small = -1_000_000_000 < nanos && nanos < 1_000_000_000;
        let aligned = (secs <= 0 || nanos >= 0) && (secs >= 0 || nanos <= 0);
        if small && aligned && lowest <= total && total <= highest {
            Some(Span { secs, nanos })
        } else {
            None
        }
    }

    /// The length of the span in nanoseconds.
    pub(crate) fn total(&self) -> (nanos: i128)
        ensures
            nanos == self@,
            in_range(self@),
    {
        proof {
            use_type_invariant(self);
        }
        self.secs as i128 * NANOS_PER_SEC as i128 + self.nanos as i128
    }

    /// Whole seconds, by `time::Duration::num_seconds`: the count is rounded towards zero.
    #[verifier::external_body]
    pub(crate) fn num_seconds(&self) -> (count: i64)
        requires
            self.wf(),
        ensures
            count == whole_seconds(self@),
    {
        (time::Duration::seconds(self.secs) + time::Duration::nanoseconds(self.nanos as i64))
            .num_seconds()
    }

    /// Whole minutes, by `time::Duration::num_minutes`: the count of whole seconds divided by
    /// sixty and rounded towards zero.
    #[verifier::external_body]
    pub(crate) fn num_minutes(&self) -> (count: i64)
        requires
            self.wf(),
        ensures
            count == whole_minutes(self@),
    {
        (time::Duration::seconds(self.secs) + time::Duration::nanoseconds(self.nanos as i64))
            .num_minutes()
    }

    /// Whole hours, by `time::Duration::num_hours`: the count of whole seconds divided by
    /// 3600 and rounded towards zero.
    #[verifier::external_body]
    pub(crate) fn num_hours(&self) -> (count: i64)
        requires
            self.wf(),
        ensures
            count == whole_hours(self@),
    {
        (time::Duration::seconds(self.secs) + time::Duration::nanoseconds(self.nanos as i64))
            .num_hours()
    }

    /// Whole milliseconds, by `time::Duration::num_milliseconds`: the count is rounded towards
    /// zero.
    #[verifier::external_body]
    pub(crate) fn num_milliseconds(&self) -> (count: i64)
        requires
            self.wf(),
        ensures
            count == whole_millis(self@),
    {
        (time::Duration::seconds(self.secs) + time::Duration::nanoseconds(self.nanos as i64))
            .num_milliseconds()
    }

    /// The span of `count` nanoseconds, by `time::Duration::nanoseconds`.
    #[verifier::external_body]
    pub(crate) fn nanoseconds(count: i64) -> (span: Span)
        ensures
            span.wf(),
            span@ == count,
    {
        let span = time::Duration::nanoseconds(count);
        let secs = span.num_seconds();
        let rest = span - time::Duration::seconds(secs);
        Span { secs, nanos: rest.num_nanoseconds().unwrap() as i32 }
    }

    /// This span followed by `other`, by the `+` of `time::Duration`, whose result is exact
    /// where it is in range.
    #[verifier::external_body]
    pub(crate) fn followed_by(&self, other: &Span) -> (span: Span)
        requires
            self.wf(),
            other.wf(),
            in_range(self@ + other@),
        ensures
            span.wf(),
            span@ == self@ + other@,
    {
        let span = time::Duration::seconds(self.secs)
            + time::Duration::nanoseconds(self.nanos as i64)
            + (time::Duration::seconds(other.secs)
            + time::Duration::nanoseconds(other.nanos as i64));
        let secs = span.num_seconds();
        let rest = span - time::Duration::seconds(secs);
        Span { secs, nanos: rest.num_nanoseconds().unwrap() as i32 }
    }
}

} // verus!
