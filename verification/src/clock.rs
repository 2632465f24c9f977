//! Spans of time.

use std::time::Duration;

use vstd::prelude::*;

verus! {

/// The length of a span of time in nanoseconds, as `Duration::as_nanos` gives
/// it.
pub uninterp spec fn duration_nanos(span: Duration) -> nat;

/// `Duration::from_secs`: a span of so many seconds.
pub assume_specification[ Duration::from_secs ](secs: u64) -> (span: Duration)
    ensures
        duration_nanos(span) == secs * 1_000_000_000,
;

/// `Duration::from_millis`: a span of so many milliseconds.
pub assume_specification[ Duration::from_millis ](millis: u64) -> (span: Duration)
    ensures
        duration_nanos(span) == millis * 1_000_000,
;

/// `Duration::as_nanos`: the length of the span in nanoseconds.
#[verifier::external_body]
fn nanos_of(span: Duration) -> (nanos: u128)
    ensures
        nanos == duration_nanos(span),
{
    span.as_nanos()
}

/// The whole seconds in a span of time.
pub open spec fn whole_seconds(span: Duration) -> nat {
    duration_nanos(span) / 1_000_000_000
}

/// `Duration::as_secs`: the whole seconds in the span.
pub assume_specification[ Duration::as_secs ](span: &Duration) -> (secs: u64)
    ensures
        secs == whole_seconds(*span),
;

/// The text that `Duration`'s `Debug` gives for a span of time, such as `30s`.
pub uninterp spec fn duration_debug(span: Duration) -> Seq<char>;

/// `Duration`'s `Debug`: the span in words. How it chooses unit and digits is
/// left unsaid.
#[verifier::external_body]
pub(crate) fn span_text(span: Duration) -> (text: String)
    ensures
        text@ == duration_debug(span),
{
    format!("{span:?}")
}

/// The whole microseconds in a span of time, as far as they can be counted in
/// 64 bits.
pub open spec fn whole_micros(span: Duration) -> u64 {
    if duration_nanos(span) / 1_000 <= u64::MAX {
        (duration_nanos(span) / 1_000) as u64
    } else {
        u64::MAX
    }
}

/// The whole microseconds in a span of time, or the largest count.
pub fn micros_of(span: Duration) -> (micros: u64)
    ensures
        micros == whole_micros(span),
{
    let micros: u128 = nanos_of(span) / 1_000;
    if micros <= u64::MAX as u128 {
        micros as u64
    } else {
        u64::MAX
    }
}

/// Whole seconds and microseconds are what a span holds of them completely; a
/// span too long to count gives the largest count.
pub proof fn law_whole_units_are_completed(span: Duration)
    ensures
        whole_seconds(span) * 1_000_000_000 <= duration_nanos(span) < (whole_seconds(span) + 1)
            * 1_000_000_000,
        whole_micros(span) * 1_000 <= duration_nanos(span),
        whole_micros(span) < u64::MAX ==> duration_nanos(span) < (whole_micros(span) + 1) * 1_000,
{
}

} // verus!
