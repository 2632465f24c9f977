//! Keeps account of resolver operations.

use std::time::Duration;

use vstd::prelude::*;

use crate::clock;
use crate::media::resolver::ResolveError;
use crate::metrics::{Metrics, MetricsSnapshot};

verus! {

/// Default process-wide cap for concurrent resolver/backend operations.
pub const MAX_RESOLUTION_CONCURRENCY: usize = 8;

/// The counters after a resolver operation that took `micros`.
pub open spec fn accounted(counters: MetricsSnapshot, micros: u64, failed: bool) -> MetricsSnapshot {
    if failed {
        counters.with_resolve(micros).with_failure()
    } else {
        counters.with_resolve(micros)
    }
}

/// Records a resolver operation and hands its result on.
pub fn instrument<T>(
    metrics: &mut Metrics,
    elapsed: Duration,
    result: Result<T, ResolveError>,
) -> (same: Result<T, ResolveError>)
    ensures
        same == result,
        final(metrics)@ == accounted(old(metrics)@, clock::whole_micros(elapsed), result is Err),
{
    metrics.record_resolve_latency(elapsed);
    if result.is_err() {
        metrics.increment_failures();
    }
    result
}

/// A resolver operation counts as one resolution with its latency, and as one
/// failure more exactly if it failed. No other counter moves.
pub proof fn law_resolutions_are_counted(counters: MetricsSnapshot, micros: u64, failed: bool)
    requires
        counters.resolves < u64::MAX,
        counters.failures < u64::MAX,
        counters.resolve_latency_micros + micros <= u64::MAX,
    ensures
        ({
            let after = accounted(counters, micros, failed);
            &&& after.resolves == counters.resolves + 1
            &&& after.resolve_latency_micros == counters.resolve_latency_micros + micros
            &&& after.failures == counters.failures + if failed {
                1int
            } else {
                0
            }
            &&& after.commands == counters.commands
            &&& after.startups == counters.startups
            &&& after.underruns == counters.underruns
            &&& after.skips == counters.skips
            &&& after.reconnects == counters.reconnects
        }),
{
}

} // verus!
