use std::time::Duration;

use sonoryn::media::observed::instrument;
use sonoryn::media::resolver::ResolveError;
use sonoryn::metrics::{record_latency, Metrics, MetricsSnapshot};

#[test]
fn latency_metrics_track_count_total_and_maximum() {
    let mut metrics = Metrics::new();
    metrics.record_command_latency(Duration::from_micros(10));
    metrics.record_command_latency(Duration::from_micros(25));

    let snapshot = metrics.snapshot();
    assert_eq!(snapshot.commands, 2);
    assert_eq!(snapshot.command_latency_micros, 35);
    assert_eq!(snapshot.command_latency_max_micros, 25);
}

#[test]
fn reliability_counters_and_text_exposition_are_stable() {
    let mut metrics = Metrics::new();
    metrics.increment_underruns();
    metrics.increment_skips();
    metrics.increment_failures();
    metrics.increment_reconnects();

    let snapshot = metrics.snapshot();
    assert_eq!(snapshot.underruns, 1);
    assert_eq!(snapshot.skips, 1);
    assert_eq!(snapshot.failures, 1);
    assert_eq!(snapshot.reconnects, 1);

    let rendered = metrics.render_prometheus();
    assert!(rendered.contains("sonoryn_underruns_total 1\n"));
    assert!(rendered.contains("sonoryn_reconnects_total 1\n"));
}

#[test]
fn exposition_is_complete() {
    let mut metrics = Metrics::new();
    metrics.record_resolve_latency(Duration::from_millis(3));
    metrics.record_startup_latency(Duration::from_secs(1));
    assert_eq!(
        metrics.render_prometheus(),
        "# TYPE sonoryn_commands_total counter\n\
         sonoryn_commands_total 0\n\
         # TYPE sonoryn_command_latency_microseconds_total counter\n\
         sonoryn_command_latency_microseconds_total 0\n\
         # TYPE sonoryn_command_latency_microseconds_max gauge\n\
         sonoryn_command_latency_microseconds_max 0\n\
         # TYPE sonoryn_resolves_total counter\n\
         sonoryn_resolves_total 1\n\
         # TYPE sonoryn_resolve_latency_microseconds_total counter\n\
         sonoryn_resolve_latency_microseconds_total 3000\n\
         # TYPE sonoryn_resolve_latency_microseconds_max gauge\n\
         sonoryn_resolve_latency_microseconds_max 3000\n\
         # TYPE sonoryn_voice_startups_total counter\n\
         sonoryn_voice_startups_total 1\n\
         # TYPE sonoryn_voice_startup_latency_microseconds_total counter\n\
         sonoryn_voice_startup_latency_microseconds_total 1000000\n\
         # TYPE sonoryn_voice_startup_latency_microseconds_max gauge\n\
         sonoryn_voice_startup_latency_microseconds_max 1000000\n\
         # TYPE sonoryn_underruns_total counter\n\
         sonoryn_underruns_total 0\n\
         # TYPE sonoryn_skips_total counter\n\
         sonoryn_skips_total 0\n\
         # TYPE sonoryn_failures_total counter\n\
         sonoryn_failures_total 0\n\
         # TYPE sonoryn_reconnects_total counter\n\
         sonoryn_reconnects_total 0\n"
    );
}

#[test]
fn counters_start_over_and_micros_saturate() {
    let mut count = u64::MAX;
    let mut total = u64::MAX - 1;
    let mut maximum = 7;
    record_latency(&mut count, &mut total, &mut maximum, Duration::from_nanos(5_999));
    assert_eq!((count, total, maximum), (0, 3, 7));
    record_latency(&mut count, &mut total, &mut maximum, Duration::MAX);
    assert_eq!((count, maximum), (1, u64::MAX));
}

#[test]
fn resolver_operations_are_accounted_for() {
    let mut metrics = Metrics::default();
    assert_eq!(metrics.snapshot(), MetricsSnapshot::default());
    let kept = instrument(&mut metrics, Duration::from_micros(4), Ok(5));
    assert!(matches!(kept, Ok(5)));
    let failed: Result<u8, ResolveError> =
        instrument(&mut metrics, Duration::from_micros(6), Err(ResolveError::NoResults));
    assert!(matches!(failed, Err(ResolveError::NoResults)));
    let snapshot = metrics.snapshot();
    assert_eq!(snapshot.resolves, 2);
    assert_eq!(snapshot.resolve_latency_micros, 10);
    assert_eq!(snapshot.resolve_latency_max_micros, 6);
    assert_eq!(snapshot.failures, 1);
}
