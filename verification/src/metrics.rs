//! Process-local reliability and latency counters.

use std::time::Duration;

use vstd::prelude::*;
use vstd::string::*;

use crate::clock;
use crate::clock::micros_of;
use crate::text;
use crate::text::push_decimal;

verus! {

/// The values of all counters at one moment.
#[derive(Debug, Clone, Copy, PartialEq, Eq, Structural)]
pub struct MetricsSnapshot {
    pub commands: u64,
    pub command_latency_micros: u64,
    pub command_latency_max_micros: u64,
    pub resolves: u64,
    pub resolve_latency_micros: u64,
    pub resolve_latency_max_micros: u64,
    pub startups: u64,
    pub startup_latency_micros: u64,
    pub startup_latency_max_micros: u64,
    pub underruns: u64,
    pub skips: u64,
    pub failures: u64,
    pub reconnects: u64,
}

impl Default for MetricsSnapshot {
    fn default() -> (snapshot: Self)
        ensures
            snapshot == MetricsSnapshot::zero(),
    {
        MetricsSnapshot {
            commands: 0,
            command_latency_micros: 0,
            command_latency_max_micros: 0,
            resolves: 0,
            resolve_latency_micros: 0,
            resolve_latency_max_micros: 0,
            startups: 0,
            startup_latency_micros: 0,
            startup_latency_max_micros: 0,
            underruns: 0,
            skips: 0,
            failures: 0,
            reconnects: 0,
        }
    }
}

/// Addition of 64-bit counters, which start over after the largest value.
pub open spec fn counted(counter: u64, more: u64) -> u64 {
    if counter + more <= u64::MAX {
        (counter + more) as u64
    } else {
        (counter + more - u64::MAX - 1) as u64
    }
}

/// The larger of two counters.
pub open spec fn larger(left: u64, right: u64) -> u64 {
    if left < right {
        right
    } else {
        left
    }
}

impl MetricsSnapshot {
    /// Every counter at zero.
    pub open spec fn zero() -> MetricsSnapshot {
        MetricsSnapshot {
            commands: 0,
            command_latency_micros: 0,
            command_latency_max_micros: 0,
            resolves: 0,
            resolve_latency_micros: 0,
            resolve_latency_max_micros: 0,
            startups: 0,
            startup_latency_micros: 0,
            startup_latency_max_micros: 0,
            underruns: 0,
            skips: 0,
            failures: 0,
            reconnects: 0,
        }
    }

    /// The counters after a command that took `micros`.
    pub open spec fn with_command(self, micros: u64) -> MetricsSnapshot {
        MetricsSnapshot {
            commands: counted(self.commands, 1),
            command_latency_micros: counted(self.command_latency_micros, micros),
            command_latency_max_micros: larger(self.command_latency_max_micros, micros),
            ..self
        }
    }

    /// The counters after a resolution that took `micros`.
    pub open spec fn with_resolve(self, micros: u64) -> MetricsSnapshot {
        MetricsSnapshot {
            resolves: counted(self.resolves, 1),
            resolve_latency_micros: counted(self.resolve_latency_micros, micros),
            resolve_latency_max_micros: larger(self.resolve_latency_max_micros, micros),
            ..self
        }
    }

    /// The counters after a voice startup that took `micros`.
    pub open spec fn with_startup(self, micros: u64) -> MetricsSnapshot {
        MetricsSnapshot {
            startups: counted(self.startups, 1),
            startup_latency_micros: counted(self.startup_latency_micros, micros),
            startup_latency_max_micros: larger(self.startup_latency_max_micros, micros),
            ..self
        }
    }

    /// The counters after an underrun.
    pub open spec fn with_underrun(self) -> MetricsSnapshot {
        MetricsSnapshot { underruns: counted(self.underruns, 1), ..self }
    }

    /// The counters after a skip.
    pub open spec fn with_skip(self) -> MetricsSnapshot {
        MetricsSnapshot { skips: counted(self.skips, 1), ..self }
    }

    /// The counters after a failure.
    pub open spec fn with_failure(self) -> MetricsSnapshot {
        MetricsSnapshot { failures: counted(self.failures, 1), ..self }
    }

    /// The counters after a reconnect.
    pub open spec fn with_reconnect(self) -> MetricsSnapshot {
        MetricsSnapshot { reconnects: counted(self.reconnects, 1), ..self }
    }

    /// The Prometheus text of all counters.
    pub open spec fn exposition(self) -> Seq<char> {
        metric("sonoryn_commands_total"@, "counter"@, self.commands) + metric(
            "sonoryn_command_latency_microseconds_total"@,
            "counter"@,
            self.command_latency_micros,
        ) + metric(
            "sonoryn_command_latency_microseconds_max"@,
            "gauge"@,
            self.command_latency_max_micros,
        ) + metric("sonoryn_resolves_total"@, "counter"@, self.resolves) + metric(
            "sonoryn_resolve_latency_microseconds_total"@,
            "counter"@,
            self.resolve_latency_micros,
        ) + metric(
            "sonoryn_resolve_latency_microseconds_max"@,
            "gauge"@,
            self.resolve_latency_max_micros,
        ) + metric("sonoryn_voice_startups_total"@, "counter"@, self.startups) + metric(
            "sonoryn_voice_startup_latency_microseconds_total"@,
            "counter"@,
            self.startup_latency_micros,
        ) + metric(
            "sonoryn_voice_startup_latency_microseconds_max"@,
            "gauge"@,
            self.startup_latency_max_micros,
        ) + metric("sonoryn_underruns_total"@, "counter"@, self.underruns) + metric(
            "sonoryn_skips_total"@,
            "counter"@,
            self.skips,
        ) + metric("sonoryn_failures_total"@, "counter"@, self.failures) + metric(
            "sonoryn_reconnects_total"@,
            "counter"@,
            self.reconnects,
        )
    }
}

/// The Prometheus lines of one metric: its type, then its value.
pub open spec fn metric(name: Seq<char>, kind: Seq<char>, value: u64) -> Seq<char> {
    "# TYPE "@ + name + " "@ + kind + "\n"@ + name + " "@ + text::decimal(value as nat) + "\n"@
}

/// Process-local reliability and latency counters.
#[derive(Debug)]
pub struct Metrics {
    counters: MetricsSnapshot,
}

impl View for Metrics {
    type V = MetricsSnapshot;

    closed spec fn view(&self) -> MetricsSnapshot {
        self.counters
    }
}

impl Default for Metrics {
    fn default() -> (metrics: Self)
        ensures
            metrics@ == MetricsSnapshot::zero(),
    {
        Metrics { counters: MetricsSnapshot::default() }
    }
}

impl Metrics {
    #[must_use]
    pub fn new() -> (metrics: Self)
        ensures
            metrics@ == MetricsSnapshot::zero(),
    {
        Metrics::default()
    }

    pub fn record_command_latency(&mut self, elapsed: Duration)
        ensures
            final(self)@ == old(self)@.with_command(clock::whole_micros(elapsed)),
    {
        record_latency(
            &mut self.counters.commands,
            &mut self.counters.command_latency_micros,
            &mut self.counters.command_latency_max_micros,
            elapsed,
        );
    }

    pub fn record_resolve_latency(&mut self, elapsed: Duration)
        ensures
            final(self)@ == old(self)@.with_resolve(clock::whole_micros(elapsed)),
    {
        record_latency(
            &mut self.counters.resolves,
            &mut self.counters.resolve_latency_micros,
            &mut self.counters.resolve_latency_max_micros,
            elapsed,
        );
    }

    pub fn record_startup_latency(&mut self, elapsed: Duration)
        ensures
            final(self)@ == old(self)@.with_startup(clock::whole_micros(elapsed)),
    {
        record_latency(
            &mut self.counters.startups,
            &mut self.counters.startup_latency_micros,
            &mut self.counters.startup_latency_max_micros,
            elapsed,
        );
    }

    pub fn increment_underruns(&mut self)
        ensures
            final(self)@ == old(self)@.with_underrun(),
    {
        self.counters.underruns = self.counters.underruns.wrapping_add(1);
    }

    pub fn increment_skips(&mut self)
        ensures
            final(self)@ == old(self)@.with_skip(),
    {
        self.counters.skips = self.counters.skips.wrapping_add(1);
    }

    pub fn increment_failures(&mut self)
        ensures
            final(self)@ == old(self)@.with_failure(),
    {
        self.counters.failures = self.counters.failures.wrapping_add(1);
    }

    pub fn increment_reconnects(&mut self)
        ensures
            final(self)@ == old(self)@.with_reconnect(),
    {
        self.counters.reconnects = self.counters.reconnects.wrapping_add(1);
    }

    #[must_use]
    pub fn snapshot(&self) -> (snapshot: MetricsSnapshot)
        ensures
            snapshot == self@,
    {
        self.counters
    }

    /// Renders a dependency-free Prometheus text exposition suitable for an
    /// operator endpoint.
    #[must_use]
    pub fn render_prometheus(&self) -> (text: String)
        ensures
            text@ == self@.exposition(),
    {
        let metrics: MetricsSnapshot = self.snapshot();
        let mut out: String = String::new();
        push_metric(&mut out, "sonoryn_commands_total", "counter", metrics.commands);
        push_metric(
            &mut out,
            "sonoryn_command_latency_microseconds_total",
            "counter",
            metrics.command_latency_micros,
        );
        push_metric(
            &mut out,
            "sonoryn_command_latency_microseconds_max",
            "gauge",
            metrics.command_latency_max_micros,
        );
        push_metric(&mut out, "sonoryn_resolves_total", "counter", metrics.resolves);
        push_metric(
            &mut out,
            "sonoryn_resolve_latency_microseconds_total",
            "counter",
            metrics.resolve_latency_micros,
        );
        push_metric(
            &mut out,
            "sonoryn_resolve_latency_microseconds_max",
            "gauge",
            metrics.resolve_latency_max_micros,
        );
        push_metric(&mut out, "sonoryn_voice_startups_total", "counter", metrics.startups);
        push_metric(
            &mut out,
            "sonoryn_voice_startup_latency_microseconds_total",
            "counter",
            metrics.startup_latency_micros,
        );
        push_metric(
            &mut out,
            "sonoryn_voice_startup_latency_microseconds_max",
            "gauge",
            metrics.startup_latency_max_micros,
        );
        push_metric(&mut out, "sonoryn_underruns_total", "counter", metrics.underruns);
        push_metric(&mut out, "sonoryn_skips_total", "counter", metrics.skips);
        push_metric(&mut out, "sonoryn_failures_total", "counter", metrics.failures);
        push_metric(&mut out, "sonoryn_reconnects_total", "counter", metrics.reconnects);
        assert(out@ =~= self@.exposition());
        out
    }
}

fn push_metric(out: &mut String, name: &str, kind: &str, value: u64)
    ensures
        final(out)@ == old(out)@ + metric(name@, kind@, value),
{
    out.append("# TYPE ");
    out.append(name);
    out.append(" ");
    out.append(kind);
    out.append("\n");
    out.append(name);
    out.append(" ");
    push_decimal(out, value);
    out.append("\n");
    assert(out@ =~= old(out)@ + metric(name@, kind@, value));
}

/// Counts one sample, adds it to the total and keeps the largest.
pub fn record_latency(count: &mut u64, total: &mut u64, maximum: &mut u64, elapsed: Duration)
    ensures
        *final(count) == counted(*old(count), 1),
        *final(total) == counted(*old(total), clock::whole_micros(elapsed)),
        *final(maximum) == larger(*old(maximum), clock::whole_micros(elapsed)),
{
    let micros: u64 = micros_of(elapsed);
    *count = count.wrapping_add(1);
    *total = total.wrapping_add(micros);
    if *maximum < micros {
        *maximum = micros;
    }
}

/// The counters after a run of commands.
pub open spec fn after_commands(start: MetricsSnapshot, micros: Seq<u64>) -> MetricsSnapshot
    decreases micros.len(),
{
    if micros.len() == 0 {
        start
    } else {
        after_commands(start, micros.drop_last()).with_command(micros.last())
    }
}

/// The sum of a run of samples.
pub open spec fn sum_of(micros: Seq<u64>) -> nat
    decreases micros.len(),
{
    if micros.len() == 0 {
        0
    } else {
        sum_of(micros.drop_last()) + micros.last() as nat
    }
}

/// After a run of commands on fresh counters, the count is their number, the
/// total their sum and the maximum the largest of them, as far as count and
/// total fit their counters. No other counter has moved.
pub proof fn law_latency_counters_sum_up(micros: Seq<u64>)
    requires
        micros.len() <= u64::MAX,
        sum_of(micros) <= u64::MAX,
    ensures
        ({
            let after = after_commands(MetricsSnapshot::zero(), micros);
            &&& after.commands == micros.len()
            &&& after.command_latency_micros == sum_of(micros)
            &&& forall|i: int|
                0 <= i < micros.len() ==> #[trigger] micros[i] <= after.command_latency_max_micros
            &&& micros.len() > 0 ==> micros.contains(after.command_latency_max_micros)
            &&& after == (MetricsSnapshot {
                commands: after.commands,
                command_latency_micros: after.command_latency_micros,
                command_latency_max_micros: after.command_latency_max_micros,
                ..MetricsSnapshot::zero()
            })
        }),
    decreases micros.len(),
{
    if micros.len() > 0 {
        law_latency_counters_sum_up(micros.drop_last());
        let before = after_commands(MetricsSnapshot::zero(), micros.drop_last());
        let after = after_commands(MetricsSnapshot::zero(), micros);
        assert forall|i: int| 0 <= i < micros.len() implies #[trigger] micros[i]
            <= after.command_latency_max_micros by {
            if i < micros.len() - 1 {
                assert(micros.drop_last()[i] == micros[i]);
            }
        }
        if after.command_latency_max_micros == micros.last() {
            assert(micros[micros.len() - 1] == micros.last());
        } else {
            let j = micros.drop_last().index_of(before.command_latency_max_micros);
            if micros.len() == 1 {
                assert(after.command_latency_max_micros == micros.last());
            } else {
                assert(micros[j] == after.command_latency_max_micros);
            }
        }
    }
}

/// Adding to a counter counts on, and starts over where it no longer fits; of
/// two latencies the larger is kept.
pub proof fn law_counters_count_on(counter: u64, more: u64)
    ensures
        counter + more < 0x1_0000_0000_0000_0000 ==> counted(counter, more) == counter + more,
        counter + more >= 0x1_0000_0000_0000_0000 ==> counted(counter, more) == counter + more
            - 0x1_0000_0000_0000_0000,
        larger(counter, more) >= counter,
        larger(counter, more) >= more,
        larger(counter, more) == counter || larger(counter, more) == more,
{
}

/// Each event moves its own counters and no others: a latency its count by one,
/// its total by itself and its maximum to itself where it is larger, any other
/// event its count by one.
pub proof fn law_events_move_their_own_counters(counters: MetricsSnapshot, micros: u64)
    requires
        counters.commands < u64::MAX,
        counters.resolves < u64::MAX,
        counters.startups < u64::MAX,
        counters.underruns < u64::MAX,
        counters.skips < u64::MAX,
        counters.failures < u64::MAX,
        counters.reconnects < u64::MAX,
        counters.command_latency_micros + micros <= u64::MAX,
        counters.resolve_latency_micros + micros <= u64::MAX,
        counters.startup_latency_micros + micros <= u64::MAX,
    ensures
        ({
            let after = counters.with_command(micros);
            &&& after.commands == counters.commands + 1
            &&& after.command_latency_micros == counters.command_latency_micros + micros
            &&& after.command_latency_max_micros >= counters.command_latency_max_micros && after.command_latency_max_micros >= micros
            &&& after.command_latency_max_micros == counters.command_latency_max_micros || after.command_latency_max_micros == micros
            &&& after == (MetricsSnapshot {
                commands: after.commands,
                command_latency_micros: after.command_latency_micros,
                command_latency_max_micros: after.command_latency_max_micros,
                ..counters
            })
        }),
        ({
            let after = counters.with_resolve(micros);
            &&& after.resolves == counters.resolves + 1
            &&& after.resolve_latency_micros == counters.resolve_latency_micros + micros
            &&& after.resolve_latency_max_micros >= counters.resolve_latency_max_micros && after.resolve_latency_max_micros >= micros
            &&& after.resolve_latency_max_micros == counters.resolve_latency_max_micros || after.resolve_latency_max_micros == micros
            &&& after == (MetricsSnapshot {
                resolves: after.resolves,
                resolve_latency_micros: after.resolve_latency_micros,
                resolve_latency_max_micros: after.resolve_latency_max_micros,
                ..counters
            })
        }),
        ({
            let after = counters.with_startup(micros);
            &&& after.startups == counters.startups + 1
            &&& after.startup_latency_micros == counters.startup_latency_micros + micros
            &&& after.startup_latency_max_micros >= counters.startup_latency_max_micros && after.startup_latency_max_micros >= micros
            &&& after.startup_latency_max_micros == counters.startup_latency_max_micros || after.startup_latency_max_micros == micros
            &&& after == (MetricsSnapshot {
                startups: after.startups,
                startup_latency_micros: after.startup_latency_micros,
                startup_latency_max_micros: after.startup_latency_max_micros,
                ..counters
            })
        }),
        counters.with_underrun().underruns == counters.underruns + 1,
        counters.with_underrun() == (MetricsSnapshot { underruns: counters.with_underrun().underruns, ..counters }),
        counters.with_skip().skips == counters.skips + 1,
        counters.with_skip() == (MetricsSnapshot { skips: counters.with_skip().skips, ..counters }),
        counters.with_failure().failures == counters.failures + 1,
        counters.with_failure() == (MetricsSnapshot { failures: counters.with_failure().failures, ..counters }),
        counters.with_reconnect().reconnects == counters.reconnects + 1,
        counters.with_reconnect() == (MetricsSnapshot { reconnects: counters.with_reconnect().reconnects, ..counters }),
{
}

/// It does not matter in which order two events are counted.
pub proof fn law_order_of_events_does_not_matter(counters: MetricsSnapshot, a: u64, b: u64)
    ensures
        counters.with_command(a).with_command(b) == counters.with_command(b).with_command(a),
        counters.with_resolve(a).with_resolve(b) == counters.with_resolve(b).with_resolve(a),
        counters.with_startup(a).with_startup(b) == counters.with_startup(b).with_startup(a),
        counters.with_command(a).with_resolve(b) == counters.with_resolve(b).with_command(a),
        counters.with_resolve(a).with_startup(b) == counters.with_startup(b).with_resolve(a),
        counters.with_command(a).with_failure() == counters.with_failure().with_command(a),
        counters.with_skip().with_underrun() == counters.with_underrun().with_skip(),
        counters.with_failure().with_reconnect() == counters.with_reconnect().with_failure(),
{
}

/// The text names a metric with its type, and on the next line its value.
pub open spec fn exposes(exposition: Seq<char>, name: Seq<char>, kind: Seq<char>, value: u64) -> bool {
    text::contains(
        exposition,
        "# TYPE "@ + name + " "@ + kind + "\n"@ + name + " "@ + text::decimal(value as nat) + "\n"@,
    )
}

proof fn lemma_exposed_before(first: Seq<char>, p: Seq<char>, second: Seq<char>)
    requires
        text::contains(first, p),
    ensures
        text::contains(first + second, p),
{
    let i = choose|i: int| text::occurs_at(first, p, i);
    assert((first + second).subrange(i, i + p.len()) =~= first.subrange(i, i + p.len()));
    assert(text::occurs_at(first + second, p, i));
}

proof fn lemma_exposed_last(first: Seq<char>, p: Seq<char>)
    ensures
        text::contains(first + p, p),
{
    let i = first.len() as int;
    assert((first + p).subrange(i, i + p.len()) =~= p);
    assert(text::occurs_at(first + p, p, i));
}

/// The metrics of `values`, one behind the other.
spec fn listed(values: Seq<(Seq<char>, Seq<char>, u64)>) -> Seq<char>
    decreases values.len(),
{
    if values.len() == 0 {
        Seq::empty()
    } else {
        listed(values.drop_last()) + metric(values.last().0, values.last().1, values.last().2)
    }
}

proof fn lemma_listed_are_exposed(values: Seq<(Seq<char>, Seq<char>, u64)>, i: int)
    requires
        0 <= i < values.len(),
    ensures
        exposes(listed(values), values[i].0, values[i].1, values[i].2),
    decreases values.len(),
{
    let last = metric(values.last().0, values.last().1, values.last().2);
    if i == values.len() - 1 {
        lemma_exposed_last(listed(values.drop_last()), last);
    } else {
        lemma_listed_are_exposed(values.drop_last(), i);
        let p = metric(values[i].0, values[i].1, values[i].2);
        lemma_exposed_before(listed(values.drop_last()), p, last);
    }
}

proof fn lemma_listed_push(values: Seq<(Seq<char>, Seq<char>, u64)>, next: (Seq<char>, Seq<char>, u64))
    ensures
        listed(values.push(next)) == listed(values) + metric(next.0, next.1, next.2),
{
    assert(values.push(next).drop_last() =~= values);
}

/// Every counter is exposed under its own name, as a total or as a maximum,
/// with the value that it has.
pub proof fn law_every_counter_is_exposed(counters: MetricsSnapshot)
    ensures
        exposes(
            counters.exposition(),
            "sonoryn_commands_total"@,
            "counter"@,
            counters.commands,
        ),
        exposes(
            counters.exposition(),
            "sonoryn_command_latency_microseconds_total"@,
            "counter"@,
            counters.command_latency_micros,
        ),
        exposes(
            counters.exposition(),
            "sonoryn_command_latency_microseconds_max"@,
            "gauge"@,
            counters.command_latency_max_micros,
        ),
        exposes(
            counters.exposition(),
            "sonoryn_resolves_total"@,
            "counter"@,
            counters.resolves,
        ),
        exposes(
            counters.exposition(),
            "sonoryn_resolve_latency_microseconds_total"@,
            "counter"@,
            counters.resolve_latency_micros,
        ),
        exposes(
            counters.exposition(),
            "sonoryn_resolve_latency_microseconds_max"@,
            "gauge"@,
            counters.resolve_latency_max_micros,
        ),
        exposes(
            counters.exposition(),
            "sonoryn_voice_startups_total"@,
            "counter"@,
            counters.startups,
        ),
        exposes(
            counters.exposition(),
            "sonoryn_voice_startup_latency_microseconds_total"@,
            "counter"@,
            counters.startup_latency_micros,
        ),
        exposes(
            counters.exposition(),
            "sonoryn_voice_startup_latency_microseconds_max"@,
            "gauge"@,
            counters.startup_latency_max_micros,
        ),
        exposes(
            counters.exposition(),
            "sonoryn_underruns_total"@,
            "counter"@,
            counters.underruns,
        ),
        exposes(
            counters.exposition(),
            "sonoryn_skips_total"@,
            "counter"@,
            counters.skips,
        ),
        exposes(
            counters.exposition(),
            "sonoryn_failures_total"@,
            "counter"@,
            counters.failures,
        ),
        exposes(
            counters.exposition(),
            "sonoryn_reconnects_total"@,
            "counter"@,
            counters.reconnects,
        ),
{
    let none = Seq::<(Seq<char>, Seq<char>, u64)>::empty();
    assert(listed(none) =~= Seq::<char>::empty());
    let next0 = ("sonoryn_commands_total"@, "counter"@, counters.commands);
    lemma_listed_push(none, next0);
    let upto0 = none.push(next0);
    let next1 = ("sonoryn_command_latency_microseconds_total"@, "counter"@, counters.command_latency_micros);
    lemma_listed_push(upto0, next1);
    let upto1 = upto0.push(next1);
    let next2 = ("sonoryn_command_latency_microseconds_max"@, "gauge"@, counters.command_latency_max_micros);
    lemma_listed_push(upto1, next2);
    let upto2 = upto1.push(next2);
    let next3 = ("sonoryn_resolves_total"@, "counter"@, counters.resolves);
    lemma_listed_push(upto2, next3);
    let upto3 = upto2.push(next3);
    let next4 = ("sonoryn_resolve_latency_microseconds_total"@, "counter"@, counters.resolve_latency_micros);
    lemma_listed_push(upto3, next4);
    let upto4 = upto3.push(next4);
    let next5 = ("sonoryn_resolve_latency_microseconds_max"@, "gauge"@, counters.resolve_latency_max_micros);
    lemma_listed_push(upto4, next5);
    let upto5 = upto4.push(next5);
    let next6 = ("sonoryn_voice_startups_total"@, "counter"@, counters.startups);
    lemma_listed_push(upto5, next6);
    let upto6 = upto5.push(next6);
    let next7 = ("sonoryn_voice_startup_latency_microseconds_total"@, "counter"@, counters.startup_latency_micros);
    lemma_listed_push(upto6, next7);
    let upto7 = upto6.push(next7);
    let next8 = ("sonoryn_voice_startup_latency_microseconds_max"@, "gauge"@, counters.startup_latency_max_micros);
    lemma_listed_push(upto7, next8);
    let upto8 = upto7.push(next8);
    let next9 = ("sonoryn_underruns_total"@, "counter"@, counters.underruns);
    lemma_listed_push(upto8, next9);
    let upto9 = upto8.push(next9);
    let next10 = ("sonoryn_skips_total"@, "counter"@, counters.skips);
    lemma_listed_push(upto9, next10);
    let upto10 = upto9.push(next10);
    let next11 = ("sonoryn_failures_total"@, "counter"@, counters.failures);
    lemma_listed_push(upto10, next11);
    let upto11 = upto10.push(next11);
    let next12 = ("sonoryn_reconnects_total"@, "counter"@, counters.reconnects);
    lemma_listed_push(upto11, next12);
    let upto12 = upto11.push(next12);
    assert(Seq::<char>::empty() + metric(next0.0, next0.1, next0.2) =~= metric(
        next0.0,
        next0.1,
        next0.2,
    ));
    assert(counters.exposition() == listed(upto12));
    assert(upto12[0] == next0);
    lemma_listed_are_exposed(upto12, 0);
    assert(upto12[1] == next1);
    lemma_listed_are_exposed(upto12, 1);
    assert(upto12[2] == next2);
    lemma_listed_are_exposed(upto12, 2);
    assert(upto12[3] == next3);
    lemma_listed_are_exposed(upto12, 3);
    assert(upto12[4] == next4);
    lemma_listed_are_exposed(upto12, 4);
    assert(upto12[5] == next5);
    lemma_listed_are_exposed(upto12, 5);
    assert(upto12[6] == next6);
    lemma_listed_are_exposed(upto12, 6);
    assert(upto12[7] == next7);
    lemma_listed_are_exposed(upto12, 7);
    assert(upto12[8] == next8);
    lemma_listed_are_exposed(upto12, 8);
    assert(upto12[9] == next9);
    lemma_listed_are_exposed(upto12, 9);
    assert(upto12[10] == next10);
    lemma_listed_are_exposed(upto12, 10);
    assert(upto12[11] == next11);
    lemma_listed_are_exposed(upto12, 11);
    assert(upto12[12] == next12);
    lemma_listed_are_exposed(upto12, 12);
}

} // verus!
