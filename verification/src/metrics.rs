//! Operational metrics: navigation outcomes, load durations, the last error
//! and the last recovery, and what is derived from them.
//!
//! Times are whole nanoseconds. A point in time is counted from the moment the
//! collector was created; a duration is the length of one page load. Ratios
//! are kept exact, as a numerator and a denominator.
//!
//! A collector is a plain value with one owner, and every operation on it is
//! one short step. Where events arrive from several threads, the collector
//! goes behind a lock and each event is recorded under it.

use vstd::prelude::*;
use vstd::relations::{sorted_by, total_ordering};
use vstd::seq_lib::lemma_sorted_unique;
use std::time::Instant;
use crate::clock::{elapsed_since, instant_now, saturating_nanos, whole_nanos};

verus! {

/// How many load durations are retained; older ones are dropped first.
pub const MAX_SAMPLES: usize = 1000;

/// For this long after an error the collector reports itself unhealthy.
pub const ERROR_WINDOW_NANOS: u64 = 300_000_000_000;

/// Nanoseconds in a millisecond.
pub const NANOS_PER_MILLI: u64 = 1_000_000;

/// Nanoseconds in a second.
pub const NANOS_PER_SECOND: u64 = 1_000_000_000;

/// A non-negative fraction, `numerator / denominator`. The denominator of a
/// ratio that this module hands out is never zero.
#[derive(Debug, Clone, Copy, PartialEq, Eq, Structural)]
pub struct Ratio {
    pub numerator: u128,
    pub denominator: u128,
}

impl Ratio {
    /// Whether this fraction is strictly greater than `numerator / denominator`.
    pub open spec fn exceeds(self, numerator: nat, denominator: nat) -> bool {
        self.numerator * denominator > numerator * self.denominator
    }
}

/// The mathematical content of a [`Metrics`] collector.
pub struct MetricsState {
    /// Navigations recorded, successful or not.
    pub navigation_count: u64,
    /// Failed navigations and errors recorded.
    pub navigation_errors: u64,
    /// Durations of the most recent successful loads, oldest first.
    pub samples: Seq<u64>,
    /// Time and message of the last recorded error.
    pub last_error: Option<(u64, Seq<char>)>,
    /// Time of the last successful navigation.
    pub last_recovery: Option<u64>,
}

/// A counter one step further; it starts over at zero after `u64::MAX`.
pub open spec fn bump(counter: u64) -> u64 {
    if counter == u64::MAX {
        0
    } else {
        (counter + 1) as u64
    }
}

/// The last `MAX_SAMPLES` elements of `samples`, or all of them if there are
/// fewer.
pub open spec fn most_recent(samples: Seq<u64>) -> Seq<u64> {
    if samples.len() <= MAX_SAMPLES {
        samples
    } else {
        samples.subrange(samples.len() - MAX_SAMPLES, samples.len() as int)
    }
}

/// Sum of all elements.
pub open spec fn total(samples: Seq<u64>) -> nat
    decreases samples.len(),
{
    if samples.len() == 0 {
        0
    } else {
        total(samples.drop_last()) + samples.last() as nat
    }
}

/// The order by which durations are ranked.
pub open spec fn at_most() -> spec_fn(u64, u64) -> bool {
    |a: u64, b: u64| a <= b
}

/// `samples` in ascending order.
pub open spec fn ascending(samples: Seq<u64>) -> Seq<u64> {
    samples.sort_by(at_most())
}

/// Rank of the `percent`-th percentile among `count` sorted samples:
/// `floor(count * percent / 100)`, and the last rank where that would lie
/// beyond it.
pub open spec fn percentile_rank(count: nat, percent: nat) -> int
    recommends
        count > 0,
{
    let rank = (count * percent) / 100;
    if rank >= count {
        count - 1
    } else {
        rank as int
    }
}

/// The arithmetic mean of `samples`, which are nanoseconds, in milliseconds:
/// their sum over their number, and zero when there is no sample.
pub open spec fn mean_millis(samples: Seq<u64>) -> Ratio {
    if samples.len() == 0 {
        Ratio { numerator: 0, denominator: 1 }
    } else {
        Ratio {
            numerator: total(samples) as u128,
            denominator: (samples.len() * NANOS_PER_MILLI) as u128,
        }
    }
}

/// The `percent`-th percentile of `samples`, zero when there is no sample.
pub open spec fn percentile(samples: Seq<u64>, percent: nat) -> u64 {
    if samples.len() == 0 {
        0
    } else {
        ascending(samples)[percentile_rank(samples.len(), percent)]
    }
}

impl MetricsState {
    /// Nothing recorded yet.
    pub open spec fn initial() -> Self {
        MetricsState {
            navigation_count: 0,
            navigation_errors: 0,
            samples: Seq::empty(),
            last_error: None,
            last_recovery: None,
        }
    }

    /// The state after a navigation that ended at `now` and took `duration`.
    pub open spec fn record_navigation(self, success: bool, duration: u64, now: u64) -> Self {
        if success {
            MetricsState {
                navigation_count: bump(self.navigation_count),
                samples: most_recent(self.samples.push(duration)),
                last_recovery: Some(now),
                ..self
            }
        } else {
            MetricsState {
                navigation_count: bump(self.navigation_count),
                navigation_errors: bump(self.navigation_errors),
                ..self
            }
        }
    }

    /// The state after an error reported at `now`.
    pub open spec fn record_error(self, message: Seq<char>, now: u64) -> Self {
        MetricsState {
            navigation_errors: bump(self.navigation_errors),
            last_error: Some((now, message)),
            ..self
        }
    }

    /// Failures per navigation; zero while no navigation has been recorded.
    pub open spec fn error_rate(self) -> Ratio {
        if self.navigation_count == 0 {
            Ratio { numerator: 0, denominator: 1 }
        } else {
            Ratio {
                numerator: self.navigation_errors as u128,
                denominator: self.navigation_count as u128,
            }
        }
    }

    /// Time from the last error to the last recovery, where the recovery came
    /// after the error; zero otherwise.
    pub open spec fn mttr(self) -> u64 {
        match (self.last_error, self.last_recovery) {
            (Some((failed, _)), Some(recovered)) => if recovered > failed {
                (recovered - failed) as u64
            } else {
                0
            },
            _ => 0,
        }
    }

    /// Whether an error was recorded less than `ERROR_WINDOW_NANOS` before
    /// `now`.
    pub open spec fn recent_error(self, now: u64) -> bool {
        self.last_error matches Some((failed, _)) && now - failed < ERROR_WINDOW_NANOS
    }

    /// Healthy means: no more than 5% of the navigations failed, and no error
    /// in the window that ends at `now`.
    pub open spec fn healthy_at(self, now: u64) -> bool {
        !self.error_rate().exceeds(5, 100) && !self.recent_error(now)
    }
}

/// One thing that can be recorded.
pub enum MetricsEvent {
    /// A navigation that ended at `at` after `duration`.
    Navigation { success: bool, duration: u64, at: u64 },
    /// An error reported at `at`.
    Error { message: Seq<char>, at: u64 },
}

impl MetricsEvent {
    /// Whether the event counts as a navigation.
    pub open spec fn is_navigation(self) -> bool {
        self is Navigation
    }

    /// Whether the event counts as a failure: a navigation that did not
    /// succeed, or a reported error.
    pub open spec fn is_failure(self) -> bool {
        match self {
            MetricsEvent::Navigation { success, .. } => !success,
            MetricsEvent::Error { .. } => true,
        }
    }
}

/// How many of `events` are navigations.
pub open spec fn navigations(events: Seq<MetricsEvent>) -> nat {
    events.fold_left(
        0nat,
        |n: nat, e: MetricsEvent|
            if e.is_navigation() {
                n + 1
            } else {
                n
            },
    )
}

/// How many of `events` are failures.
pub open spec fn failures(events: Seq<MetricsEvent>) -> nat {
    events.fold_left(
        0nat,
        |k: nat, e: MetricsEvent|
            if e.is_failure() {
                k + 1
            } else {
                k
            },
    )
}

impl MetricsState {
    /// The state after one event.
    pub open spec fn apply(self, event: MetricsEvent) -> Self {
        match event {
            MetricsEvent::Navigation { success, duration, at } => self.record_navigation(
                success,
                duration,
                at,
            ),
            MetricsEvent::Error { message, at } => self.record_error(message, at),
        }
    }

    /// The state that a fresh collector reaches through `events`.
    pub open spec fn replay(events: Seq<MetricsEvent>) -> Self
        decreases events.len(),
    {
        if events.len() == 0 {
            Self::initial()
        } else {
            Self::replay(events.drop_last()).apply(events.last())
        }
    }
}

/// The counters of a collector count what was recorded: as long as neither
/// number outgrows `u64`, the navigation counter is the number of
/// navigations and the error counter the number of failures.
pub proof fn lemma_counters_count(events: Seq<MetricsEvent>)
    requires
        navigations(events) <= u64::MAX,
        failures(events) <= u64::MAX,
    ensures
        MetricsState::replay(events).navigation_count == navigations(events),
        MetricsState::replay(events).navigation_errors == failures(events),
    decreases events.len(),
{
    if events.len() > 0 {
        lemma_counters_count(events.drop_last());
    }
}

/// The durations of the successful navigations among `events`, in the order
/// in which they were recorded.
pub open spec fn successful_durations(events: Seq<MetricsEvent>) -> Seq<u64>
    decreases events.len(),
{
    if events.len() == 0 {
        Seq::empty()
    } else {
        let before = successful_durations(events.drop_last());
        match events.last() {
            MetricsEvent::Navigation { success: true, duration, .. } => before.push(duration),
            _ => before,
        }
    }
}

/// Keeping the most recent samples after every single one comes to the same
/// as keeping the most recent ones of all.
proof fn lemma_most_recent_step(samples: Seq<u64>, duration: u64)
    ensures
        most_recent(most_recent(samples).push(duration)) == most_recent(samples.push(duration)),
{
    if samples.len() > MAX_SAMPLES {
        let kept = most_recent(samples);
        assert(kept.len() == MAX_SAMPLES);
        assert(most_recent(kept.push(duration)) =~= most_recent(samples.push(duration)));
    }
}

/// However many navigations are recorded, no more than `MAX_SAMPLES` load
/// durations are retained, and they are the most recent ones: the durations
/// of the last `MAX_SAMPLES` successful navigations, oldest first.
pub proof fn law_samples_stay_bounded(events: Seq<MetricsEvent>)
    ensures
        MetricsState::replay(events).samples.len() <= MAX_SAMPLES,
        MetricsState::replay(events).samples == most_recent(successful_durations(events)),
    decreases events.len(),
{
    if events.len() > 0 {
        law_samples_stay_bounded(events.drop_last());
        match events.last() {
            MetricsEvent::Navigation { success: true, duration, .. } => {
                lemma_most_recent_step(successful_durations(events.drop_last()), duration);
            },
            _ => {},
        }
    }
}

/// After `n` navigations and `k` failures the error rate is `k / n`, and zero
/// while `n` is zero.
pub proof fn law_error_rate_is_failures_per_navigation(events: Seq<MetricsEvent>)
    requires
        navigations(events) <= u64::MAX,
        failures(events) <= u64::MAX,
    ensures
        navigations(events) == 0 ==> MetricsState::replay(events).error_rate() == (Ratio {
            numerator: 0,
            denominator: 1,
        }),
        navigations(events) > 0 ==> MetricsState::replay(events).error_rate() == (Ratio {
            numerator: failures(events) as u128,
            denominator: navigations(events) as u128,
        }),
{
    lemma_counters_count(events);
}

/// What of an event counts for the error rate: whether it is a navigation,
/// and whether it is a failure.
pub struct Outcome {
    pub navigation: bool,
    pub failure: bool,
}

impl MetricsEvent {
    /// What of this event counts for the error rate.
    pub open spec fn outcome(self) -> Outcome {
        Outcome { navigation: self.is_navigation(), failure: self.is_failure() }
    }
}

/// The outcomes of `events`, in their order.
pub open spec fn outcomes(events: Seq<MetricsEvent>) -> Seq<Outcome> {
    events.map_values(|event: MetricsEvent| event.outcome())
}

/// The numbers of navigations and of failures can be counted on the
/// outcomes alone.
proof fn lemma_counts_of_outcomes(events: Seq<MetricsEvent>)
    ensures
        navigations(events) == outcomes(events).fold_left(
            0nat,
            |n: nat, o: Outcome|
                if o.navigation {
                    n + 1
                } else {
                    n
                },
        ),
        failures(events) == outcomes(events).fold_left(
            0nat,
            |k: nat, o: Outcome|
                if o.failure {
                    k + 1
                } else {
                    k
                },
        ),
    decreases events.len(),
{
    if events.len() > 0 {
        lemma_counts_of_outcomes(events.drop_last());
        assert(outcomes(events).drop_last() == outcomes(events.drop_last()));
        assert(outcomes(events).last() == events.last().outcome());
    }
}

/// The error rate does not depend on the order in which the events were
/// recorded, nor on when they happened or how long a load took: two
/// histories with the same outcomes, each as often, give the same rate.
pub proof fn law_error_rate_ignores_order(first: Seq<MetricsEvent>, second: Seq<MetricsEvent>)
    requires
        outcomes(first).to_multiset() == outcomes(second).to_multiset(),
        navigations(first) <= u64::MAX,
        failures(first) <= u64::MAX,
    ensures
        MetricsState::replay(first).error_rate() == MetricsState::replay(second).error_rate(),
{
    let count = |n: nat, o: Outcome|
        if o.navigation {
            n + 1
        } else {
            n
        };
    let fail = |k: nat, o: Outcome|
        if o.failure {
            k + 1
        } else {
            k
        };
    assert(vstd::seq_lib::commutative_foldl(count));
    assert(vstd::seq_lib::commutative_foldl(fail));
    vstd::seq_lib::lemma_fold_left_permutation(outcomes(first), outcomes(second), count, 0nat);
    vstd::seq_lib::lemma_fold_left_permutation(outcomes(first), outcomes(second), fail, 0nat);
    lemma_counts_of_outcomes(first);
    lemma_counts_of_outcomes(second);
    lemma_counters_count(first);
    lemma_counters_count(second);
}

/// The sum of `samples`, counted by folding.
proof fn lemma_total_is_a_fold(samples: Seq<u64>)
    ensures
        total(samples) == samples.fold_left(0nat, |sum: nat, sample: u64| sum + sample as nat),
    decreases samples.len(),
{
    if samples.len() > 0 {
        lemma_total_is_a_fold(samples.drop_last());
    }
}

/// The sum of `samples` lies between their number times a lower bound and
/// their number times an upper bound.
proof fn lemma_total_within_bounds(samples: Seq<u64>, low: u64, high: u64)
    requires
        forall|i: int| 0 <= i < samples.len() ==> low <= #[trigger] samples[i] <= high,
    ensures
        low * samples.len() <= total(samples) <= high * samples.len(),
    decreases samples.len(),
{
    if samples.len() > 0 {
        let rest = samples.drop_last();
        assert forall|i: int| 0 <= i < rest.len() implies low <= #[trigger] rest[i] <= high by {
            assert(rest[i] == samples[i]);
        }
        lemma_total_within_bounds(rest, low, high);
        assert(low * samples.len() == low * rest.len() + low) by (nonlinear_arith)
            requires
                samples.len() == rest.len() + 1,
        ;
        assert(high * samples.len() == high * rest.len() + high) by (nonlinear_arith)
            requires
                samples.len() == rest.len() + 1,
        ;
    }
}

/// The mean lies between the samples: it is no smaller than a duration that
/// no sample is below, and no greater than one that no sample is above.
pub proof fn law_mean_within_samples(samples: Seq<u64>, low: u64, high: u64)
    requires
        0 < samples.len() <= MAX_SAMPLES,
        forall|i: int| 0 <= i < samples.len() ==> low <= #[trigger] samples[i] <= high,
    ensures
        mean_millis(samples).numerator == total(samples),
        mean_millis(samples).denominator == samples.len() * NANOS_PER_MILLI,
        !mean_millis(samples).exceeds(high as nat, NANOS_PER_MILLI as nat),
        !(Ratio { numerator: low as u128, denominator: NANOS_PER_MILLI as u128 }).exceeds(
            mean_millis(samples).numerator as nat,
            mean_millis(samples).denominator as nat,
        ),
{
    lemma_total_within_bounds(samples, low, high);
    let count = samples.len() as int;
    let sum = total(samples) as int;
    let unit = NANOS_PER_MILLI as int;
    assert(high * count <= u64::MAX * MAX_SAMPLES) by (nonlinear_arith)
        requires
            0 <= high <= u64::MAX,
            0 < count <= MAX_SAMPLES,
    ;
    assert(sum * unit <= high * (count * unit)) by (nonlinear_arith)
        requires
            sum <= high * count,
            unit > 0,
    ;
    assert(low * (count * unit) <= sum * unit) by (nonlinear_arith)
        requires
            low * count <= sum,
            unit > 0,
    ;
}

/// The 95th percentile is no greater than the 99th, and that is no greater
/// than the longest of the samples.
pub proof fn law_percentiles_ordered(samples: Seq<u64>)
    requires
        samples.len() > 0,
    ensures
        percentile(samples, 95) <= percentile(samples, 99),
        percentile(samples, 99) <= ascending(samples).last(),
        samples.contains(ascending(samples).last()),
        forall|i: int| 0 <= i < samples.len() ==> #[trigger] samples[i] <= ascending(samples).last(),
{
    let sorted = ascending(samples);
    let count = samples.len();
    lemma_at_most_is_total();
    samples.lemma_sort_by_ensures(at_most());
    vstd::seq_lib::to_multiset_len(sorted);
    vstd::seq_lib::to_multiset_len(samples);
    assert((count * 95) / 100 <= (count * 99) / 100) by (nonlinear_arith);
    let low = percentile_rank(count, 95);
    let high = percentile_rank(count, 99);
    assert(0 <= low <= high < count);
    assert(at_most()(sorted[low], sorted[high]) || low == high);
    assert(at_most()(sorted[high], sorted.last()) || high == count - 1);
    assert(samples.contains(sorted.last())) by {
        if !samples.contains(sorted.last()) {
            assert(sorted.contains(sorted.last()));
        }
    }
    assert forall|i: int| 0 <= i < samples.len() implies #[trigger] samples[i] <= sorted.last() by {
        vstd::seq_lib::to_multiset_contains(samples, samples[i]);
        vstd::seq_lib::to_multiset_contains(sorted, samples[i]);
        assert(samples.contains(samples[i]));
        assert(sorted.contains(samples[i]));
        let k = choose|k: int| 0 <= k < sorted.len() && sorted[k] == samples[i];
        assert(at_most()(sorted[k], sorted.last()) || k == count - 1);
    }
}

/// The mean and the percentiles do not depend on the order of the samples.
pub proof fn law_statistics_ignore_order(first: Seq<u64>, second: Seq<u64>, percent: nat)
    requires
        first.to_multiset() == second.to_multiset(),
    ensures
        mean_millis(first) == mean_millis(second),
        percentile(first, percent) == percentile(second, percent),
{
    vstd::seq_lib::to_multiset_len(first);
    vstd::seq_lib::to_multiset_len(second);
    let add = |sum: nat, sample: u64| sum + sample as nat;
    assert(vstd::seq_lib::commutative_foldl(add));
    vstd::seq_lib::lemma_fold_left_permutation(first, second, add, 0nat);
    lemma_total_is_a_fold(first);
    lemma_total_is_a_fold(second);
    lemma_at_most_is_total();
    first.lemma_sort_by_ensures(at_most());
    second.lemma_sort_by_ensures(at_most());
    lemma_sorted_unique(ascending(first), ascending(second), at_most());
}

/// While more than 5% of the recorded navigations have failed, the collector
/// is unhealthy at every moment.
pub proof fn law_unhealthy_above_five_percent(state: MetricsState, now: u64)
    requires
        state.navigation_count > 0,
        state.navigation_errors * 100 > 5 * state.navigation_count,
    ensures
        !state.healthy_at(now),
{
}

/// Once the failures are down to 5% of the navigations or less, and the last
/// error lies `ERROR_WINDOW_NANOS` or more in the past, the collector is
/// healthy again.
pub proof fn law_healthy_once_rate_and_window_allow(state: MetricsState, now: u64)
    requires
        state.navigation_count == 0 || state.navigation_errors * 100 <= 5
            * state.navigation_count,
        state.last_error matches Some((failed, _)) ==> now - failed >= ERROR_WINDOW_NANOS,
    ensures
        state.healthy_at(now),
{
}

/// An error, however few failures there are, makes the collector unhealthy
/// for the whole window that follows it.
pub proof fn law_unhealthy_within_error_window(
    state: MetricsState,
    message: Seq<char>,
    at: u64,
    now: u64,
)
    requires
        now - at < ERROR_WINDOW_NANOS,
    ensures
        !state.record_error(message, at).healthy_at(now),
{
}

/// A successful navigation leaves the failures as they are and adds one
/// navigation, so the error rate can only go down.
pub proof fn law_success_lowers_error_rate(state: MetricsState, duration: u64, now: u64)
    requires
        0 < state.navigation_count < u64::MAX,
    ensures
        ({
            let after = state.record_navigation(true, duration, now);
            &&& after.navigation_errors == state.navigation_errors
            &&& after.navigation_count == state.navigation_count + 1
            &&& !after.error_rate().exceeds(
                state.navigation_errors as nat,
                state.navigation_count as nat,
            )
        }),
{
    let errors = state.navigation_errors as int;
    let count = state.navigation_count as int;
    assert(errors * count <= errors * (count + 1)) by (nonlinear_arith)
        requires
            errors >= 0,
            count >= 0,
    ;
}

/// What [`Metrics::get_stats`] reports.
#[derive(Debug, Clone)]
pub struct MetricsSnapshot {
    pub total_navigations: u64,
    pub failed_navigations: u64,
    /// Failures per navigation.
    pub error_rate: Ratio,
    /// Arithmetic mean of the retained samples, in milliseconds.
    pub avg_load_time_ms: Ratio,
    /// 95th percentile of the retained samples, in whole milliseconds.
    pub p95_load_time_ms: u64,
    /// 99th percentile of the retained samples, in whole milliseconds.
    pub p99_load_time_ms: u64,
    /// Message of the last recorded error.
    pub last_error: Option<String>,
    /// Time from the last error to the last recovery, in seconds.
    pub mttr_seconds: Ratio,
}

impl MetricsSnapshot {
    /// Whether this snapshot is the one that `state` calls for.
    pub open spec fn describes(self, state: MetricsState) -> bool {
        &&& self.total_navigations == state.navigation_count
        &&& self.failed_navigations == state.navigation_errors
        &&& self.error_rate == state.error_rate()
        &&& self.avg_load_time_ms == mean_millis(state.samples)
        &&& self.p95_load_time_ms == percentile(state.samples, 95) / NANOS_PER_MILLI
        &&& self.p99_load_time_ms == percentile(state.samples, 99) / NANOS_PER_MILLI
        &&& match self.last_error {
            None => state.last_error is None,
            Some(text) => state.last_error matches Some((_, message)) && text@ == message,
        }
        &&& self.mttr_seconds == Ratio {
            numerator: state.mttr() as u128,
            denominator: NANOS_PER_SECOND as u128,
        }
    }
}

/// Calls `<[u64]>::sort` on the vector's elements: afterwards they are the
/// same elements, each as often as before, in ascending order.
#[verifier::external_body]
fn sort_samples(samples: &mut Vec<u64>)
    ensures
        final(samples)@.to_multiset() == old(samples)@.to_multiset(),
        sorted_by(final(samples)@, at_most()),
{
    samples.sort();
}

/// Collector of navigation metrics.
pub struct Metrics {
    epoch: Instant,
    navigation_count: u64,
    navigation_errors: u64,
    page_load_times: Vec<u64>,
    last_error: Option<(u64, String)>,
    last_recovery: Option<u64>,
}

impl View for Metrics {
    type V = MetricsState;

    closed spec fn view(&self) -> MetricsState {
        MetricsState {
            navigation_count: self.navigation_count,
            navigation_errors: self.navigation_errors,
            samples: self.page_load_times@,
            last_error: match self.last_error {
                None => None,
                Some((failed, message)) => Some((failed, message@)),
            },
            last_recovery: self.last_recovery,
        }
    }
}

impl Metrics {
    #[verifier::type_invariant]
    spec fn inv(self) -> bool {
        self.page_load_times@.len() <= MAX_SAMPLES
    }

    /// A collector with nothing recorded. Its clock starts now.
    pub fn new() -> (metrics: Self)
        ensures
            metrics@ == MetricsState::initial(),
    {
        Metrics {
            epoch: instant_now(),
            navigation_count: 0,
            navigation_errors: 0,
            page_load_times: Vec::new(),
            last_error: None,
            last_recovery: None,
        }
    }

    /// Nanoseconds on this collector's clock: the time since the collector
    /// was created, and `u64::MAX` once that no longer fits.
    pub fn now(&self) -> (now: u64) {
        saturating_nanos(whole_nanos(&elapsed_since(&self.epoch)))
    }

    /// Records a navigation that ended at `now` and took `duration`.
    pub fn record_navigation_at(&mut self, success: bool, duration: u64, now: u64)
        ensures
            final(self)@ == old(self)@.record_navigation(success, duration, now),
            final(self)@.samples.len() <= MAX_SAMPLES,
    {
        proof {
            use_type_invariant(&*self);
        }
        self.navigation_count = self.navigation_count.wrapping_add(1);
        if success {
            let mut times: Vec<u64> = Vec::new();
            std::mem::swap(&mut self.page_load_times, &mut times);
            times.push(duration);
            if times.len() > MAX_SAMPLES {
                times.remove(0);
            }
            assert(times@ == most_recent(old(self)@.samples.push(duration)));
            self.page_load_times = times;
            self.last_recovery = Some(now);
        } else {
            self.navigation_errors = self.navigation_errors.wrapping_add(1);
        }
    }

    /// Records a navigation that ends now and took `duration`.
    pub fn record_navigation(&mut self, success: bool, duration: u64)
        ensures
            exists|now: u64|
                final(self)@ == #[trigger] old(self)@.record_navigation(success, duration, now),
    {
        let now = self.now();
        self.record_navigation_at(success, duration, now);
    }

    /// Records an error reported at `now`.
    pub fn record_error_at(&mut self, error: &str, now: u64)
        ensures
            final(self)@ == old(self)@.record_error(error@, now),
    {
        proof {
            use_type_invariant(&*self);
        }
        self.last_error = Some((now, error.to_owned()));
        self.navigation_errors = self.navigation_errors.wrapping_add(1);
    }

    /// Records an error reported now.
    pub fn record_error(&mut self, error: &str)
        ensures
            exists|now: u64| final(self)@ == #[trigger] old(self)@.record_error(error@, now),
    {
        let now = self.now();
        self.record_error_at(error, now);
    }

    /// Failures per navigation.
    pub fn get_error_rate(&self) -> (rate: Ratio)
        ensures
            rate == self@.error_rate(),
    {
        if self.navigation_count == 0 {
            Ratio { numerator: 0, denominator: 1 }
        } else {
            Ratio {
                numerator: self.navigation_errors as u128,
                denominator: self.navigation_count as u128,
            }
        }
    }

    /// Time from the last error to the last recovery, in nanoseconds.
    pub fn get_mttr(&self) -> (mttr: u64)
        ensures
            mttr == self@.mttr(),
    {
        match (&self.last_error, self.last_recovery) {
            (Some((failed, _)), Some(recovered)) => {
                if recovered > *failed {
                    recovered - *failed
                } else {
                    0
                }
            },
            _ => 0,
        }
    }

    /// Whether the collector counts as healthy at `now`.
    pub fn is_healthy_at(&self, now: u64) -> (healthy: bool)
        ensures
            healthy == self@.healthy_at(now),
    {
        let rate = self.get_error_rate();
        if rate.numerator * 100 > 5 * rate.denominator {
            return false;
        }
        if let Some((failed, _)) = &self.last_error {
            if now.saturating_sub(*failed) < ERROR_WINDOW_NANOS {
                return false;
            }
        }
        true
    }

    /// Whether the collector counts as healthy now.
    pub fn is_healthy(&self) -> (healthy: bool)
        ensures
            exists|now: u64| healthy == #[trigger] self@.healthy_at(now),
    {
        let now = self.now();
        self.is_healthy_at(now)
    }

    /// Everything the collector knows, in one value.
    pub fn get_stats(&self) -> (stats: MetricsSnapshot)
        ensures
            stats.describes(self@),
    {
        proof {
            use_type_invariant(self);
        }
        let count = self.page_load_times.len();
        let mut avg = Ratio { numerator: 0, denominator: 1 };
        let mut p95: u64 = 0;
        let mut p99: u64 = 0;
        if count > 0 {
            let mut sum: u128 = 0;
            let mut sorted: Vec<u64> = Vec::new();
            let mut i: usize = 0;
            while i < count
                invariant
                    i <= count,
                    count == self.page_load_times@.len(),
                    count <= MAX_SAMPLES,
                    sum == total(self.page_load_times@.subrange(0, i as int)),
                    sum <= i * u64::MAX,
                    sorted@ == self.page_load_times@.subrange(0, i as int),
                decreases count - i,
            {
                let duration = self.page_load_times[i];
                proof {
                    let next = self.page_load_times@.subrange(0, i + 1);
                    assert(next.drop_last() == self.page_load_times@.subrange(0, i as int));
                    assert(i * u64::MAX + u64::MAX == (i + 1) * u64::MAX) by (nonlinear_arith);
                    assert(i * u64::MAX + u64::MAX <= MAX_SAMPLES * u64::MAX) by (nonlinear_arith)
                        requires
                            i < MAX_SAMPLES,
                    ;
                }
                sum = sum + duration as u128;
                sorted.push(duration);
                i += 1;
            }
            assert(sorted@ == self.page_load_times@);
            sort_samples(&mut sorted);
            proof {
                lemma_sorted_is_ascending(self.page_load_times@, sorted@);
            }
            avg = Ratio { numerator: sum, denominator: count as u128 * (NANOS_PER_MILLI as u128) };
            p95 = sorted[rank_of(count, 95)] / NANOS_PER_MILLI;
            p99 = sorted[rank_of(count, 99)] / NANOS_PER_MILLI;
        }
        let last_error = match &self.last_error {
            None => None,
            Some((_, message)) => Some(message.clone()),
        };
        MetricsSnapshot {
            total_navigations: self.navigation_count,
            failed_navigations: self.navigation_errors,
            error_rate: self.get_error_rate(),
            avg_load_time_ms: avg,
            p95_load_time_ms: p95,
            p99_load_time_ms: p99,
            last_error,
            mttr_seconds: Ratio {
                numerator: self.get_mttr() as u128,
                denominator: NANOS_PER_SECOND as u128,
            },
        }
    }
}

impl Default for Metrics {
    fn default() -> (metrics: Self)
        ensures
            metrics@ == MetricsState::initial(),
    {
        Metrics::new()
    }
}

/// Rank of the `percent`-th percentile among `count` sorted samples.
fn rank_of(count: usize, percent: usize) -> (rank: usize)
    requires
        0 < count <= MAX_SAMPLES,
        percent <= 100,
    ensures
        rank == percentile_rank(count as nat, percent as nat),
        rank < count,
{
    assert(count * percent <= 100_000) by (nonlinear_arith)
        requires
            count <= 1000,
            percent <= 100,
    ;
    let rank = count * percent / 100;
    if rank >= count {
        count - 1
    } else {
        rank
    }
}

/// `<=` on `u64` is a total order.
proof fn lemma_at_most_is_total()
    ensures
        total_ordering(at_most()),
{
    let leq = at_most();
    assert(vstd::relations::reflexive(leq));
    assert(vstd::relations::antisymmetric(leq));
    assert(vstd::relations::transitive(leq));
    assert(vstd::relations::strongly_connected(leq));
}

/// A sequence that is in ascending order and holds the elements of `samples`
/// is `ascending(samples)`.
proof fn lemma_sorted_is_ascending(samples: Seq<u64>, sorted: Seq<u64>)
    requires
        sorted.to_multiset() == samples.to_multiset(),
        sorted_by(sorted, at_most()),
    ensures
        sorted == ascending(samples),
        sorted.len() == samples.len(),
{
    vstd::seq_lib::to_multiset_len(sorted);
    vstd::seq_lib::to_multiset_len(samples);
    lemma_at_most_is_total();
    samples.lemma_sort_by_ensures(at_most());
    lemma_sorted_unique(sorted, ascending(samples), at_most());
}

} // verus!
