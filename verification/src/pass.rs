//! What the scheduler guarantees about a run: which actions it asks for,
//! and in which order.

use crate::cache::key_of;
use crate::error::MonitorError;
use crate::recompute::health_of;
use crate::record::HealthView;
use crate::scheduler::{ActionView, EventView, PhaseView, SchedulerView, WATCH_INTERVAL_SECONDS};
use crate::store::{history_row_of, latest_row_of};
use crate::telemetry::{InspectionView, StatsView};
use vstd::prelude::*;

verus! {

/// A step keeps a well-formed state well formed.
pub proof fn lemma_step_keeps_wf(s: SchedulerView, event: EventView)
    requires
        s.wf(),
    ensures
        s.step(event).0.wf(),
{
}

/// A step never changes the containers, their order, the time-to-live or
/// the mode.
pub proof fn lemma_step_keeps_settings(s: SchedulerView, event: EventView)
    ensures
        s.step(event).0.names == s.names,
        s.step(event).0.cache_ttl == s.cache_ttl,
        s.step(event).0.watch == s.watch,
{
}

/// A rejected event changes nothing, and a finished run rejects every
/// event.
pub proof fn lemma_rejected_changes_nothing(s: SchedulerView, event: EventView)
    ensures
        s.step(event).1 is Rejected ==> s.step(event).0 == s,
        s.phase.is_terminal() ==> s.step(event) == (s, ActionView::Rejected),
{
}

/// A cached record is authoritative: on a hit the scheduler emits the
/// record as the cache holds it, and once that is shown it turns to the
/// next container. The runtime is not asked and nothing is written.
pub proof fn lemma_hit_is_emitted_as_cached(s: SchedulerView, record: HealthView)
    requires
        s.wf(),
        s.phase is CacheLookup,
    ensures
        s.step(EventView::CacheHit(record)).1 == (ActionView::Emit { record, from_cache: true }),
        s.step(EventView::CacheHit(record)).0.step(EventView::Emitted) == s.select(s.index + 1),
{
}

/// The scheduler asks for the store only with the rows of a record that it
/// has just built from fresh telemetry of the current container.
pub proof fn lemma_persist_is_fresh(s: SchedulerView, event: EventView)
    requires
        s.step(event).1 is Persist,
    ensures
        s.phase is Recompute,
        event matches EventView::Telemetry { inspection, stats, now } && {
            let record = health_of(s.current(), inspection, stats, now);
            &&& s.step(event).1 == (ActionView::Persist {
                latest: latest_row_of(record),
                history: history_row_of(record),
            })
            &&& s.step(event).0.phase == (PhaseView::WriteThrough {
                record,
                cache_usable: s.phase->Recompute_cache_usable,
            })
        },
{
}

/// A cache entry is never written before the store has taken the record:
/// the scheduler asks for the cache only when the store reports success,
/// with the record that was stored, under the key of the current container,
/// with the time-to-live of the run.
pub proof fn lemma_cache_follows_store(s: SchedulerView, event: EventView)
    requires
        s.step(event).1 is FillCache,
    ensures
        event is Stored,
        s.phase matches PhaseView::WriteThrough { record, cache_usable } && cache_usable
            && s.step(event).1 == (ActionView::FillCache {
            key: key_of(s.current()),
            record,
            ttl: s.cache_ttl,
        }),
{
}

/// A record that was not read from the cache is emitted only after the
/// store has taken it.
pub proof fn lemma_fresh_emit_follows_store(s: SchedulerView, event: EventView)
    requires
        s.step(event).1 matches ActionView::Emit { from_cache, .. } && !from_cache,
    ensures
        s.phase is CacheFill || (s.phase is WriteThrough && event is Stored),
{
}

/// Only two failures end a run: a runtime or a store that cannot be
/// reached. A missing container and an unreachable cache do not.
pub proof fn lemma_abort_is_fatal(s: SchedulerView, event: EventView)
    requires
        !s.phase.is_terminal(),
    ensures
        s.step(event).0.phase is Aborted <==> s.step(event).1 is Abort,
        s.step(event).1 is Abort ==> s.step(event).1->Abort_error.fatal(),
        s.step(event).1 is Abort <==> (s.phase is Recompute && event is RuntimeUnavailable) || (
        s.phase is WriteThrough && event is StoreUnavailable),
{
}

/// A run completes only outside watch mode, and only once the last
/// container has been dealt with.
pub proof fn lemma_done_after_last(s: SchedulerView, event: EventView)
    requires
        s.wf(),
        !(s.phase is Done),
        s.step(event).0.phase is Done,
    ensures
        !s.watch,
        s.step(event).1 is Finish,
        s.step(event).0.index == s.names.len(),
        s.names.len() == 0 || (s.phase is Emit && s.index + 1 == s.names.len()),
{
}

/// In watch mode the scheduler sleeps for the fixed interval after the last
/// container, and then starts the next pass with the first.
pub proof fn lemma_watch_repeats(s: SchedulerView)
    requires
        s.wf(),
        s.watch,
        s.phase is Emit,
        s.index + 1 == s.names.len(),
    ensures
        s.step(EventView::Emitted).1 == (ActionView::Sleep { seconds: WATCH_INTERVAL_SECONDS }),
        s.step(EventView::Emitted).0.step(EventView::Woke).1 == (ActionView::LookupCache {
            key: key_of(s.names[0]),
        }),
        s.step(EventView::Emitted).0.step(EventView::Woke).0.index == 0,
{
}

/// Containers are visited in the order given: once the current one has been
/// shown, the scheduler looks up the one after it.
pub proof fn lemma_visits_in_order(s: SchedulerView)
    requires
        s.wf(),
        s.phase is Emit,
        s.index + 1 < s.names.len(),
    ensures
        s.step(EventView::Emitted).1 == (ActionView::LookupCache {
            key: key_of(s.names[s.index as int + 1]),
        }),
        s.step(EventView::Emitted).0.index == s.index + 1,
        s.step(EventView::Emitted).0.phase is CacheLookup,
{
}

/// A container that the runtime does not know is reported and skipped: the
/// pass goes on with the next one, and nothing is written for it.
pub proof fn lemma_missing_is_skipped(s: SchedulerView)
    requires
        s.wf(),
        s.phase is Recompute,
    ensures
        s.step(EventView::ContainerNotFound).1 == (ActionView::ReportMissing { name: s.current() }),
        s.step(EventView::ContainerNotFound).0.step(EventView::Emitted) == s.select(s.index + 1),
{
}

/// What the runtime reported on one container.
pub struct Sample {
    pub inspection: InspectionView,
    pub stats: StatsView,
    pub now: i64,
}

impl Sample {
    /// The record of the container `name` built from the sample.
    pub open spec fn record(self, name: Seq<char>) -> HealthView {
        health_of(name, self.inspection, self.stats, self.now)
    }
}

/// The outcomes, in order, when a container misses the cache and every
/// action for it succeeds.
pub open spec fn miss_events(sample: Sample) -> Seq<EventView> {
    seq![
        EventView::CacheMiss,
        EventView::Telemetry {
            inspection: sample.inspection,
            stats: sample.stats,
            now: sample.now,
        },
        EventView::Stored,
        EventView::Cached,
        EventView::Emitted,
    ]
}

/// The actions, in order, for a container that misses the cache: collect,
/// write through to the store, fill the cache, emit.
pub open spec fn miss_actions(name: Seq<char>, sample: Sample, cache_ttl: u64) -> Seq<ActionView> {
    let record = sample.record(name);
    seq![
        ActionView::Collect { name },
        ActionView::Persist { latest: latest_row_of(record), history: history_row_of(record) },
        ActionView::FillCache { key: key_of(name), record, ttl: cache_ttl },
        ActionView::Emit { record, from_cache: false },
    ]
}

/// The scheduler after a sequence of events, and the actions it asked for.
pub open spec fn run(s: SchedulerView, events: Seq<EventView>) -> (SchedulerView, Seq<ActionView>)
    decreases events.len(),
{
    if events.len() == 0 {
        (s, Seq::empty())
    } else {
        let (next, action) = s.step(events[0]);
        let (last, actions) = run(next, events.drop_first());
        (last, seq![action] + actions)
    }
}

/// Running two sequences of events one after the other is running their
/// concatenation.
pub proof fn lemma_run_concat(s: SchedulerView, first: Seq<EventView>, second: Seq<EventView>)
    ensures
        run(s, first + second) == ({
            let (middle, head) = run(s, first);
            let (last, tail) = run(middle, second);
            (last, head + tail)
        }),
    decreases first.len(),
{
    if first.len() == 0 {
        assert(first + second =~= second);
        assert(Seq::<ActionView>::empty() + run(s, second).1 =~= run(s, second).1);
    } else {
        let (next, action) = s.step(first[0]);
        assert((first + second).drop_first() =~= first.drop_first() + second);
        assert((first + second)[0] == first[0]);
        lemma_run_concat(next, first.drop_first(), second);
        let (middle, head) = run(next, first.drop_first());
        let (last, tail) = run(middle, second);
        assert(seq![action] + (head + tail) =~= (seq![action] + head) + tail);
    }
}

/// A miss is written through exactly once. From the lookup of a container,
/// a miss followed by successes makes the scheduler ask, in this order, to
/// collect, to persist the fresh record, to cache it and to emit it. Then it
/// turns to the next container.
pub proof fn lemma_miss_writes_through(s: SchedulerView, sample: Sample)
    requires
        s.wf(),
        s.phase is CacheLookup,
    ensures
        run(s, miss_events(sample)) == (
            s.select(s.index + 1).0,
            miss_actions(s.current(), sample, s.cache_ttl).push(s.select(s.index + 1).1),
        ),
{
    let events = miss_events(sample);
    let record = sample.record(s.current());
    let (s1, a1) = s.step(events[0]);
    let (s2, a2) = s1.step(events[1]);
    let (s3, a3) = s2.step(events[2]);
    let (s4, a4) = s3.step(events[3]);
    let (s5, a5) = s4.step(events[4]);
    let e1 = events.drop_first();
    let e2 = e1.drop_first();
    let e3 = e2.drop_first();
    let e4 = e3.drop_first();
    let e5 = e4.drop_first();
    assert(e5.len() == 0);
    assert(run(s5, e5) == (s5, Seq::<ActionView>::empty()));
    assert(run(s4, e4) == (s5, seq![a5] + Seq::<ActionView>::empty()));
    assert(run(s3, e3) == (s5, seq![a4] + run(s4, e4).1));
    assert(run(s2, e2) == (s5, seq![a3] + run(s3, e3).1));
    assert(run(s1, e1) == (s5, seq![a2] + run(s2, e2).1));
    assert(run(s, events) == (s5, seq![a1] + run(s1, e1).1));
    assert(run(s, events).1 =~= seq![a1, a2, a3, a4, a5]);
    assert(s5 == s.select(s.index + 1).0);
    assert(seq![a1, a2, a3, a4, a5] =~= miss_actions(s.current(), sample, s.cache_ttl).push(
        s.select(s.index + 1).1,
    ));
}

/// The outcomes of a pass in which every container from `from` on misses
/// the cache and every action succeeds.
pub open spec fn pass_events(samples: Seq<Sample>, from: nat) -> Seq<EventView>
    decreases samples.len() - from,
{
    if from >= samples.len() {
        Seq::empty()
    } else {
        miss_events(samples[from as int]) + pass_events(samples, from + 1)
    }
}

/// The actions of a single pass from the container at `from` on, when each
/// misses the cache: per container one lookup, one collection, one write to
/// the store, one write to the cache and one emission, in the order of the
/// names; at the end, the run finishes.
pub open spec fn pass_actions(
    names: Seq<Seq<char>>,
    samples: Seq<Sample>,
    cache_ttl: u64,
    from: nat,
) -> Seq<ActionView>
    decreases names.len() - from,
{
    if from >= names.len() {
        seq![ActionView::Finish]
    } else {
        seq![ActionView::LookupCache { key: key_of(names[from as int]) }] + miss_actions(
            names[from as int],
            samples[from as int],
            cache_ttl,
        ) + pass_actions(names, samples, cache_ttl, from + 1)
    }
}

/// The rest of a pass in which every container misses the cache, seen from
/// the moment the scheduler turns to the container at `from`.
proof fn lemma_rest_of_pass(s: SchedulerView, samples: Seq<Sample>, from: nat)
    requires
        s.wf(),
        !s.watch,
        samples.len() == s.names.len(),
        from <= s.names.len(),
    ensures
        run(s.select(from).0, pass_events(samples, from)).0 == (SchedulerView {
            index: s.names.len(),
            phase: PhaseView::Done,
            ..s
        }),
        seq![s.select(from).1] + run(s.select(from).0, pass_events(samples, from)).1
            == pass_actions(s.names, samples, s.cache_ttl, from),
    decreases s.names.len() - from,
{
    let (here, lookup) = s.select(from);
    if from >= s.names.len() {
        assert(seq![lookup] + Seq::<ActionView>::empty() =~= seq![ActionView::Finish]);
    } else {
        let sample = samples[from as int];
        let name = s.names[from as int];
        lemma_miss_writes_through(here, sample);
        assert(here.select(from + 1) == s.select(from + 1));
        lemma_rest_of_pass(s, samples, from + 1);
        lemma_run_concat(here, miss_events(sample), pass_events(samples, from + 1));
        let (next, turn) = s.select(from + 1);
        let rest = run(next, pass_events(samples, from + 1)).1;
        let own = miss_actions(name, sample, s.cache_ttl);
        assert(seq![lookup] + (own.push(turn) + rest) =~= seq![lookup] + own + (seq![turn] + rest));
    }
}

/// A single pass over containers that all miss the cache. Outside watch
/// mode, when every lookup misses and every action succeeds, the scheduler
/// asks for exactly one lookup, one collection, one write to the store, one
/// write to the cache and one emission per container, container by
/// container in the order of the names, and then finishes.
pub proof fn lemma_pass_of_misses(names: Seq<Seq<char>>, samples: Seq<Sample>, cache_ttl: u64)
    requires
        samples.len() == names.len(),
    ensures
        run(
            SchedulerView::initial(names, cache_ttl, false),
            seq![EventView::Start] + pass_events(samples, 0),
        ) == (
            SchedulerView {
                names,
                cache_ttl,
                watch: false,
                index: names.len(),
                phase: PhaseView::Done,
            },
            pass_actions(names, samples, cache_ttl, 0),
        ),
{
    let s = SchedulerView::initial(names, cache_ttl, false);
    let start = seq![EventView::Start];
    assert(start.len() == 1 && start[0] == EventView::Start);
    assert(s.step(start[0]) == s.select(0));
    assert(start.drop_first().len() == 0);
    assert(run(s.select(0).0, start.drop_first()) == (s.select(0).0, Seq::<ActionView>::empty()));
    assert(run(s, start) == (s.select(0).0, seq![s.select(0).1] + Seq::<ActionView>::empty()));
    assert(seq![s.select(0).1] + Seq::<ActionView>::empty() =~= seq![s.select(0).1]);
    lemma_run_concat(s, start, pass_events(samples, 0));
    lemma_rest_of_pass(s, samples, 0);
}

} // verus!
