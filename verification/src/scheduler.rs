//! The watch scheduler: the decisions of the polling loop, as a state
//! machine.
//!
//! The scheduler performs no I/O. Each call of [`Scheduler::step`] takes the
//! outcome of the last action and answers with the next one: look a name up
//! in the cache, collect telemetry, write a record through, emit it, sleep.
//! The caller carries the actions out and reports back.
//!
//! One pass walks the containers in the order given. For each, the cache is
//! asked first. A hit is emitted as it is. A miss is recomputed from fresh
//! telemetry, written to the durable store, then to the cache, then
//! emitted. After the last container the scheduler sleeps and starts over
//! (watch mode) or is done.

use crate::cache::{cache_key, key_of};
use crate::error::MonitorError;
use crate::recompute::health_of;
use crate::record::{ContainerHealth, HealthView};
use crate::store::{
    history_row_of, latest_row_of, HistoryRow, HistoryRowView, LatestRow, LatestRowView,
};
use crate::telemetry::{ContainerInspection, ContainerStats, InspectionView, StatsView};
use crate::text::texts;
use vstd::prelude::*;

verus! {

/// How long the scheduler sleeps between two passes in watch mode, in
/// seconds. It does not depend on the time-to-live of the cache.
pub const WATCH_INTERVAL_SECONDS: u64 = 5;

/// What happened to the last action.
#[derive(Debug, PartialEq, Eq)]
pub enum Event {
    /// The run begins.
    Start,
    /// The cache holds a record under the key.
    CacheHit(ContainerHealth),
    /// The cache holds nothing under the key.
    CacheMiss,
    /// The cache cannot be reached.
    CacheUnavailable,
    /// The runtime reported on the container at `now` (seconds since the
    /// Unix epoch).
    Telemetry { inspection: ContainerInspection, stats: ContainerStats, now: i64 },
    /// The runtime knows no container of that name.
    ContainerNotFound,
    /// The runtime cannot be reached.
    RuntimeUnavailable,
    /// The durable store has taken both rows.
    Stored,
    /// The durable store cannot be reached.
    StoreUnavailable,
    /// The cache has taken the record.
    Cached,
    /// The record, or the warning, has been shown.
    Emitted,
    /// The sleep is over.
    Woke,
}

/// The mathematical content of an [`Event`].
pub enum EventView {
    Start,
    CacheHit(HealthView),
    CacheMiss,
    CacheUnavailable,
    Telemetry { inspection: InspectionView, stats: StatsView, now: i64 },
    ContainerNotFound,
    RuntimeUnavailable,
    Stored,
    StoreUnavailable,
    Cached,
    Emitted,
    Woke,
}

impl View for Event {
    type V = EventView;

    open spec fn view(&self) -> EventView {
        match self {
            Event::Start => EventView::Start,
            Event::CacheHit(record) => EventView::CacheHit(record@),
            Event::CacheMiss => EventView::CacheMiss,
            Event::CacheUnavailable => EventView::CacheUnavailable,
            Event::Telemetry { inspection, stats, now } => EventView::Telemetry {
                inspection: inspection@,
                stats: stats@,
                now: *now,
            },
            Event::ContainerNotFound => EventView::ContainerNotFound,
            Event::RuntimeUnavailable => EventView::RuntimeUnavailable,
            Event::Stored => EventView::Stored,
            Event::StoreUnavailable => EventView::StoreUnavailable,
            Event::Cached => EventView::Cached,
            Event::Emitted => EventView::Emitted,
            Event::Woke => EventView::Woke,
        }
    }
}

/// What the caller is to do next.
#[derive(Debug, PartialEq, Eq)]
pub enum Action {
    /// Ask the cache for the record under `key`.
    LookupCache { key: String },
    /// Ask the runtime for the inspection and a sample of the counters of
    /// the container `name`.
    Collect { name: String },
    /// Write both rows to the durable store, as one unit: replace the latest
    /// row of the container, then append to the history.
    Persist { latest: LatestRow, history: HistoryRow },
    /// Put `record` into the cache under `key`, to expire after `ttl`
    /// seconds.
    FillCache { key: String, record: ContainerHealth, ttl: u64 },
    /// Show `record`.
    Emit { record: ContainerHealth, from_cache: bool },
    /// Warn that the runtime knows no container `name`.
    ReportMissing { name: String },
    /// Sleep for `seconds` seconds.
    Sleep { seconds: u64 },
    /// The run is complete.
    Finish,
    /// The run cannot go on.
    Abort { error: MonitorError },
    /// The event does not answer the last action. Nothing has changed.
    Rejected,
}

/// The mathematical content of an [`Action`].
pub enum ActionView {
    LookupCache { key: Seq<char> },
    Collect { name: Seq<char> },
    Persist { latest: LatestRowView, history: HistoryRowView },
    FillCache { key: Seq<char>, record: HealthView, ttl: u64 },
    Emit { record: HealthView, from_cache: bool },
    ReportMissing { name: Seq<char> },
    Sleep { seconds: u64 },
    Finish,
    Abort { error: MonitorError },
    Rejected,
}

impl View for Action {
    type V = ActionView;

    open spec fn view(&self) -> ActionView {
        match self {
            Action::LookupCache { key } => ActionView::LookupCache { key: key@ },
            Action::Collect { name } => ActionView::Collect { name: name@ },
            Action::Persist { latest, history } => ActionView::Persist {
                latest: latest@,
                history: history@,
            },
            Action::FillCache { key, record, ttl } => ActionView::FillCache {
                key: key@,
                record: record@,
                ttl: *ttl,
            },
            Action::Emit { record, from_cache } => ActionView::Emit {
                record: record@,
                from_cache: *from_cache,
            },
            Action::ReportMissing { name } => ActionView::ReportMissing { name: name@ },
            Action::Sleep { seconds } => ActionView::Sleep { seconds: *seconds },
            Action::Finish => ActionView::Finish,
            Action::Abort { error } => ActionView::Abort { error: *error },
            Action::Rejected => ActionView::Rejected,
        }
    }
}

/// Where the scheduler stands: which outcome it is waiting for.
#[derive(Debug, PartialEq, Eq)]
pub enum Phase {
    /// Nothing has been asked yet.
    Idle,
    /// The cache has been asked about the current container.
    CacheLookup,
    /// The runtime has been asked about the current container.
    /// `cache_usable` is false if the cache could not be reached.
    Recompute { cache_usable: bool },
    /// The durable store has been given the rows of `record`.
    WriteThrough { record: ContainerHealth, cache_usable: bool },
    /// The cache has been given `record`.
    CacheFill { record: ContainerHealth },
    /// A record of the current container, or a warning about it, is being
    /// shown.
    Emit,
    /// A pass is over and the next one waits for the interval to pass.
    Sleeping,
    /// The run is complete.
    Done,
    /// The run was given up.
    Aborted,
}

/// The mathematical content of a [`Phase`].
pub enum PhaseView {
    Idle,
    CacheLookup,
    Recompute { cache_usable: bool },
    WriteThrough { record: HealthView, cache_usable: bool },
    CacheFill { record: HealthView },
    Emit,
    Sleeping,
    Done,
    Aborted,
}

impl View for Phase {
    type V = PhaseView;

    open spec fn view(&self) -> PhaseView {
        match self {
            Phase::Idle => PhaseView::Idle,
            Phase::CacheLookup => PhaseView::CacheLookup,
            Phase::Recompute { cache_usable } => PhaseView::Recompute {
                cache_usable: *cache_usable,
            },
            Phase::WriteThrough { record, cache_usable } => PhaseView::WriteThrough {
                record: record@,
                cache_usable: *cache_usable,
            },
            Phase::CacheFill { record } => PhaseView::CacheFill { record: record@ },
            Phase::Emit => PhaseView::Emit,
            Phase::Sleeping => PhaseView::Sleeping,
            Phase::Done => PhaseView::Done,
            Phase::Aborted => PhaseView::Aborted,
        }
    }
}

impl PhaseView {
    /// Whether the phase works on a container: all but `Idle`, `Sleeping`,
    /// `Done` and `Aborted`.
    pub open spec fn has_container(self) -> bool {
        !(self is Idle || self is Sleeping || self is Done || self is Aborted)
    }

    /// Whether the run has ended.
    pub open spec fn is_terminal(self) -> bool {
        self is Done || self is Aborted
    }
}

/// The mathematical content of a [`Scheduler`].
pub struct SchedulerView {
    /// The containers to watch, in the order in which they are visited.
    pub names: Seq<Seq<char>>,
    /// The time-to-live of a cache entry, in seconds.
    pub cache_ttl: u64,
    /// Whether passes repeat.
    pub watch: bool,
    /// The position of the current container in `names`.
    pub index: nat,
    pub phase: PhaseView,
}

impl SchedulerView {
    /// The state before the run: nothing asked, the first container ahead.
    pub open spec fn initial(names: Seq<Seq<char>>, cache_ttl: u64, watch: bool) -> SchedulerView {
        SchedulerView { names, cache_ttl, watch, index: 0, phase: PhaseView::Idle }
    }

    /// A state is well formed if its position lies within the names, and on
    /// a name whenever the phase works on a container.
    pub open spec fn wf(self) -> bool {
        &&& self.index <= self.names.len()
        &&& self.phase.has_container() ==> self.index < self.names.len()
    }

    /// The name of the current container.
    pub open spec fn current(self) -> Seq<char>
        recommends
            self.index < self.names.len(),
    {
        self.names[self.index as int]
    }

    /// The same scheduler in another phase.
    pub open spec fn at(self, phase: PhaseView) -> SchedulerView {
        SchedulerView { phase, ..self }
    }

    /// Turns to the container at `index`: its cache entry is looked up. Past
    /// the last container the pass is over: in watch mode the scheduler
    /// sleeps, else the run is complete.
    pub open spec fn select(self, index: nat) -> (SchedulerView, ActionView) {
        if index < self.names.len() {
            (
                SchedulerView { index, phase: PhaseView::CacheLookup, ..self },
                ActionView::LookupCache { key: key_of(self.names[index as int]) },
            )
        } else if self.watch {
            (
                SchedulerView { index: self.names.len(), phase: PhaseView::Sleeping, ..self },
                ActionView::Sleep { seconds: WATCH_INTERVAL_SECONDS },
            )
        } else {
            (
                SchedulerView { index: self.names.len(), phase: PhaseView::Done, ..self },
                ActionView::Finish,
            )
        }
    }

    /// The next state and the next action, given the outcome of the last
    /// action.
    pub open spec fn step(self, event: EventView) -> (SchedulerView, ActionView) {
        match (self.phase, event) {
            (PhaseView::Idle, EventView::Start) => self.select(0),
            (PhaseView::CacheLookup, EventView::CacheHit(record)) => (
                self.at(PhaseView::Emit),
                ActionView::Emit { record, from_cache: true },
            ),
            (PhaseView::CacheLookup, EventView::CacheMiss) => (
                self.at(PhaseView::Recompute { cache_usable: true }),
                ActionView::Collect { name: self.current() },
            ),
            (PhaseView::CacheLookup, EventView::CacheUnavailable) => (
                self.at(PhaseView::Recompute { cache_usable: false }),
                ActionView::Collect { name: self.current() },
            ),
            (
                PhaseView::Recompute { cache_usable },
                EventView::Telemetry { inspection, stats, now },
            ) => {
                let record = health_of(self.current(), inspection, stats, now);
                (
                    self.at(PhaseView::WriteThrough { record, cache_usable }),
                    ActionView::Persist {
                        latest: latest_row_of(record),
                        history: history_row_of(record),
                    },
                )
            },
            (PhaseView::Recompute { .. }, EventView::ContainerNotFound) => (
                self.at(PhaseView::Emit),
                ActionView::ReportMissing { name: self.current() },
            ),
            (PhaseView::Recompute { .. }, EventView::RuntimeUnavailable) => (
                self.at(PhaseView::Aborted),
                ActionView::Abort { error: MonitorError::RuntimeUnavailable },
            ),
            (PhaseView::WriteThrough { record, cache_usable }, EventView::Stored) => if cache_usable
            {
                (
                    self.at(PhaseView::CacheFill { record }),
                    ActionView::FillCache {
                        key: key_of(self.current()),
                        record,
                        ttl: self.cache_ttl,
                    },
                )
            } else {
                (self.at(PhaseView::Emit), ActionView::Emit { record, from_cache: false })
            },
            (PhaseView::WriteThrough { .. }, EventView::StoreUnavailable) => (
                self.at(PhaseView::Aborted),
                ActionView::Abort { error: MonitorError::StoreUnavailable },
            ),
            (PhaseView::CacheFill { record }, EventView::Cached) => (
                self.at(PhaseView::Emit),
                ActionView::Emit { record, from_cache: false },
            ),
            (PhaseView::CacheFill { record }, EventView::CacheUnavailable) => (
                self.at(PhaseView::Emit),
                ActionView::Emit { record, from_cache: false },
            ),
            (PhaseView::Emit, EventView::Emitted) => self.select(self.index + 1),
            (PhaseView::Sleeping, EventView::Woke) => self.select(0),
            _ => (self, ActionView::Rejected),
        }
    }
}

/// The watch scheduler.
#[derive(Debug, PartialEq, Eq)]
pub struct Scheduler {
    names: Vec<String>,
    cache_ttl: u64,
    watch: bool,
    index: usize,
    phase: Phase,
}

impl View for Scheduler {
    type V = SchedulerView;

    closed spec fn view(&self) -> SchedulerView {
        SchedulerView {
            names: texts(self.names@),
            cache_ttl: self.cache_ttl,
            watch: self.watch,
            index: self.index as nat,
            phase: self.phase@,
        }
    }
}

impl Scheduler {
    #[verifier::type_invariant]
    spec fn well_formed(self) -> bool {
        self@.wf()
    }

    /// A scheduler for the containers `names`, visited in that order.
    /// `cache_ttl` is the time-to-live of a cache entry in seconds; with
    /// `watch`, passes repeat until the run is stopped from outside.
    pub fn new(names: Vec<String>, cache_ttl: u64, watch: bool) -> (scheduler: Scheduler)
        ensures
            scheduler@ == SchedulerView::initial(texts(names@), cache_ttl, watch),
            scheduler@.wf(),
    {
        Scheduler { names, cache_ttl, watch, index: 0, phase: Phase::Idle }
    }

    /// Whether the run has ended, complete or given up.
    pub fn is_finished(&self) -> (finished: bool)
        ensures
            finished == self@.phase.is_terminal(),
    {
        match self.phase {
            Phase::Done => true,
            Phase::Aborted => true,
            _ => false,
        }
    }

    /// The phase the scheduler is in.
    pub fn phase(&self) -> (phase: &Phase)
        ensures
            phase@ == self@.phase,
    {
        &self.phase
    }

    /// The name of the current container, if the scheduler works on one.
    pub fn current_name(&self) -> (name: Option<&str>)
        ensures
            match name {
                Some(text) => self@.phase.has_container() && text@ == self@.current(),
                None => !self@.phase.has_container(),
            },
    {
        proof {
            use_type_invariant(self);
        }
        match self.phase {
            Phase::Idle => None,
            Phase::Sleeping => None,
            Phase::Done => None,
            Phase::Aborted => None,
            _ => Some(self.names[self.index].as_str()),
        }
    }

    fn select(names: Vec<String>, cache_ttl: u64, watch: bool, index: usize) -> (next: (
        Scheduler,
        Action,
    ))
        requires
            index <= names.len(),
        ensures
            forall|before: SchedulerView|
                before.names == texts(names@) && before.cache_ttl == cache_ttl && before.watch
                    == watch ==> (next.0@, next.1@) == #[trigger] before.select(index as nat),
    {
        if index < names.len() {
            let key = cache_key(names[index].as_str());
            (
                Scheduler { names, cache_ttl, watch, index, phase: Phase::CacheLookup },
                Action::LookupCache { key },
            )
        } else if watch {
            (
                Scheduler { names, cache_ttl, watch, index, phase: Phase::Sleeping },
                Action::Sleep { seconds: WATCH_INTERVAL_SECONDS },
            )
        } else {
            (Scheduler { names, cache_ttl, watch, index, phase: Phase::Done }, Action::Finish)
        }
    }

    /// Takes the outcome of the last action and answers with the next
    /// action. An event that does not answer the last action is rejected and
    /// changes nothing.
    pub fn step(self, event: Event) -> (next: (Scheduler, Action))
        ensures
            (next.0@, next.1@) == self@.step(event@),
            next.0@.wf(),
    {
        proof {
            use_type_invariant(&self);
        }
        let Scheduler { names, cache_ttl, watch, index, phase } = self;
        assert(phase@.has_container() ==> index < names.len());
        let next = match (phase, event) {
            (Phase::Idle, Event::Start) => Scheduler::select(names, cache_ttl, watch, 0),
            (Phase::CacheLookup, Event::CacheHit(record)) => (
                Scheduler { names, cache_ttl, watch, index, phase: Phase::Emit },
                Action::Emit { record, from_cache: true },
            ),
            (Phase::CacheLookup, Event::CacheMiss) => {
                let name = names[index].clone();
                (
                    Scheduler {
                        names,
                        cache_ttl,
                        watch,
                        index,
                        phase: Phase::Recompute { cache_usable: true },
                    },
                    Action::Collect { name },
                )
            },
            (Phase::CacheLookup, Event::CacheUnavailable) => {
                let name = names[index].clone();
                (
                    Scheduler {
                        names,
                        cache_ttl,
                        watch,
                        index,
                        phase: Phase::Recompute { cache_usable: false },
                    },
                    Action::Collect { name },
                )
            },
            (Phase::Recompute { cache_usable }, Event::Telemetry { inspection, stats, now }) => {
                let record = ContainerHealth::new(names[index].as_str(), &inspection, &stats, now);
                let latest = record.latest_row();
                let history = record.history_row();
                (
                    Scheduler {
                        names,
                        cache_ttl,
                        watch,
                        index,
                        phase: Phase::WriteThrough { record, cache_usable },
                    },
                    Action::Persist { latest, history },
                )
            },
            (Phase::Recompute { .. }, Event::ContainerNotFound) => {
                let name = names[index].clone();
                (
                    Scheduler { names, cache_ttl, watch, index, phase: Phase::Emit },
                    Action::ReportMissing { name },
                )
            },
            (Phase::Recompute { .. }, Event::RuntimeUnavailable) => (
                Scheduler { names, cache_ttl, watch, index, phase: Phase::Aborted },
                Action::Abort { error: MonitorError::RuntimeUnavailable },
            ),
            (Phase::WriteThrough { record, cache_usable }, Event::Stored) => {
                if cache_usable {
                    let key = cache_key(names[index].as_str());
                    let copy = record.clone();
                    (
                        Scheduler {
                            names,
                            cache_ttl,
                            watch,
                            index,
                            phase: Phase::CacheFill { record },
                        },
                        Action::FillCache { key, record: copy, ttl: cache_ttl },
                    )
                } else {
                    (
                        Scheduler { names, cache_ttl, watch, index, phase: Phase::Emit },
                        Action::Emit { record, from_cache: false },
                    )
                }
            },
            (Phase::WriteThrough { .. }, Event::StoreUnavailable) => (
                Scheduler { names, cache_ttl, watch, index, phase: Phase::Aborted },
                Action::Abort { error: MonitorError::StoreUnavailable },
            ),
            (Phase::CacheFill { record }, Event::Cached) => (
                Scheduler { names, cache_ttl, watch, index, phase: Phase::Emit },
                Action::Emit { record, from_cache: false },
            ),
            (Phase::CacheFill { record }, Event::CacheUnavailable) => (
                Scheduler { names, cache_ttl, watch, index, phase: Phase::Emit },
                Action::Emit { record, from_cache: false },
            ),
            (Phase::Emit, Event::Emitted) => Scheduler::select(names, cache_ttl, watch, index + 1),
            (Phase::Sleeping, Event::Woke) => Scheduler::select(names, cache_ttl, watch, 0),
            (phase, _) => (Scheduler { names, cache_ttl, watch, index, phase }, Action::Rejected),
        };
        proof {
            use_type_invariant(&next.0);
        }
        next
    }
}

} // verus!
