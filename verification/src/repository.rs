//! Event log, snapshots, and the repository over them.
//!
//! The event log is the source of truth: an append-only, per-aggregate
//! ordered sequence of events, extended only under optimistic concurrency
//! (append succeeds exactly when the log's current version equals the
//! caller's expected version). Snapshots are derived, disposable caches of
//! the folded state; loading replays the full log or a snapshot plus its
//! tail, and both provably yield the same aggregate.

use vstd::prelude::*;
use crate::aggregate::{
    duplicate_events, empty_state, fold_events, lemma_fold_apply_equivalent,
    lemma_fold_events_concat, lemma_fold_events_version, AggregateV, OrganizationAggregate,
};
use crate::aggregate::handlers::command_post;
use crate::commands::OrganizationCommand;
use crate::errors::OrganizationError;
use crate::events::OrganizationEvent;
use crate::id_map::IdMap;
use crate::value_objects::OrganizationType;

verus! {

/// The events recorded for an aggregate: its log, or the empty sequence if
/// none was ever appended.
pub open spec fn log_of(
    logs: Map<u128, Seq<OrganizationEvent>>,
    id: u128,
) -> Seq<OrganizationEvent> {
    if logs.contains_key(id) {
        logs[id]
    } else {
        Seq::empty()
    }
}

/// The state an aggregate's log denotes: the fold of its events over the
/// empty state.
pub open spec fn state_of(logs: Map<u128, Seq<OrganizationEvent>>, id: u128) -> AggregateV {
    fold_events(empty_state(id, OrganizationType::Company), log_of(logs, id))
}

/// In-memory append-only event log, keyed by aggregate identifier. Its view
/// is the map from aggregate to its ordered event sequence.
pub struct InMemoryEventStore {
    logs: IdMap<Vec<OrganizationEvent>>,
}

impl View for InMemoryEventStore {
    type V = Map<u128, Seq<OrganizationEvent>>;

    closed spec fn view(&self) -> Map<u128, Seq<OrganizationEvent>> {
        self.logs@
    }
}

impl InMemoryEventStore {
    /// An empty store.
    pub fn new() -> (r: Self)
        ensures
            r@ == Map::<u128, Seq<OrganizationEvent>>::empty(),
    {
        InMemoryEventStore { logs: IdMap::new() }
    }

    /// The current version of an aggregate: the number of events in its log.
    pub fn current_version(&self, aggregate_id: u128) -> (r: usize)
        ensures
            r == log_of(self@, aggregate_id).len(),
    {
        match self.logs.get(aggregate_id) {
            Some(events) => events.len(),
            None => 0,
        }
    }

    /// The events recorded for an aggregate, in append order.
    pub fn events_for(&self, aggregate_id: u128) -> (r: Option<&Vec<OrganizationEvent>>)
        ensures
            match r {
                Some(events) => self@.contains_key(aggregate_id) && events@ == self@[aggregate_id],
                None => !self@.contains_key(aggregate_id),
            },
    {
        self.logs.get(aggregate_id)
    }

    /// Append events to an aggregate's log, but only if the log's current
    /// version equals `expected_version`; on a mismatch nothing changes and
    /// the caller may reload and retry. Append is atomic per call: either
    /// every event is appended or none is.
    pub fn append(
        &mut self,
        aggregate_id: u128,
        expected_version: u64,
        events: Vec<OrganizationEvent>,
    ) -> (r: Result<(), OrganizationError>)
        ensures
            if log_of(old(self)@, aggregate_id).len() == expected_version {
                &&& r is Ok
                &&& final(self)@ == old(self)@.insert(
                    aggregate_id,
                    log_of(old(self)@, aggregate_id) + events@,
                )
            } else {
                &&& (r matches Err(e) && e == (OrganizationError::ConcurrencyConflict {
                    expected: expected_version,
                    actual: log_of(old(self)@, aggregate_id).len() as u64,
                }))
                &&& final(self)@ == old(self)@
            },
    {
        let ghost new_events = events@;
        match self.logs.remove(aggregate_id) {
            Some(mut log) => {
                if log.len() as u64 != expected_version {
                    let actual = log.len() as u64;
                    self.logs.insert(aggregate_id, log);
                    proof {
                        assert(self.logs@ =~= old(self)@);
                    }
                    return Err(OrganizationError::ConcurrencyConflict {
                        expected: expected_version,
                        actual,
                    });
                }
                let mut events = events;
                log.append(&mut events);
                self.logs.insert(aggregate_id, log);
                proof {
                    assert(self.logs@ =~= old(self)@.insert(
                        aggregate_id,
                        log_of(old(self)@, aggregate_id) + new_events,
                    ));
                }
            },
            None => {
                if expected_version != 0 {
                    proof {
                        assert(self.logs@ =~= old(self)@);
                    }
                    return Err(OrganizationError::ConcurrencyConflict {
                        expected: expected_version,
                        actual: 0,
                    });
                }
                let mut events = events;
                let mut log: Vec<OrganizationEvent> = Vec::new();
                log.append(&mut events);
                self.logs.insert(aggregate_id, log);
                proof {
                    assert(log_of(old(self)@, aggregate_id) + new_events =~= new_events);
                    assert(self.logs@ =~= old(self)@.insert(
                        aggregate_id,
                        log_of(old(self)@, aggregate_id) + new_events,
                    ));
                }
            },
        }
        Ok(())
    }
}

/// A materialized aggregate at a version: a derived, disposable cache.
pub struct OrganizationSnapshot {
    pub aggregate: OrganizationAggregate,
    pub version: u64,
}

/// Abstract value of an [`OrganizationSnapshot`].
pub struct SnapshotV {
    pub aggregate: AggregateV,
    pub version: u64,
}

impl View for OrganizationSnapshot {
    type V = SnapshotV;

    open spec fn view(&self) -> SnapshotV {
        SnapshotV { aggregate: self.aggregate@, version: self.version }
    }
}

/// In-memory snapshot store, keyed by aggregate identifier.
pub struct InMemorySnapshotStore {
    snapshots: IdMap<OrganizationSnapshot>,
}

impl View for InMemorySnapshotStore {
    type V = Map<u128, SnapshotV>;

    closed spec fn view(&self) -> Map<u128, SnapshotV> {
        self.snapshots@
    }
}

impl InMemorySnapshotStore {
    /// An empty store.
    pub fn new() -> (r: Self)
        ensures
            r@ == Map::<u128, SnapshotV>::empty(),
    {
        InMemorySnapshotStore { snapshots: IdMap::new() }
    }

    /// Store a snapshot, replacing any previous one for the aggregate.
    pub fn save(&mut self, aggregate_id: u128, snapshot: OrganizationSnapshot)
        ensures
            final(self)@ == old(self)@.insert(aggregate_id, snapshot@),
    {
        self.snapshots.insert(aggregate_id, snapshot);
    }

    /// Take the snapshot for an aggregate out of the store, if present.
    /// Snapshots are disposable caches: a consumer replays on top of it and
    /// a fresh snapshot is written at the next save that crosses the
    /// snapshot frequency.
    pub fn take(&mut self, aggregate_id: u128) -> (r: Option<OrganizationSnapshot>)
        ensures
            final(self)@ == old(self)@.remove(aggregate_id),
            match r {
                Some(s) => old(self)@.contains_key(aggregate_id) && s@ == old(self)@[aggregate_id],
                None => !old(self)@.contains_key(aggregate_id),
            },
    {
        self.snapshots.remove(aggregate_id)
    }
}

/// Replay an event log from the empty state: the returned aggregate is
/// exactly the fold of the events, so any two replays of the same log agree.
pub fn replay(aggregate_id: u128, events: &Vec<OrganizationEvent>) -> (r: OrganizationAggregate)
    ensures
        r@ == fold_events(empty_state(aggregate_id, OrganizationType::Company), events@),
{
    let mut agg = OrganizationAggregate::blank(aggregate_id);
    let n = events.len();
    for i in 0..n
        invariant
            n == events@.len(),
            agg@ == fold_events(
                empty_state(aggregate_id, OrganizationType::Company),
                events@.take(i as int),
            ),
            agg@.version == i,
    {
        proof {
            lemma_fold_events_version(
                empty_state(aggregate_id, OrganizationType::Company),
                events@.take(i as int),
            );
        }
        let _ = agg.apply_event(&events[i]);
        proof {
            assert(events@.take(i + 1).drop_last() =~= events@.take(i as int));
            assert(events@.take(i + 1).last() == events@[i as int]);
        }
    }
    proof {
        assert(events@.take(n as int) =~= events@);
    }
    agg
}

/// Repository for organization aggregates: loads by replaying the event log
/// (from a snapshot plus tail when one is cached), and appends new events
/// under optimistic concurrency. Its abstract state is the event log alone;
/// snapshots never leave this module and are provably consistent with the
/// log.
pub struct OrganizationRepository {
    event_store: InMemoryEventStore,
    snapshot_store: InMemorySnapshotStore,
    snapshot_frequency: u64,
}

impl View for OrganizationRepository {
    type V = Map<u128, Seq<OrganizationEvent>>;

    closed spec fn view(&self) -> Map<u128, Seq<OrganizationEvent>> {
        self.event_store@
    }
}

impl OrganizationRepository {
    /// Every cached snapshot is consistent with the log: it is the fold of a
    /// prefix of the aggregate's events, and its version is that prefix's
    /// length.
    pub closed spec fn wf(&self) -> bool {
        &&& self.snapshot_frequency >= 1
        &&& forall|id: u128|
            #[trigger] self.snapshot_store@.contains_key(id) ==> {
                &&& self.event_store@.contains_key(id)
                &&& self.snapshot_store@[id].version <= self.event_store@[id].len()
                &&& self.snapshot_store@[id].aggregate == fold_events(
                    empty_state(id, OrganizationType::Company),
                    self.event_store@[id].take(self.snapshot_store@[id].version as int),
                )
            }
    }

    /// A fresh repository over empty stores. The snapshot frequency says how
    /// many events are appended between snapshots; it must be positive.
    pub fn new(snapshot_frequency: u64) -> (r: Self)
        requires
            snapshot_frequency >= 1,
        ensures
            r@ == Map::<u128, Seq<OrganizationEvent>>::empty(),
            r.wf(),
    {
        OrganizationRepository {
            event_store: InMemoryEventStore::new(),
            snapshot_store: InMemorySnapshotStore::new(),
            snapshot_frequency,
        }
    }

    /// A fresh repository with the default snapshot frequency of 100 events.
    pub fn with_default_frequency() -> (r: Self)
        ensures
            r@ == Map::<u128, Seq<OrganizationEvent>>::empty(),
            r.wf(),
    {
        Self::new(100)
    }

    /// The current version of an aggregate: the number of events in its log.
    pub fn current_version(&self, aggregate_id: u128) -> (r: usize)
        ensures
            r == log_of(self@, aggregate_id).len(),
    {
        self.event_store.current_version(aggregate_id)
    }

    /// Load an aggregate by replaying its event log, using a cached snapshot
    /// plus the tail of the log when one is present. Returns `None` for an
    /// aggregate that does not exist: one with no events at all. The log is
    /// left unchanged.
    pub fn load(&mut self, aggregate_id: u128) -> (r: Option<OrganizationAggregate>)
        requires
            old(self).wf(),
        ensures
            final(self).wf(),
            final(self)@ == old(self)@,
            match r {
                Some(agg) => log_of(old(self)@, aggregate_id).len() > 0 && agg@ == state_of(
                    old(self)@,
                    aggregate_id,
                ),
                None => log_of(old(self)@, aggregate_id).len() == 0,
            },
    {
        let snap = self.snapshot_store.take(aggregate_id);
        let events = match self.event_store.events_for(aggregate_id) {
            Some(events) => events,
            None => {
                return None;
            },
        };
        let n = events.len();
        if n == 0 {
            return None;
        }
        let ghost full = events@;
        let (mut agg, start) = match snap {
            Some(snap) => {
                proof {
                    assert(snap.version <= full.len());
                    lemma_fold_events_version(
                        empty_state(aggregate_id, OrganizationType::Company),
                        full.take(snap.version as int),
                    );
                }
                let start = snap.version as usize;
                (snap.aggregate, start)
            },
            None => (OrganizationAggregate::blank(aggregate_id), 0),
        };
        for i in start..n
            invariant
                n == full.len(),
                i <= n,
                events@ == full,
                agg@ == fold_events(
                    empty_state(aggregate_id, OrganizationType::Company),
                    full.take(i as int),
                ),
                agg@.version == i,
        {
            proof {
                lemma_fold_events_version(
                    empty_state(aggregate_id, OrganizationType::Company),
                    full.take(i as int),
                );
            }
            let _ = agg.apply_event(&events[i]);
            proof {
                assert(full.take(i + 1).drop_last() =~= full.take(i as int));
                assert(full.take(i + 1).last() == full[i as int]);
            }
        }
        proof {
            assert(full.take(n as int) =~= full);
        }
        Some(agg)
    }

    /// Append the events produced for an aggregate, but only if the log has
    /// not moved past `expected_version`; on a mismatch the log is unchanged
    /// and the caller may reload, re-validate and retry. Every time the log
    /// length crosses the snapshot frequency, the folded state is cached as
    /// a snapshot.
    pub fn save(
        &mut self,
        aggregate_id: u128,
        expected_version: u64,
        events: Vec<OrganizationEvent>,
    ) -> (r: Result<(), OrganizationError>)
        requires
            old(self).wf(),
        ensures
            final(self).wf(),
            if log_of(old(self)@, aggregate_id).len() == expected_version {
                &&& r is Ok
                &&& final(self)@ == old(self)@.insert(
                    aggregate_id,
                    log_of(old(self)@, aggregate_id) + events@,
                )
            } else {
                &&& (r matches Err(e) && e == (OrganizationError::ConcurrencyConflict {
                    expected: expected_version,
                    actual: log_of(old(self)@, aggregate_id).len() as u64,
                }))
                &&& final(self)@ == old(self)@
            },
    {
        let ghost old_logs = self.event_store@;
        let result = self.event_store.append(aggregate_id, expected_version, events);
        if result.is_err() {
            return result;
        }
        proof {
            assert forall|id: u128| #[trigger] self.snapshot_store@.contains_key(id) implies {
                &&& self.event_store@.contains_key(id)
                &&& self.snapshot_store@[id].version <= self.event_store@[id].len()
                &&& self.snapshot_store@[id].aggregate == fold_events(
                    empty_state(id, OrganizationType::Company),
                    self.event_store@[id].take(self.snapshot_store@[id].version as int),
                )
            } by {
                if id == aggregate_id {
                    let v = self.snapshot_store@[id].version as int;
                    assert(self.event_store@[id].take(v) =~= log_of(old_logs, id).take(v));
                }
            }
        }
        let new_len = self.event_store.current_version(aggregate_id);
        if new_len as u64 % self.snapshot_frequency == 0 {
            let snapshot = match self.event_store.events_for(aggregate_id) {
                Some(events) => {
                    let aggregate = replay(aggregate_id, events);
                    let version = aggregate.version;
                    proof {
                        lemma_fold_events_version(
                            empty_state(aggregate_id, OrganizationType::Company),
                            events@,
                        );
                    }
                    OrganizationSnapshot { aggregate, version }
                },
                None => {
                    return result;
                },
            };
            proof {
                assert(self.event_store@[aggregate_id].take(snapshot.version as int)
                    =~= self.event_store@[aggregate_id]);
            }
            self.snapshot_store.save(aggregate_id, snapshot);
        }
        result
    }
}

/// Handler for organization commands: the write path in one unit. For each
/// command it loads the aggregate by replay, validates the command against
/// that state, and appends the produced events under the version it loaded.
pub struct OrganizationCommandHandler {
    repository: OrganizationRepository,
}

impl View for OrganizationCommandHandler {
    type V = Map<u128, Seq<OrganizationEvent>>;

    closed spec fn view(&self) -> Map<u128, Seq<OrganizationEvent>> {
        self.repository@
    }
}

/// The state a command is validated against: the fold of the aggregate's
/// log, which is the empty state for a creation with no history.
pub open spec fn execution_state(
    logs: Map<u128, Seq<OrganizationEvent>>,
    id: u128,
) -> AggregateV {
    state_of(logs, id)
}

impl OrganizationCommandHandler {
    /// Snapshot consistency of the underlying repository.
    pub closed spec fn wf(&self) -> bool {
        self.repository.wf()
    }

    /// A handler over the given repository.
    pub fn new(repository: OrganizationRepository) -> (r: Self)
        requires
            repository.wf(),
        ensures
            r@ == repository@,
            r.wf(),
    {
        OrganizationCommandHandler { repository }
    }

    /// Hand the repository back out.
    pub fn into_repository(self) -> (r: OrganizationRepository)
        requires
            self.wf(),
        ensures
            r@ == self@,
            r.wf(),
    {
        self.repository
    }

    /// Execute one command: load the aggregate's current state from the log
    /// (a command other than creation on an aggregate with no events is
    /// rejected as not found), validate the command against it, and append
    /// the produced events at the loaded version. Returns the events, or the
    /// validation error; either way the outcome over the loaded state is
    /// exactly [`command_post`]. On success the aggregate's new log folds to
    /// the old state with the returned events applied.
    pub fn execute(&mut self, command: &OrganizationCommand, now: u64) -> (r: Result<
        Vec<OrganizationEvent>,
        OrganizationError,
    >)
        requires
            old(self).wf(),
        ensures
            final(self).wf(),
            ({
                let id = crate::commands::spec_command_aggregate_id(*command);
                let existed = log_of(old(self)@, id).len() > 0;
                if !existed && !(*command matches OrganizationCommand::CreateOrganization(_)) {
                    &&& r == Result::<Vec<OrganizationEvent>, OrganizationError>::Err(
                        OrganizationError::NotFound(id),
                    )
                    &&& final(self)@ == old(self)@
                } else {
                    &&& command_post(execution_state(old(self)@, id), *command, now, r)
                    &&& (r matches Ok(es) ==> final(self)@.contains_key(id) && fold_events(
                        empty_state(id, OrganizationType::Company),
                        final(self)@[id],
                    ) == fold_events(execution_state(old(self)@, id), es@) && final(self)@[id].len()
                        == log_of(old(self)@, id).len() + es@.len())
                    &&& (r is Err ==> final(self)@ == old(self)@)
                }
            }),
    {
        let id = command.aggregate_id();
        let loaded = self.repository.load(id);
        let (aggregate, expected_version) = match loaded {
            Some(agg) => {
                proof {
                    lemma_fold_events_version(
                        empty_state(id, OrganizationType::Company),
                        log_of(self.repository@, id),
                    );
                }
                let v = agg.version;
                (agg, v)
            },
            None => {
                if !matches!(command, OrganizationCommand::CreateOrganization(_)) {
                    return Err(OrganizationError::NotFound(id));
                }
                (OrganizationAggregate::blank(id), 0u64)
            },
        };
        let events = match aggregate.handle_command(command, now) {
            Ok(events) => events,
            Err(e) => {
                return Err(e);
            },
        };
        let stored = duplicate_events(&events);
        let ghost stored_seq = stored@;
        let ghost old_log = log_of(self.repository@, id);
        let save_result = self.repository.save(id, expected_version, stored);
        proof {
            assert(save_result is Ok);
            assert(self.repository@[id] == old_log + stored_seq);
            lemma_fold_events_concat(
                empty_state(id, OrganizationType::Company),
                old_log,
                stored_seq,
            );
            lemma_fold_apply_equivalent(
                fold_events(empty_state(id, OrganizationType::Company), old_log),
                stored_seq,
                events@,
            );
        }
        Ok(events)
    }
}

} // verus!
