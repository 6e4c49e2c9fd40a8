//! The task registry and the orchestrator.
//!
//! At startup a fixed set of independent operations is scheduled: some
//! unconditionally, some only under conditions read off the build and the
//! loaded configuration.  The orchestrator owns the scheduled set and turns
//! every completion — success or failure alike — into exactly one typed
//! event, in whatever order the tasks happen to finish.  No task's failure
//! is allowed to abort another task or the process.

use vstd::prelude::*;
use vstd::pervasive::VecAdditionalExecFns;
use crate::launcher::{ConfigError, LauncherConfig};

verus! {

/// Which directory a cleanup task sweeps.  The two instances operate on
/// disjoint subtrees and are fully independent of each other.
#[derive(Clone, Copy, Debug, PartialEq, Eq, Structural)]
pub enum CleanupDir {
    Logs,
    DownloadsCache,
}

/// The units of startup work the registry can schedule.
#[derive(Clone, Copy, Debug, PartialEq, Eq, Structural)]
pub enum TaskKind {
    /// Ask the update server whether a newer build exists.
    UpdateCheck,
    /// Connect to the local peer-presence service (retrying forever).
    PeerPresence,
    /// Load the entry list; `refresh` is false at startup.
    EntryListLoad { refresh: bool },
    /// Sweep one of the disposable directories.
    Cleanup(CleanupDir),
    /// Load the persisted custom state.
    CustomStateLoad,
    /// Reload the notes of the already-selected instance.
    NotesReload,
}

/// How one task's underlying operation ended.  A failure is data, not a
/// fault: it is carried to the consumer inside the task's event.
#[derive(Clone, Debug, PartialEq, Eq)]
pub enum TaskOutcome {
    /// The operation succeeded; the payload is an opaque handle to what it
    /// produced.
    Success(u64),
    /// The operation failed, with the error rendered as a message.
    Failure(String),
}

/// The typed completion events delivered to the application's consumer,
/// one per finished task.  The two cleanup instances share one variant,
/// each delivery carrying its own result.
#[derive(Clone, Debug, PartialEq, Eq)]
pub enum CompletionEvent {
    UpdateCheckResult(TaskOutcome),
    PeerPresenceClientReady(TaskOutcome),
    EntryListLoaded(TaskOutcome),
    CleanComplete(TaskOutcome),
    CustomStateLoaded(TaskOutcome),
    NotesReloaded(TaskOutcome),
}

/// The event a task's completion maps to: variants correspond one-to-one
/// to registry entries, with the outcome as the payload.
pub open spec fn spec_event_for(task: TaskKind, outcome: TaskOutcome) -> CompletionEvent {
    match task {
        TaskKind::UpdateCheck => CompletionEvent::UpdateCheckResult(outcome),
        TaskKind::PeerPresence => CompletionEvent::PeerPresenceClientReady(outcome),
        TaskKind::EntryListLoad { .. } => CompletionEvent::EntryListLoaded(outcome),
        TaskKind::Cleanup(_) => CompletionEvent::CleanComplete(outcome),
        TaskKind::CustomStateLoad => CompletionEvent::CustomStateLoaded(outcome),
        TaskKind::NotesReload => CompletionEvent::NotesReloaded(outcome),
    }
}

/// Wraps a task's outcome in that task's event variant.
pub fn event_for(task: TaskKind, outcome: TaskOutcome) -> (e: CompletionEvent)
    ensures
        e == spec_event_for(task, outcome),
{
    match task {
        TaskKind::UpdateCheck => CompletionEvent::UpdateCheckResult(outcome),
        TaskKind::PeerPresence => CompletionEvent::PeerPresenceClientReady(outcome),
        TaskKind::EntryListLoad { refresh: _ } => CompletionEvent::EntryListLoaded(outcome),
        TaskKind::Cleanup(_) => CompletionEvent::CleanComplete(outcome),
        TaskKind::CustomStateLoad => CompletionEvent::CustomStateLoaded(outcome),
        TaskKind::NotesReload => CompletionEvent::NotesReloaded(outcome),
    }
}

/// Everything the registry's conditions read: the build's update-check
/// switch, the configuration load result, and whether the restored state
/// already has an instance selected.
pub struct StartupPlanInputs {
    /// Whether this build was compiled with update checking enabled.
    pub auto_update_enabled: bool,
    /// The configuration as loaded, or the error loading it produced.
    pub config: Result<LauncherConfig, ConfigError>,
    /// Whether an instance was already selected in the restored state.
    pub instance_selected: bool,
}

/// Whether the peer-presence client may run: yes when the configuration
/// allows it or leaves it unset, and yes by default when the configuration
/// failed to load.
pub open spec fn spec_peer_presence_allowed(inputs: StartupPlanInputs) -> bool {
    match inputs.config {
        Result::Ok(c) => c.rich_presence != Some(false),
        Result::Err(_) => true,
    }
}

/// Evaluates the peer-presence condition on the loaded configuration.
pub fn peer_presence_allowed(inputs: &StartupPlanInputs) -> (b: bool)
    ensures
        b == spec_peer_presence_allowed(*inputs),
{
    match &inputs.config {
        Result::Ok(c) => match c.rich_presence {
            Some(allowed) => allowed,
            None => true,
        },
        Result::Err(_) => true,
    }
}

/// Whether a given task is scheduled under the given inputs.  Scheduling
/// is all-or-nothing per task: a task whose condition is off contributes
/// nothing at all (no attempt, no event).
pub open spec fn spec_scheduled(inputs: StartupPlanInputs, t: TaskKind) -> bool {
    match t {
        TaskKind::UpdateCheck => inputs.auto_update_enabled,
        TaskKind::PeerPresence => spec_peer_presence_allowed(inputs),
        TaskKind::EntryListLoad { refresh } => !refresh,
        TaskKind::Cleanup(_) => true,
        TaskKind::CustomStateLoad => true,
        TaskKind::NotesReload => inputs.instance_selected,
    }
}

/// The registry in order: the conditional update check and peer-presence
/// client, then the unconditional entry-list load, the two cleanup
/// instances and the custom-state load, then the conditional notes reload.
pub open spec fn spec_plan(inputs: StartupPlanInputs) -> Seq<TaskKind> {
    let updates: Seq<TaskKind> = if inputs.auto_update_enabled {
        seq![TaskKind::UpdateCheck]
    } else {
        Seq::empty()
    };
    let peer: Seq<TaskKind> = if spec_peer_presence_allowed(inputs) {
        seq![TaskKind::PeerPresence]
    } else {
        Seq::empty()
    };
    let notes: Seq<TaskKind> = if inputs.instance_selected {
        seq![TaskKind::NotesReload]
    } else {
        Seq::empty()
    };
    let unconditional: Seq<TaskKind> = seq![
        TaskKind::EntryListLoad { refresh: false },
        TaskKind::Cleanup(CleanupDir::Logs),
        TaskKind::Cleanup(CleanupDir::DownloadsCache),
        TaskKind::CustomStateLoad,
    ];
    updates + peer + unconditional + notes
}

/// The plan schedules exactly the tasks whose conditions hold, and never
/// schedules one twice.
pub proof fn lemma_plan_scheduled(inputs: StartupPlanInputs)
    ensures
        forall|t: TaskKind| #[trigger] spec_plan(inputs).contains(t) <==> spec_scheduled(
            inputs,
            t,
        ),
        spec_plan(inputs).no_duplicates(),
{
    let p = spec_plan(inputs);
    assert forall|t: TaskKind| #[trigger] p.contains(t) implies spec_scheduled(inputs, t) by {
        let i = choose|i: int| 0 <= i < p.len() && p[i] == t;
        assert(spec_scheduled(inputs, p[i]));
    }
    assert forall|t: TaskKind| spec_scheduled(inputs, t) implies #[trigger] p.contains(t) by {
        let base = if inputs.auto_update_enabled {
            1int
        } else {
            0int
        } + if spec_peer_presence_allowed(inputs) {
            1int
        } else {
            0int
        };
        match t {
            TaskKind::UpdateCheck => {
                assert(p[0] == t);
            },
            TaskKind::PeerPresence => {
                assert(p[base - 1] == t);
            },
            TaskKind::EntryListLoad { refresh } => {
                assert(p[base] == TaskKind::EntryListLoad { refresh: false });
            },
            TaskKind::Cleanup(d) => {
                match d {
                    CleanupDir::Logs => {
                        assert(p[base + 1] == t);
                    },
                    CleanupDir::DownloadsCache => {
                        assert(p[base + 2] == t);
                    },
                }
            },
            TaskKind::CustomStateLoad => {
                assert(p[base + 3] == t);
            },
            TaskKind::NotesReload => {
                assert(p[base + 4] == t);
            },
        }
    }
    assert forall|i: int, j: int| 0 <= i < j < p.len() implies p[i] != p[j] by {
        assert(p[i] == p.index(i));
    }
}

/// Builds the scheduled task set for the given inputs.
pub fn scheduled_tasks(inputs: &StartupPlanInputs) -> (ts: Vec<TaskKind>)
    ensures
        ts@ == spec_plan(*inputs),
        forall|t: TaskKind| #[trigger] ts@.contains(t) <==> spec_scheduled(*inputs, t),
        ts@.no_duplicates(),
{
    let mut ts: Vec<TaskKind> = Vec::new();
    if inputs.auto_update_enabled {
        ts.push(TaskKind::UpdateCheck);
    }
    if peer_presence_allowed(inputs) {
        ts.push(TaskKind::PeerPresence);
    }
    ts.push(TaskKind::EntryListLoad { refresh: false });
    ts.push(TaskKind::Cleanup(CleanupDir::Logs));
    ts.push(TaskKind::Cleanup(CleanupDir::DownloadsCache));
    ts.push(TaskKind::CustomStateLoad);
    if inputs.instance_selected {
        ts.push(TaskKind::NotesReload);
    }
    proof {
        assert(ts@ =~= spec_plan(*inputs));
        lemma_plan_scheduled(*inputs);
    }
    ts
}

/// How many entries of `s` are true.
pub open spec fn count_true(s: Seq<bool>) -> int
    decreases s.len(),
{
    if s.len() == 0 {
        0
    } else {
        count_true(s.drop_last()) + if s.last() {
            1int
        } else {
            0int
        }
    }
}

/// The count never exceeds the length.
pub proof fn lemma_count_true_le(s: Seq<bool>)
    ensures
        0 <= count_true(s) <= s.len(),
    decreases s.len(),
{
    if s.len() > 0 {
        lemma_count_true_le(s.drop_last());
    }
}

/// Where every entry is true, the count is the length.
pub proof fn lemma_count_true_all(s: Seq<bool>)
    requires
        forall|i: int| 0 <= i < s.len() ==> s[i],
    ensures
        count_true(s) == s.len(),
    decreases s.len(),
{
    if s.len() > 0 {
        lemma_count_true_all(s.drop_last());
    }
}

/// Where no entry is true, the count is zero.
pub proof fn lemma_count_true_none(s: Seq<bool>)
    requires
        forall|i: int| 0 <= i < s.len() ==> !s[i],
    ensures
        count_true(s) == 0,
    decreases s.len(),
{
    if s.len() > 0 {
        lemma_count_true_none(s.drop_last());
    }
}

/// Turning one false entry true raises the count by one.
pub proof fn lemma_count_true_update(s: Seq<bool>, i: int)
    requires
        0 <= i < s.len(),
        !s[i],
    ensures
        count_true(s.update(i, true)) == count_true(s) + 1,
    decreases s.len(),
{
    let t = s.update(i, true);
    if i == s.len() - 1 {
        assert(t.drop_last() =~= s.drop_last());
    } else {
        assert(t.drop_last() =~= s.drop_last().update(i, true));
        lemma_count_true_update(s.drop_last(), i);
    }
}

/// A duplicate-free run of `n` indices drawn from `0..n` covers every
/// index in `0..n`.
pub proof fn lemma_index_cover(order: Seq<int>, n: int)
    requires
        order.no_duplicates(),
        order.len() == n,
        forall|k: int| 0 <= k < order.len() ==> 0 <= #[trigger] order[k] < n,
    ensures
        forall|j: int| 0 <= j < n ==> order.contains(j),
{
    broadcast use vstd::set::group_set_axioms;
    broadcast use vstd::seq_lib::seq_to_set_is_finite;

    let occupied = order.to_set();
    order.unique_seq_to_set();
    vstd::set_lib::lemma_int_range(0, n);
    assert(occupied.subset_of(vstd::set_lib::set_int_range(0, n)));
    vstd::set_lib::lemma_subset_equality(occupied, vstd::set_lib::set_int_range(0, n));
    assert forall|j: int| 0 <= j < n implies order.contains(j) by {
        assert(vstd::set_lib::set_int_range(0, n).contains(j));
        assert(occupied.contains(j));
    }
}

/// The orchestrator: owns the scheduled tasks, tracks which of them have
/// reported, and holds the events emitted so far in completion order.
///
/// Two ghost fields record each event's provenance: `completion_order[k]`
/// is the task whose completion produced event `k`, and
/// `completion_outcomes[k]` is the outcome that completion carried.
pub struct Orchestrator {
    /// The scheduled tasks, in registry order.
    pub tasks: Vec<TaskKind>,
    /// `completed[i]` records whether task `i` has already reported.
    pub completed: Vec<bool>,
    /// The events emitted so far, one per completed task.
    pub events: Vec<CompletionEvent>,
    /// Which task produced each event, in emission order.
    pub completion_order: Ghost<Seq<int>>,
    /// The outcome each event carried, in emission order.
    pub completion_outcomes: Ghost<Seq<TaskOutcome>>,
}

impl Orchestrator {
    /// The orchestrator's invariant: one completion flag per task; exactly
    /// one emitted event per completed task; and every event on record is
    /// the event of a distinct completed task, carrying that task's
    /// outcome — no duplicates, no silent drops.
    pub open spec fn wf(self) -> bool {
        &&& self.completed@.len() == self.tasks@.len()
        &&& self.events@.len() == count_true(self.completed@)
        &&& self.completion_order@.len() == self.events@.len()
        &&& self.completion_outcomes@.len() == self.events@.len()
        &&& forall|k: int|
            0 <= k < self.completion_order@.len() ==> 0 <= #[trigger] self.completion_order@[k]
                < self.tasks@.len() && self.completed@[self.completion_order@[k]]
        &&& self.completion_order@.no_duplicates()
        &&& forall|k: int|
            0 <= k < self.events@.len() ==> #[trigger] self.events@[k] == spec_event_for(
                self.tasks@[self.completion_order@[k]],
                self.completion_outcomes@[k],
            )
    }

    /// Schedules the whole registry for the given inputs: every task whose
    /// condition holds is in flight, nothing has completed, and no event
    /// has been emitted.
    pub fn start_all(inputs: &StartupPlanInputs) -> (o: Orchestrator)
        ensures
            o.wf(),
            o.tasks@ == spec_plan(*inputs),
            forall|t: TaskKind| #[trigger] o.tasks@.contains(t) <==> spec_scheduled(*inputs, t),
            o.tasks@.no_duplicates(),
            forall|i: int| 0 <= i < o.completed@.len() ==> !o.completed@[i],
            o.events@.len() == 0,
    {
        let tasks = scheduled_tasks(inputs);
        let mut completed: Vec<bool> = Vec::new();
        let mut i: usize = 0;
        while i < tasks.len()
            invariant
                i <= tasks@.len(),
                completed@.len() == i,
                forall|j: int| 0 <= j < i ==> !completed@[j],
            decreases tasks@.len() - i,
        {
            completed.push(false);
            i = i + 1;
        }
        proof {
            lemma_count_true_none(completed@);
        }
        Orchestrator {
            tasks,
            completed,
            events: Vec::new(),
            completion_order: Ghost(Seq::empty()),
            completion_outcomes: Ghost(Seq::empty()),
        }
    }

    /// How many tasks are in flight.
    pub fn task_count(&self) -> (n: usize)
        ensures
            n == self.tasks@.len(),
    {
        self.tasks.len()
    }

    /// Whether task `i` has already reported.
    pub fn is_completed(&self, i: usize) -> (b: bool)
        requires
            self.wf(),
            i < self.tasks@.len(),
        ensures
            b == self.completed@[i as int],
    {
        self.completed[i]
    }

    /// Task `i` finished with `outcome`: emit its event.  A task can
    /// report only once, and every report appends exactly one event — no
    /// duplicates, no silent drops.
    pub fn complete(&mut self, i: usize, outcome: TaskOutcome)
        requires
            old(self).wf(),
            i < old(self).tasks@.len(),
            !old(self).completed@[i as int],
        ensures
            final(self).wf(),
            final(self).tasks@ == old(self).tasks@,
            final(self).completed@ == old(self).completed@.update(i as int, true),
            final(self).events@ == old(self).events@.push(
                spec_event_for(old(self).tasks@[i as int], outcome),
            ),
            final(self).completion_order@ == old(self).completion_order@.push(i as int),
            final(self).completion_outcomes@ == old(self).completion_outcomes@.push(outcome),
    {
        let ghost prev_order = self.completion_order@;
        let ghost prev_outcomes = self.completion_outcomes@;
        let ghost recorded_outcome = outcome;
        let task = self.tasks[i];
        let e = event_for(task, outcome);
        self.events.push(e);
        self.completed.set(i, true);
        proof {
            self.completion_order@ = prev_order.push(i as int);
            self.completion_outcomes@ = prev_outcomes.push(recorded_outcome);
            lemma_count_true_update(old(self).completed@, i as int);
            // Task i had not reported, so it is not among the recorded
            // indices and the record stays duplicate-free.
            if prev_order.contains(i as int) {
                let k = choose|k: int| 0 <= k < prev_order.len() && prev_order[k] == i as int;
                assert(old(self).completed@[i as int]);
            }
            assert(!prev_order.contains(i as int));
        }
    }

    /// Whether every scheduled task has reported.
    pub fn all_done(&self) -> (b: bool)
        ensures
            b == (forall|i: int| 0 <= i < self.completed@.len() ==> self.completed@[i]),
    {
        let mut i: usize = 0;
        while i < self.completed.len()
            invariant
                i <= self.completed@.len(),
                forall|j: int| 0 <= j < i ==> self.completed@[j],
            decreases self.completed@.len() - i,
        {
            if !self.completed[i] {
                return false;
            }
            i = i + 1;
        }
        true
    }
}

/// Law: once every scheduled task has completed, exactly one event was
/// emitted per scheduled task — none dropped, none duplicated: the counts
/// agree, and every task index appears in the provenance record (which
/// `wf` keeps duplicate-free and tied to the events).
pub proof fn lemma_one_event_per_task(o: Orchestrator)
    requires
        o.wf(),
        forall|i: int| 0 <= i < o.completed@.len() ==> o.completed@[i],
    ensures
        o.events@.len() == o.tasks@.len(),
        forall|j: int| 0 <= j < o.tasks@.len() ==> o.completion_order@.contains(j),
{
    lemma_count_true_all(o.completed@);
    lemma_index_cover(o.completion_order@, o.tasks@.len() as int);
}

/// Law: at no point do the emitted events outnumber the scheduled tasks;
/// a task that was never scheduled never contributes an event.
pub proof fn lemma_no_spurious_events(o: Orchestrator)
    requires
        o.wf(),
    ensures
        o.events@.len() <= o.tasks@.len(),
{
    lemma_count_true_le(o.completed@);
}

} // verus!
