//! The life of one run: configure, build the shared runtime, schedule, drain, done.
//!
//! The caller owns the runtime, the tasks and the clock. It performs each
//! action that `run_load_test` hands out and reports back what came of it.

use vstd::prelude::*;
use crate::config::Iterations;
use crate::executor::{is_terminal, TaskState};
use crate::schedule::{finite_total, max_tasks, mode_of, Mode};

verus! {

/// The scheduler asks for a compaction pass whenever the number of spawned
/// tasks is a multiple of this.
pub const SCHEDULER_COMPACTION_PERIOD: usize = 10000;

/// The phases of a run, in the order in which a run passes through them.
/// `Aborted` stands apart: it is where a run ends whose runtime could not be built.
#[derive(Clone, Copy, Debug, PartialEq, Eq, Structural)]
pub enum Phase {
    Configuring,
    Building,
    Scheduling,
    Draining,
    Done,
    Aborted,
}

/// What the caller reports to the scheduler.
#[derive(Clone, Copy, Debug, PartialEq, Eq, Structural)]
pub enum RunEvent {
    /// The configuration is resolved.
    ConfigResolved { iterations: Iterations, duration_ms: u64, vus: usize },
    /// The shared runtime and the compiled routine are ready.
    RuntimeReady,
    /// The shared runtime could not be built.
    RuntimeFailed,
    /// The clock was read: so much of the run's time has passed.
    Tick { elapsed_ms: u64 },
    /// The tasks that the last action asked for are spawned.
    Spawned,
    /// One task reached the given terminal state.
    TaskFinished(TaskState),
    /// Every task that was awaited has been awaited.
    Drained,
    /// The wall-clock budget of the whole run is spent.
    BudgetElapsed,
}

/// What the caller is to do next.
#[derive(Clone, Copy, Debug, PartialEq, Eq, Structural)]
pub enum RunAction {
    /// Build the shared runtime and compile the routine.
    BuildRuntime,
    /// Spawn every task of the finite plan.
    SpawnPlan,
    /// Read the clock and report it with `Tick`.
    ReadClock,
    /// Spawn one task per virtual user, numbered on from `first_id`.
    SpawnCycle { first_id: usize },
    /// Drop the handles of finished tasks, ask for a compaction pass if
    /// `compact`, yield briefly, then read the clock.
    Pause { compact: bool },
    /// Stop spawning and await the tasks that are still active.
    AwaitTasks,
    /// Ask for a last compaction pass, release the runtime and report.
    Finish,
    /// Report the failure; no iteration is attempted.
    Abort,
    /// The event was counted; go on as before.
    Noted,
    /// The event does not apply to the run as it stands.
    Ignore,
}

/// The scheduler's view of a run.
#[derive(Clone, Copy, Debug, PartialEq, Eq, Structural)]
pub struct RunState {
    pub phase: Phase,
    pub iterations: Iterations,
    pub duration_ms: u64,
    pub vus: usize,
    /// Tasks spawned so far.
    pub spawned: usize,
    /// Tasks that ended as `Completed`, `Failed`, `TimedOut`.
    pub completed: usize,
    pub failed: usize,
    pub timed_out: usize,
    /// Tasks that the run's own budget cut off while they were active.
    pub abandoned: usize,
}

/// The state of a run that is about to be configured: nothing is spawned
/// or accounted for, and the parameters are yet to come.
pub open spec fn initial_run() -> RunState {
    RunState {
        phase: Phase::Configuring,
        iterations: Iterations::Finite(0),
        duration_ms: 0,
        vus: 0,
        spawned: 0,
        completed: 0,
        failed: 0,
        timed_out: 0,
        abandoned: 0,
    }
}

impl RunState {
    /// The number of tasks that are accounted for.
    pub open spec fn finished(self) -> int {
        self.completed + self.failed + self.timed_out + self.abandoned
    }

    /// The scheduling mode of the run.
    pub open spec fn mode(self) -> Mode {
        mode_of(self.iterations)
    }

    /// The number of tasks that a finite run spawns.
    pub open spec fn planned(self) -> int {
        match self.iterations {
            Iterations::Finite(n) => finite_total(n as int, self.vus as int),
            Iterations::Infinite => 0,
        }
    }

    /// What holds of every state that a run passes through: no more tasks
    /// are accounted for than were spawned; nothing is spawned before the
    /// scheduling phase; a finite run spawns its whole plan at once; and a
    /// run is done only when every spawned task is accounted for.
    pub open spec fn wf(self) -> bool {
        &&& self.finished() <= self.spawned
        &&& (self.phase == Phase::Configuring || self.phase == Phase::Building || self.phase
            == Phase::Aborted) ==> self.spawned == 0
        &&& self.mode() == Mode::Finite && (self.phase == Phase::Scheduling || self.phase
            == Phase::Draining || self.phase == Phase::Done) ==> self.spawned == self.planned()
        &&& self.phase == Phase::Done ==> self.finished() == self.spawned
    }

    /// A run that is about to be configured.
    pub fn new() -> (state: RunState)
        ensures
            state == initial_run(),
            state.wf(),
    {
        RunState {
            phase: Phase::Configuring,
            iterations: Iterations::Finite(0),
            duration_ms: 0,
            vus: 0,
            spawned: 0,
            completed: 0,
            failed: 0,
            timed_out: 0,
            abandoned: 0,
        }
    }
}

/// `state` with one more task accounted for under `outcome`.
pub open spec fn counted(state: RunState, outcome: TaskState) -> RunState {
    match outcome {
        TaskState::Completed => RunState { completed: (state.completed + 1) as usize, ..state },
        TaskState::Failed => RunState { failed: (state.failed + 1) as usize, ..state },
        TaskState::TimedOut => RunState { timed_out: (state.timed_out + 1) as usize, ..state },
        _ => state,
    }
}

/// A report that a task ended counts when it names a terminal state, the
/// run is scheduling or draining, and a spawned task is still unaccounted for.
pub open spec fn counts(state: RunState, outcome: TaskState) -> bool {
    &&& is_terminal(outcome)
    &&& state.phase == Phase::Scheduling || state.phase == Phase::Draining
    &&& state.finished() < state.spawned
}

/// The state that follows `state` on `event`.
pub open spec fn next_run(state: RunState, event: RunEvent) -> RunState {
    match (state.phase, event) {
        (Phase::Configuring, RunEvent::ConfigResolved { iterations, duration_ms, vus }) => RunState {
            phase: Phase::Building,
            iterations,
            duration_ms,
            vus,
            spawned: 0,
            completed: 0,
            failed: 0,
            timed_out: 0,
            abandoned: 0,
        },
        (Phase::Building, RunEvent::RuntimeReady) => RunState {
            phase: Phase::Scheduling,
            spawned: state.planned() as usize,
            ..state
        },
        (Phase::Building, RunEvent::RuntimeFailed) => RunState { phase: Phase::Aborted, ..state },
        (Phase::Scheduling, RunEvent::Tick { elapsed_ms }) => if state.mode() == Mode::Finite {
            state
        } else if elapsed_ms >= state.duration_ms {
            RunState { phase: Phase::Draining, ..state }
        } else {
            RunState { spawned: (state.spawned + state.vus) as usize, ..state }
        },
        (Phase::Scheduling, RunEvent::Spawned) => if state.mode() == Mode::Finite {
            RunState { phase: Phase::Draining, ..state }
        } else {
            state
        },
        (Phase::Scheduling, RunEvent::BudgetElapsed) => RunState { phase: Phase::Draining, ..state },
        (Phase::Scheduling, RunEvent::TaskFinished(outcome)) => if counts(state, outcome) {
            counted(state, outcome)
        } else {
            state
        },
        (Phase::Draining, RunEvent::TaskFinished(outcome)) => if counts(state, outcome) {
            counted(state, outcome)
        } else {
            state
        },
        (Phase::Draining, RunEvent::Drained) => if state.finished() == state.spawned {
            RunState { phase: Phase::Done, ..state }
        } else {
            state
        },
        (Phase::Draining, RunEvent::BudgetElapsed) => if state.finished() <= state.spawned {
            RunState {
                phase: Phase::Done,
                abandoned: (state.abandoned + (state.spawned - state.finished())) as usize,
                ..state
            }
        } else {
            state
        },
        _ => state,
    }
}

/// The action that `event` calls for when the run is in `state`.
pub open spec fn action_of(state: RunState, event: RunEvent) -> RunAction {
    match (state.phase, event) {
        (Phase::Configuring, RunEvent::ConfigResolved { .. }) => RunAction::BuildRuntime,
        (Phase::Building, RunEvent::RuntimeReady) => if state.mode() == Mode::Finite {
            RunAction::SpawnPlan
        } else {
            RunAction::ReadClock
        },
        (Phase::Building, RunEvent::RuntimeFailed) => RunAction::Abort,
        (Phase::Scheduling, RunEvent::Tick { elapsed_ms }) => if state.mode() == Mode::Finite {
            RunAction::Ignore
        } else if elapsed_ms >= state.duration_ms {
            RunAction::AwaitTasks
        } else {
            RunAction::SpawnCycle { first_id: state.spawned }
        },
        (Phase::Scheduling, RunEvent::Spawned) => if state.mode() == Mode::Finite {
            RunAction::AwaitTasks
        } else {
            RunAction::Pause { compact: state.spawned % 10000 == 0 }
        },
        (Phase::Scheduling, RunEvent::BudgetElapsed) => RunAction::AwaitTasks,
        (Phase::Scheduling, RunEvent::TaskFinished(outcome)) => if counts(state, outcome) {
            RunAction::Noted
        } else {
            RunAction::Ignore
        },
        (Phase::Draining, RunEvent::TaskFinished(outcome)) => if counts(state, outcome) {
            RunAction::Noted
        } else {
            RunAction::Ignore
        },
        (Phase::Draining, RunEvent::Drained) => if state.finished() == state.spawned {
            RunAction::Finish
        } else {
            RunAction::AwaitTasks
        },
        (Phase::Draining, RunEvent::BudgetElapsed) => if state.finished() <= state.spawned {
            RunAction::Finish
        } else {
            RunAction::Ignore
        },
        _ => RunAction::Ignore,
    }
}

/// The one step that machine limits rule out: a cycle of an unbounded run
/// whose task numbers would not fit.
pub open spec fn in_range(state: RunState, event: RunEvent) -> bool {
    (state.phase == Phase::Scheduling && state.mode() == Mode::Infinite && event is Tick
        && event->elapsed_ms < state.duration_ms) ==> state.spawned + state.vus <= usize::MAX
}

/// The number of spawned tasks that are not yet accounted for, or `None`
/// where more are accounted for than were spawned.
pub fn unaccounted(state: &RunState) -> (r: Option<usize>)
    ensures
        r == if state.finished() <= state.spawned {
            Some((state.spawned - state.finished()) as usize)
        } else {
            None
        },
{
    let done: u128 = state.completed as u128 + state.failed as u128 + state.timed_out as u128
        + state.abandoned as u128;
    if done <= state.spawned as u128 {
        Some((state.spawned as u128 - done) as usize)
    } else {
        None
    }
}

/// Accounts for one task that is reported to have ended.
fn note_finished(state: RunState, outcome: TaskState) -> (r: (RunState, RunAction))
    requires
        state.phase == Phase::Scheduling || state.phase == Phase::Draining,
    ensures
        r.0 == next_run(state, RunEvent::TaskFinished(outcome)),
        r.1 == action_of(state, RunEvent::TaskFinished(outcome)),
{
    let open_tasks: bool = match unaccounted(&state) {
        Some(n) => n > 0,
        None => false,
    };
    if !open_tasks {
        return (state, RunAction::Ignore);
    }
    let mut next = state;
    match outcome {
        TaskState::Completed => {
            next.completed = state.completed + 1;
        },
        TaskState::Failed => {
            next.failed = state.failed + 1;
        },
        TaskState::TimedOut => {
            next.timed_out = state.timed_out + 1;
        },
        _ => {
            return (state, RunAction::Ignore);
        },
    }
    (next, RunAction::Noted)
}

/// Advances a run by one event and says what the caller is to do next.
///
/// A run is configured, then builds its runtime, then schedules, then
/// drains, then is done. A finite run spawns its whole plan at once and
/// drains. An unbounded run spawns one task per virtual user each cycle
/// until its duration has passed, then drains. A run is done when every
/// spawned task is accounted for, or when its budget cuts the drain short
/// and the tasks still active are abandoned. A runtime that cannot be
/// built aborts the run before any task is spawned. Every other event
/// leaves the run as it is.
pub fn run_load_test(state: RunState, event: RunEvent) -> (r: (RunState, RunAction))
    requires
        in_range(state, event),
    ensures
        r.0 == next_run(state, event),
        r.1 == action_of(state, event),
        state.wf() ==> r.0.wf(),
{
    let infinite: bool = state.iterations.is_infinite();
    let mut next = state;
    let action = match state.phase {
        Phase::Configuring => match event {
            RunEvent::ConfigResolved { iterations, duration_ms, vus } => {
                next = RunState {
                    phase: Phase::Building,
                    iterations,
                    duration_ms,
                    vus,
                    spawned: 0,
                    completed: 0,
                    failed: 0,
                    timed_out: 0,
                    abandoned: 0,
                };
                RunAction::BuildRuntime
            },
            _ => RunAction::Ignore,
        },
        Phase::Building => match event {
            RunEvent::RuntimeReady => {
                next.phase = Phase::Scheduling;
                if infinite {
                    next.spawned = 0;
                    RunAction::ReadClock
                } else {
                    next.spawned = max_tasks(state.iterations, state.vus);
                    RunAction::SpawnPlan
                }
            },
            RunEvent::RuntimeFailed => {
                next.phase = Phase::Aborted;
                RunAction::Abort
            },
            _ => RunAction::Ignore,
        },
        Phase::Scheduling => match event {
            RunEvent::Tick { elapsed_ms } => {
                if !infinite {
                    RunAction::Ignore
                } else if elapsed_ms >= state.duration_ms {
                    next.phase = Phase::Draining;
                    RunAction::AwaitTasks
                } else {
                    next.spawned = state.spawned + state.vus;
                    RunAction::SpawnCycle { first_id: state.spawned }
                }
            },
            RunEvent::Spawned => {
                if infinite {
                    RunAction::Pause { compact: state.spawned % SCHEDULER_COMPACTION_PERIOD == 0 }
                } else {
                    next.phase = Phase::Draining;
                    RunAction::AwaitTasks
                }
            },
            RunEvent::BudgetElapsed => {
                next.phase = Phase::Draining;
                RunAction::AwaitTasks
            },
            RunEvent::TaskFinished(outcome) => {
                let (counted_state, noted) = note_finished(state, outcome);
                next = counted_state;
                noted
            },
            _ => RunAction::Ignore,
        },
        Phase::Draining => match event {
            RunEvent::TaskFinished(outcome) => {
                let (counted_state, noted) = note_finished(state, outcome);
                next = counted_state;
                noted
            },
            RunEvent::Drained => match unaccounted(&state) {
                Some(0) => {
                    next.phase = Phase::Done;
                    RunAction::Finish
                },
                _ => RunAction::AwaitTasks,
            },
            RunEvent::BudgetElapsed => match unaccounted(&state) {
                Some(rest) => {
                    next.phase = Phase::Done;
                    next.abandoned = state.abandoned + rest;
                    RunAction::Finish
                },
                None => RunAction::Ignore,
            },
            _ => RunAction::Ignore,
        },
        _ => RunAction::Ignore,
    };
    (next, action)
}

/// `b` is the phase that comes directly after `a`, or where a run ends
/// whose runtime could not be built.
pub open spec fn follows(a: Phase, b: Phase) -> bool {
    ||| a == Phase::Configuring && b == Phase::Building
    ||| a == Phase::Building && b == Phase::Scheduling
    ||| a == Phase::Scheduling && b == Phase::Draining
    ||| a == Phase::Draining && b == Phase::Done
    ||| a == Phase::Building && b == Phase::Aborted
}

/// No step skips a phase or goes back: a run stays in its phase or moves to
/// the one that follows. `Done` and `Aborted` are never left.
pub proof fn law_phases_in_order(state: RunState, event: RunEvent)
    ensures
        next_run(state, event).phase == state.phase || follows(
            state.phase,
            next_run(state, event).phase,
        ),
        state.phase == Phase::Done || state.phase == Phase::Aborted ==> next_run(state, event)
            == state && action_of(state, event) == RunAction::Ignore,
{
}

/// Every step keeps what holds of every state of a run.
pub proof fn law_step_keeps_wf(state: RunState, event: RunEvent)
    requires
        state.wf(),
        in_range(state, event),
    ensures
        next_run(state, event).wf(),
{
}

/// A run becomes done only out of the draining phase, and then every task
/// that was spawned is accounted for: none is still pending or running.
pub proof fn law_done_after_drain(state: RunState, event: RunEvent)
    requires
        state.wf(),
        state.phase != Phase::Done,
        next_run(state, event).phase == Phase::Done,
    ensures
        state.phase == Phase::Draining,
        next_run(state, event).finished() == next_run(state, event).spawned,
        next_run(state, event).spawned == state.spawned,
        action_of(state, event) == RunAction::Finish,
{
}

/// A finite run spawns exactly `min(iterations, cap)` tasks, all of them when
/// its runtime is ready, and none afterwards.
pub proof fn law_finite_spawns_plan(state: RunState, n: u64, event: RunEvent)
    requires
        state.wf(),
        state.iterations == Iterations::Finite(n),
    ensures
        state.phase == Phase::Building ==> next_run(state, RunEvent::RuntimeReady).spawned
            == finite_total(n as int, state.vus as int) && action_of(state, RunEvent::RuntimeReady)
            == RunAction::SpawnPlan,
        state.phase != Phase::Building && state.phase != Phase::Configuring ==> next_run(
            state,
            event,
        ).spawned == state.spawned,
{
}

/// An unbounded run spawns one task per virtual user in each cycle that
/// begins before its duration has passed, and stops spawning at the first
/// reading of the clock at or past it.
pub proof fn law_unbounded_cycles(state: RunState, elapsed_ms: u64)
    requires
        state.phase == Phase::Scheduling,
        state.iterations == Iterations::Infinite,
        state.spawned + state.vus <= usize::MAX,
    ensures
        elapsed_ms < state.duration_ms ==> next_run(state, RunEvent::Tick { elapsed_ms }).spawned
            == state.spawned + state.vus && action_of(state, RunEvent::Tick { elapsed_ms })
            == (RunAction::SpawnCycle { first_id: state.spawned }),
        elapsed_ms >= state.duration_ms ==> next_run(state, RunEvent::Tick { elapsed_ms })
            == (RunState { phase: Phase::Draining, ..state }) && action_of(
            state,
            RunEvent::Tick { elapsed_ms },
        ) == RunAction::AwaitTasks,
{
}

/// A task that fails or times out changes nothing but its own count: the
/// run stays in its phase, and each task that is still open can be counted
/// as completed afterwards.
pub proof fn law_failure_is_isolated(state: RunState, outcome: TaskState)
    requires
        state.wf(),
        state.phase == Phase::Scheduling || state.phase == Phase::Draining,
        outcome == TaskState::Failed || outcome == TaskState::TimedOut,
        state.finished() + 1 < state.spawned,
    ensures
        next_run(state, RunEvent::TaskFinished(outcome)).phase == state.phase,
        next_run(state, RunEvent::TaskFinished(outcome)).spawned == state.spawned,
        next_run(state, RunEvent::TaskFinished(outcome)).completed == state.completed,
        next_run(state, RunEvent::TaskFinished(outcome)).finished() == state.finished() + 1,
        next_run(
            next_run(state, RunEvent::TaskFinished(outcome)),
            RunEvent::TaskFinished(TaskState::Completed),
        ).completed == state.completed + 1,
{
}

/// A draining run always comes to an end: it is done as soon as its last
/// open task is accounted for, whatever the outcomes were, and at the latest
/// when its budget is spent.
pub proof fn law_drain_terminates(state: RunState)
    requires
        state.wf(),
        state.phase == Phase::Draining,
    ensures
        state.finished() == state.spawned ==> next_run(state, RunEvent::Drained).phase
            == Phase::Done,
        next_run(state, RunEvent::BudgetElapsed).phase == Phase::Done,
        next_run(state, RunEvent::BudgetElapsed).completed == state.completed,
        next_run(state, RunEvent::BudgetElapsed).abandoned == state.abandoned + (state.spawned
            - state.finished()),
{
}

/// Only the report that a task completed raises the count of completed tasks.
pub proof fn law_completed_only_when_reported(state: RunState, event: RunEvent)
    requires
        state.phase != Phase::Configuring,
        event != RunEvent::TaskFinished(TaskState::Completed),
    ensures
        next_run(state, event).completed == state.completed,
{
}

/// The state of a run after a series of events, taken in order.
pub open spec fn run_after(state: RunState, events: Seq<RunEvent>) -> RunState
    decreases events.len(),
{
    if events.len() == 0 {
        state
    } else {
        next_run(run_after(state, events.drop_last()), events.last())
    }
}

/// Every step of the series is one that machine limits allow.
pub open spec fn all_in_range(state: RunState, events: Seq<RunEvent>) -> bool
    decreases events.len(),
{
    events.len() == 0 || (all_in_range(state, events.drop_last()) && in_range(
        run_after(state, events.drop_last()),
        events.last(),
    ))
}

/// The place of a phase in the order of a run.
pub open spec fn phase_rank(phase: Phase) -> int {
    match phase {
        Phase::Configuring => 0,
        Phase::Building => 1,
        Phase::Scheduling => 2,
        Phase::Draining => 3,
        Phase::Done => 4,
        Phase::Aborted => 5,
    }
}

/// Whatever is reported to a run, in whatever order, it never goes back to
/// an earlier phase.
pub proof fn law_phases_never_go_back(state: RunState, events: Seq<RunEvent>)
    ensures
        phase_rank(run_after(state, events).phase) >= phase_rank(state.phase),
    decreases events.len(),
{
    if events.len() > 0 {
        law_phases_never_go_back(state, events.drop_last());
        law_phases_in_order(run_after(state, events.drop_last()), events.last());
    }
}

/// Whatever is reported to a new run, in whatever order: no more tasks are
/// accounted for than were spawned, a finite run has spawned its plan or
/// nothing, and a run that is done has accounted for every spawned task.
pub proof fn law_run_is_consistent(events: Seq<RunEvent>)
    requires
        all_in_range(initial_run(), events),
    ensures
        run_after(initial_run(), events).wf(),
        run_after(initial_run(), events).phase == Phase::Done ==> run_after(
            initial_run(),
            events,
        ).finished() == run_after(initial_run(), events).spawned,
    decreases events.len(),
{
    if events.len() > 0 {
        law_run_is_consistent(events.drop_last());
        law_step_keeps_wf(run_after(initial_run(), events.drop_last()), events.last());
    }
}

/// No step takes a spawned task back.
pub proof fn law_spawned_never_falls(state: RunState, event: RunEvent)
    requires
        state.wf(),
        in_range(state, event),
    ensures
        next_run(state, event).spawned >= state.spawned,
{
}

/// In an unbounded run every cycle spawns one task for each virtual user.
spec fn whole_cycles(state: RunState) -> bool {
    state.mode() == Mode::Infinite && state.vus > 0 ==> state.spawned as int % state.vus as int == 0
}

/// A step keeps the count of an unbounded run at whole cycles.
proof fn lemma_step_keeps_whole_cycles(state: RunState, event: RunEvent)
    requires
        state.wf(),
        whole_cycles(state),
        in_range(state, event),
    ensures
        whole_cycles(next_run(state, event)),
{
    let next = next_run(state, event);
    if next.mode() == Mode::Infinite && next.vus > 0 {
        let v = next.vus as int;
        assert(0int % v == 0) by (nonlinear_arith)
            requires
                v > 0,
        ;
        if next.spawned != state.spawned && next.spawned != 0 {
            let a = state.spawned as int;
            assert((a + v) % v == 0) by (nonlinear_arith)
                requires
                    a % v == 0,
                    v > 0,
                    a >= 0,
            ;
        }
    }
}

/// Whatever is reported to a new run, in whatever order: the number of
/// tasks that an unbounded run has spawned is a multiple of its number of
/// virtual users.
pub proof fn law_unbounded_count_is_whole_cycles(events: Seq<RunEvent>)
    requires
        all_in_range(initial_run(), events),
    ensures
        run_after(initial_run(), events).wf(),
        run_after(initial_run(), events).iterations == Iterations::Infinite && run_after(
            initial_run(),
            events,
        ).vus > 0 ==> run_after(initial_run(), events).spawned as int % run_after(
            initial_run(),
            events,
        ).vus as int == 0,
    decreases events.len(),
{
    if events.len() > 0 {
        law_unbounded_count_is_whole_cycles(events.drop_last());
        let before = run_after(initial_run(), events.drop_last());
        law_step_keeps_wf(before, events.last());
        lemma_step_keeps_whole_cycles(before, events.last());
    }
}

} // verus!
