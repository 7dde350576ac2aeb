//! The life of one iteration task: what to do next, given what just happened.
//!
//! The caller owns the scripting runtime and the clock. It performs each
//! action that `run_iteration` hands out and reports back what came of it.

use vstd::prelude::*;

verus! {

/// A task whose number is a multiple of this asks for a compaction pass with each poll.
pub const COMPACTION_PERIOD: usize = 5000;

/// How long a task yields between two polls, in milliseconds.
pub const POLL_INTERVAL_MS: u64 = 1;

/// Where a task stands.
#[derive(Clone, Copy, Debug, PartialEq, Eq, Structural)]
pub enum TaskState {
    /// Created, not yet started.
    Pending,
    /// The routine was started and its asynchronous work is being driven.
    Running,
    /// The event loop became quiescent.
    Completed,
    /// The routine threw, or the engine reported an error while polling.
    Failed,
    /// The deadline passed first; the task was abandoned in place.
    TimedOut,
}

/// What one non-blocking poll of the event loop reports.
#[derive(Clone, Copy, Debug, PartialEq, Eq, Structural)]
pub enum PollOutcome {
    /// Asynchronous work is still outstanding.
    Pending,
    /// The event loop is quiescent.
    Done,
    /// The engine reported an error.
    Errored,
}

/// What the caller reports to a task.
#[derive(Clone, Copy, Debug, PartialEq, Eq, Structural)]
pub enum IterationEvent {
    /// The scheduler lets the task start.
    Begin,
    /// The compiled routine was invoked and returned.
    Invoked,
    /// The compiled routine threw while it was invoked.
    Threw,
    /// The event loop was polled once.
    Polled(PollOutcome),
    /// The pause between two polls is over.
    Woke,
    /// The task's deadline has passed.
    DeadlineElapsed,
}

/// What the caller is to do next for a task.
#[derive(Clone, Copy, Debug, PartialEq, Eq, Structural)]
pub enum IterationAction {
    /// Take the runtime, invoke the compiled routine once, release the runtime.
    Invoke,
    /// Take the runtime, ask for a compaction pass first if `compact`, poll the
    /// event loop once without blocking, release the runtime.
    Poll { compact: bool },
    /// Yield for `POLL_INTERVAL_MS`.
    Sleep,
    /// The task has reached the given terminal state: stop driving it.
    Report(TaskState),
    /// The event does not apply to the task as it stands.
    Ignore,
}

/// One iteration task.
#[derive(Clone, Copy, Debug, PartialEq, Eq, Structural)]
pub struct IterationTask {
    pub task_id: usize,
    pub vu_id: usize,
    pub state: TaskState,
}

/// `state` is one of the three states that a task never leaves.
pub open spec fn is_terminal(state: TaskState) -> bool {
    state == TaskState::Completed || state == TaskState::Failed || state == TaskState::TimedOut
}

/// Whether the polls of task `task_id` ask for a compaction pass.
pub open spec fn wants_compaction(task_id: int) -> bool {
    task_id % 5000 == 0
}

/// The state that follows `state` on `event`.
pub open spec fn next_state(state: TaskState, event: IterationEvent) -> TaskState {
    match (state, event) {
        (TaskState::Pending, IterationEvent::Begin) => TaskState::Running,
        (TaskState::Running, IterationEvent::Threw) => TaskState::Failed,
        (TaskState::Running, IterationEvent::Polled(PollOutcome::Done)) => TaskState::Completed,
        (TaskState::Running, IterationEvent::Polled(PollOutcome::Errored)) => TaskState::Failed,
        (TaskState::Running, IterationEvent::DeadlineElapsed) => TaskState::TimedOut,
        _ => state,
    }
}

/// The action that `event` calls for when task `task_id` is in `state`.
pub open spec fn action_on(task_id: int, state: TaskState, event: IterationEvent) -> IterationAction {
    match (state, event) {
        (TaskState::Pending, IterationEvent::Begin) => IterationAction::Invoke,
        (TaskState::Running, IterationEvent::Invoked) => IterationAction::Poll {
            compact: wants_compaction(task_id),
        },
        (TaskState::Running, IterationEvent::Woke) => IterationAction::Poll {
            compact: wants_compaction(task_id),
        },
        (TaskState::Running, IterationEvent::Polled(PollOutcome::Pending)) => IterationAction::Sleep,
        (TaskState::Running, IterationEvent::Threw) => IterationAction::Report(TaskState::Failed),
        (TaskState::Running, IterationEvent::Polled(PollOutcome::Done)) => IterationAction::Report(
            TaskState::Completed,
        ),
        (TaskState::Running, IterationEvent::Polled(PollOutcome::Errored)) => IterationAction::Report(
            TaskState::Failed,
        ),
        (TaskState::Running, IterationEvent::DeadlineElapsed) => IterationAction::Report(
            TaskState::TimedOut,
        ),
        _ => IterationAction::Ignore,
    }
}

impl IterationTask {
    /// A task that has not started.
    pub fn new(task_id: usize, vu_id: usize) -> (task: IterationTask)
        ensures
            task == (IterationTask { task_id, vu_id, state: TaskState::Pending }),
    {
        IterationTask { task_id, vu_id, state: TaskState::Pending }
    }

    /// Whether the task has reached a state that it never leaves.
    pub fn is_terminal(&self) -> (b: bool)
        ensures
            b == is_terminal(self.state),
    {
        match self.state {
            TaskState::Completed | TaskState::Failed | TaskState::TimedOut => true,
            TaskState::Pending | TaskState::Running => false,
        }
    }
}

/// Whether the polls of task `task_id` ask for a compaction pass.
pub fn needs_compaction(task_id: usize) -> (b: bool)
    ensures
        b == wants_compaction(task_id as int),
{
    task_id % COMPACTION_PERIOD == 0
}

/// Whether a deadline of `timeout_ms` that began at `started_ms` has passed
/// at `now_ms`. A clock that reads earlier than the start has not passed it.
pub fn deadline_reached(started_ms: u64, now_ms: u64, timeout_ms: u64) -> (b: bool)
    ensures
        b == (now_ms - started_ms >= timeout_ms && now_ms >= started_ms),
{
    now_ms >= started_ms && now_ms - started_ms >= timeout_ms
}

/// Advances one task by one event and says what the caller is to do next.
///
/// A pending task starts on `Begin`. A running task is polled after each
/// invocation and each pause, pauses after each poll that leaves work
/// outstanding, and ends as `Completed` on quiescence, as `Failed` on a throw
/// or an engine error, and as `TimedOut` when its deadline passes. Every
/// other event leaves the task as it is.
pub fn run_iteration(task: IterationTask, event: IterationEvent) -> (r: (
    IterationTask,
    IterationAction,
))
    ensures
        r.0.task_id == task.task_id,
        r.0.vu_id == task.vu_id,
        r.0.state == next_state(task.state, event),
        r.1 == action_on(task.task_id as int, task.state, event),
{
    let mut next = task;
    let action = match task.state {
        TaskState::Pending => match event {
            IterationEvent::Begin => {
                next.state = TaskState::Running;
                IterationAction::Invoke
            },
            _ => IterationAction::Ignore,
        },
        TaskState::Running => match event {
            IterationEvent::Begin => IterationAction::Ignore,
            IterationEvent::Invoked | IterationEvent::Woke => IterationAction::Poll {
                compact: needs_compaction(task.task_id),
            },
            IterationEvent::Threw => {
                next.state = TaskState::Failed;
                IterationAction::Report(TaskState::Failed)
            },
            IterationEvent::Polled(outcome) => match outcome {
                PollOutcome::Pending => IterationAction::Sleep,
                PollOutcome::Done => {
                    next.state = TaskState::Completed;
                    IterationAction::Report(TaskState::Completed)
                },
                PollOutcome::Errored => {
                    next.state = TaskState::Failed;
                    IterationAction::Report(TaskState::Failed)
                },
            },
            IterationEvent::DeadlineElapsed => {
                next.state = TaskState::TimedOut;
                IterationAction::Report(TaskState::TimedOut)
            },
        },
        _ => IterationAction::Ignore,
    };
    (next, action)
}

/// The state of a task after a run of events, taken in order.
pub open spec fn state_after(state: TaskState, events: Seq<IterationEvent>) -> TaskState
    decreases events.len(),
{
    if events.len() == 0 {
        state
    } else {
        next_state(state_after(state, events.drop_last()), events.last())
    }
}

/// `event` reports no result: the routine returned, a poll left work
/// outstanding, or a pause ended.
pub open spec fn is_waiting(event: IterationEvent) -> bool {
    event == IterationEvent::Invoked || event == IterationEvent::Woke || event
        == IterationEvent::Polled(PollOutcome::Pending)
}

/// A terminal state is never left, whatever is reported afterwards, and
/// nothing is asked of the caller for such a task.
pub proof fn law_terminal_is_final(task_id: int, state: TaskState, events: Seq<IterationEvent>)
    requires
        is_terminal(state),
    ensures
        state_after(state, events) == state,
        forall|event: IterationEvent|
            #[trigger] action_on(task_id, state, event) == IterationAction::Ignore,
    decreases events.len(),
{
    if events.len() > 0 {
        law_terminal_is_final(task_id, state, events.drop_last());
    }
}

/// A task is reported exactly when it enters a terminal state, and it is
/// reported as the state that it enters.
pub proof fn law_reported_on_entry(task_id: int, state: TaskState, event: IterationEvent)
    ensures
        (!is_terminal(state) && is_terminal(next_state(state, event))) <==> action_on(
            task_id,
            state,
            event,
        ) == IterationAction::Report(next_state(state, event)),
        action_on(task_id, state, event) is Report ==> action_on(task_id, state, event)
            == IterationAction::Report(next_state(state, event)),
{
}

/// A state changes only along `Pending`, `Running`, terminal: no event leads
/// back, and none leads from `Pending` past `Running`.
pub proof fn law_states_in_order(state: TaskState, event: IterationEvent)
    ensures
        next_state(state, event) == TaskState::Pending ==> state == TaskState::Pending,
        next_state(state, event) == TaskState::Running ==> state == TaskState::Pending || state
            == TaskState::Running,
        state == TaskState::Pending ==> !is_terminal(next_state(state, event)),
{
}

/// A running task whose asynchronous work never resolves stays `Running`
/// however often it is polled, is never reported `Completed`, and is
/// `TimedOut` as soon as its deadline passes.
pub proof fn law_unresolved_times_out(events: Seq<IterationEvent>)
    requires
        forall|i: int| 0 <= i < events.len() ==> is_waiting(#[trigger] events[i]),
    ensures
        state_after(TaskState::Running, events) == TaskState::Running,
        state_after(TaskState::Running, events.push(IterationEvent::DeadlineElapsed))
            == TaskState::TimedOut,
    decreases events.len(),
{
    if events.len() > 0 {
        law_unresolved_times_out(events.drop_last());
        assert(is_waiting(events.last()));
    }
    assert(events.push(IterationEvent::DeadlineElapsed).drop_last() =~= events);
}

/// A routine that throws when it is invoked ends as `Failed`, and so does a
/// task whose poll reports an engine error.
pub proof fn law_throw_fails(task: IterationTask)
    requires
        task.state == TaskState::Pending,
    ensures
        state_after(task.state, seq![IterationEvent::Begin, IterationEvent::Threw])
            == TaskState::Failed,
        state_after(
            task.state,
            seq![
                IterationEvent::Begin,
                IterationEvent::Invoked,
                IterationEvent::Polled(PollOutcome::Errored),
            ],
        ) == TaskState::Failed,
{
    let a = seq![IterationEvent::Begin, IterationEvent::Threw];
    assert(a.drop_last() =~= seq![IterationEvent::Begin]);
    assert(a.drop_last().drop_last() =~= Seq::<IterationEvent>::empty());
    assert(state_after(task.state, a.drop_last().drop_last()) == task.state);
    assert(state_after(task.state, a.drop_last()) == TaskState::Running);
    let b = seq![
        IterationEvent::Begin,
        IterationEvent::Invoked,
        IterationEvent::Polled(PollOutcome::Errored),
    ];
    assert(b.drop_last() =~= seq![IterationEvent::Begin, IterationEvent::Invoked]);
    assert(b.drop_last().drop_last() =~= seq![IterationEvent::Begin]);
    assert(b.drop_last().drop_last().drop_last() =~= Seq::<IterationEvent>::empty());
    assert(state_after(task.state, b.drop_last().drop_last().drop_last()) == task.state);
    assert(state_after(task.state, b.drop_last().drop_last()) == TaskState::Running);
    assert(state_after(task.state, b.drop_last()) == TaskState::Running);
}

} // verus!
