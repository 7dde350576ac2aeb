use v6_engine::config::Iterations;
use v6_engine::executor::{
    run_iteration, IterationAction, IterationEvent, IterationTask, PollOutcome, TaskState,
};
use v6_engine::report::{finite_summary, infinite_summary};
use v6_engine::run::{
    run_load_test, unaccounted, Phase, RunAction, RunEvent, RunState,
    SCHEDULER_COMPACTION_PERIOD,
};
use v6_engine::schedule::{plan_finite, spawn_cycle};

fn step(state: &mut RunState, event: RunEvent) -> RunAction {
    let (next, action) = run_load_test(*state, event);
    *state = next;
    action
}

fn configured(iterations: Iterations, duration_ms: u64, vus: usize) -> RunState {
    let mut state = RunState::new();
    let action = step(&mut state, RunEvent::ConfigResolved { iterations, duration_ms, vus });
    assert_eq!(action, RunAction::BuildRuntime);
    assert_eq!(state.phase, Phase::Building);
    state
}

fn settle(task: IterationTask, polls_before_done: usize) -> TaskState {
    let (mut task, action) = run_iteration(task, IterationEvent::Begin);
    assert_eq!(action, IterationAction::Invoke);
    let mut event = IterationEvent::Invoked;
    let mut pending_left = polls_before_done;
    loop {
        let (next, action) = run_iteration(task, event);
        task = next;
        event = match action {
            IterationAction::Poll { .. } => {
                if pending_left == 0 {
                    IterationEvent::Polled(PollOutcome::Done)
                } else {
                    pending_left -= 1;
                    IterationEvent::Polled(PollOutcome::Pending)
                }
            }
            IterationAction::Sleep => IterationEvent::Woke,
            IterationAction::Report(outcome) => return outcome,
            other => panic!("unexpected action {:?}", other),
        };
    }
}

#[test]
fn a_new_run_is_being_configured() {
    let state = RunState::new();
    assert_eq!(state.phase, Phase::Configuring);
    assert_eq!(state.spawned, 0);
    assert_eq!(unaccounted(&state), Some(0));
}

#[test]
fn four_iterations_for_two_users_all_complete() {
    let mut state = configured(Iterations::Finite(4), 10_000, 2);
    assert_eq!(step(&mut state, RunEvent::RuntimeReady), RunAction::SpawnPlan);
    assert_eq!(state.phase, Phase::Scheduling);
    assert_eq!(state.spawned, 4);

    let plan = plan_finite(4, 2);
    assert_eq!(plan.len(), state.spawned);
    assert_eq!(plan.iter().filter(|t| t.vu_id == 0).count(), 2);
    assert_eq!(plan.iter().filter(|t| t.vu_id == 1).count(), 2);

    assert_eq!(step(&mut state, RunEvent::Spawned), RunAction::AwaitTasks);
    assert_eq!(state.phase, Phase::Draining);

    for spec in plan {
        let outcome = settle(IterationTask::new(spec.task_id, spec.vu_id), 10);
        assert_eq!(outcome, TaskState::Completed);
        assert_eq!(step(&mut state, RunEvent::TaskFinished(outcome)), RunAction::Noted);
    }
    assert_eq!(state.completed, 4);
    assert_eq!(step(&mut state, RunEvent::Drained), RunAction::Finish);
    assert_eq!(state.phase, Phase::Done);
    assert_eq!((state.failed, state.timed_out, state.abandoned), (0, 0, 0));
    assert_eq!(finite_summary(state.spawned, state.vus), "All 4 tasks completed across 2 VUs");
}

#[test]
fn an_unbounded_run_of_sleepers_ends_with_its_duration() {
    let mut state = configured(Iterations::Infinite, 1_000, 2);
    assert_eq!(step(&mut state, RunEvent::RuntimeReady), RunAction::ReadClock);
    assert_eq!(state.phase, Phase::Scheduling);
    assert_eq!(state.spawned, 0);

    let mut tasks: Vec<IterationTask> = Vec::new();
    let mut elapsed_ms = 0;
    loop {
        match step(&mut state, RunEvent::Tick { elapsed_ms }) {
            RunAction::SpawnCycle { first_id } => {
                assert_eq!(first_id, tasks.len());
                for spec in spawn_cycle(first_id, state.vus) {
                    let (task, action) = run_iteration(
                        IterationTask::new(spec.task_id, spec.vu_id),
                        IterationEvent::Begin,
                    );
                    assert_eq!(action, IterationAction::Invoke);
                    let (task, _) = run_iteration(task, IterationEvent::Invoked);
                    let (task, action) =
                        run_iteration(task, IterationEvent::Polled(PollOutcome::Pending));
                    assert_eq!(action, IterationAction::Sleep);
                    tasks.push(task);
                }
                assert_eq!(state.spawned, tasks.len());
                let action = step(&mut state, RunEvent::Spawned);
                assert_eq!(action, RunAction::Pause { compact: state.spawned % 10000 == 0 });
                elapsed_ms += 1;
            }
            RunAction::AwaitTasks => break,
            other => panic!("unexpected action {:?}", other),
        }
    }
    assert_eq!(elapsed_ms, 1_000);
    assert_eq!(state.phase, Phase::Draining);
    assert_eq!(state.spawned, 2_000);
    assert!(tasks.iter().all(|t| t.state == TaskState::Running));

    assert_eq!(step(&mut state, RunEvent::BudgetElapsed), RunAction::Finish);
    assert_eq!(state.phase, Phase::Done);
    assert_eq!(state.completed, 0);
    assert_eq!(state.abandoned, 2_000);
    assert_eq!(unaccounted(&state), Some(0));
    assert_eq!(
        infinite_summary(state.spawned, state.vus, state.duration_ms),
        "Completed 2000 tasks across 2 VUs (infinite iterations with 1s timeout) - Rate: 2000.00 iterations/sec"
    );
}

#[test]
fn an_unbounded_run_waits_for_tasks_that_time_out() {
    let mut state = configured(Iterations::Infinite, 5, 3);
    step(&mut state, RunEvent::RuntimeReady);
    assert_eq!(step(&mut state, RunEvent::Tick { elapsed_ms: 0 }), RunAction::SpawnCycle { first_id: 0 });
    assert_eq!(step(&mut state, RunEvent::Spawned), RunAction::Pause { compact: false });
    assert_eq!(step(&mut state, RunEvent::Tick { elapsed_ms: 4 }), RunAction::SpawnCycle { first_id: 3 });
    assert_eq!(step(&mut state, RunEvent::TaskFinished(TaskState::TimedOut)), RunAction::Noted);
    assert_eq!(step(&mut state, RunEvent::Spawned), RunAction::Pause { compact: false });
    assert_eq!(step(&mut state, RunEvent::Tick { elapsed_ms: 5 }), RunAction::AwaitTasks);
    assert_eq!(state.phase, Phase::Draining);
    assert_eq!(state.spawned, 6);
    assert_eq!(step(&mut state, RunEvent::Drained), RunAction::AwaitTasks);
    assert_eq!(state.phase, Phase::Draining);
    for _ in 0..5 {
        assert_eq!(step(&mut state, RunEvent::TaskFinished(TaskState::TimedOut)), RunAction::Noted);
    }
    assert_eq!(step(&mut state, RunEvent::Drained), RunAction::Finish);
    assert_eq!(state.phase, Phase::Done);
    assert_eq!((state.completed, state.failed, state.timed_out, state.abandoned), (0, 0, 6, 0));
}

#[test]
fn a_failed_task_does_not_stop_the_others() {
    let mut state = configured(Iterations::Finite(3), 10_000, 1);
    step(&mut state, RunEvent::RuntimeReady);
    step(&mut state, RunEvent::Spawned);
    assert_eq!(step(&mut state, RunEvent::TaskFinished(TaskState::Failed)), RunAction::Noted);
    assert_eq!(state.phase, Phase::Draining);
    assert_eq!(step(&mut state, RunEvent::TaskFinished(TaskState::Completed)), RunAction::Noted);
    assert_eq!(step(&mut state, RunEvent::Drained), RunAction::AwaitTasks);
    assert_eq!(step(&mut state, RunEvent::TaskFinished(TaskState::Completed)), RunAction::Noted);
    assert_eq!(step(&mut state, RunEvent::Drained), RunAction::Finish);
    assert_eq!((state.completed, state.failed, state.timed_out), (2, 1, 0));
    assert_eq!(state.phase, Phase::Done);
}

#[test]
fn a_runtime_that_cannot_be_built_aborts_the_run() {
    let mut state = configured(Iterations::Finite(4), 10_000, 2);
    assert_eq!(step(&mut state, RunEvent::RuntimeFailed), RunAction::Abort);
    assert_eq!(state.phase, Phase::Aborted);
    assert_eq!(state.spawned, 0);
    for event in [
        RunEvent::RuntimeReady,
        RunEvent::Spawned,
        RunEvent::Tick { elapsed_ms: 0 },
        RunEvent::TaskFinished(TaskState::Completed),
        RunEvent::Drained,
        RunEvent::BudgetElapsed,
    ] {
        let before = state;
        assert_eq!(step(&mut state, event), RunAction::Ignore);
        assert_eq!(state, before);
    }
}

#[test]
fn a_finished_run_ignores_everything() {
    let mut state = configured(Iterations::Finite(0), 10_000, 2);
    assert_eq!(step(&mut state, RunEvent::RuntimeReady), RunAction::SpawnPlan);
    assert_eq!(state.spawned, 0);
    assert_eq!(step(&mut state, RunEvent::Spawned), RunAction::AwaitTasks);
    assert_eq!(step(&mut state, RunEvent::Drained), RunAction::Finish);
    assert_eq!(state.phase, Phase::Done);
    let before = state;
    assert_eq!(step(&mut state, RunEvent::TaskFinished(TaskState::Completed)), RunAction::Ignore);
    assert_eq!(step(&mut state, RunEvent::Drained), RunAction::Ignore);
    assert_eq!(
        step(&mut state, RunEvent::ConfigResolved { iterations: Iterations::Infinite, duration_ms: 1, vus: 1 }),
        RunAction::Ignore
    );
    assert_eq!(state, before);
    assert_eq!(finite_summary(state.spawned, state.vus), "All 0 tasks completed across 2 VUs");
}

#[test]
fn no_phase_is_entered_out_of_turn() {
    let mut state = RunState::new();
    for event in [RunEvent::RuntimeReady, RunEvent::Spawned, RunEvent::Drained, RunEvent::BudgetElapsed] {
        assert_eq!(step(&mut state, event), RunAction::Ignore);
        assert_eq!(state.phase, Phase::Configuring);
    }
    let mut state = configured(Iterations::Finite(2), 1_000, 1);
    for event in [RunEvent::Spawned, RunEvent::Drained, RunEvent::BudgetElapsed, RunEvent::Tick { elapsed_ms: 5_000 }] {
        assert_eq!(step(&mut state, event), RunAction::Ignore);
        assert_eq!(state.phase, Phase::Building);
    }
    step(&mut state, RunEvent::RuntimeReady);
    assert_eq!(step(&mut state, RunEvent::Drained), RunAction::Ignore);
    assert_eq!(step(&mut state, RunEvent::Tick { elapsed_ms: 5_000 }), RunAction::Ignore);
    assert_eq!(state.phase, Phase::Scheduling);
}

#[test]
fn reports_that_cannot_be_true_are_not_counted() {
    let mut state = configured(Iterations::Finite(1), 1_000, 1);
    step(&mut state, RunEvent::RuntimeReady);
    step(&mut state, RunEvent::Spawned);
    assert_eq!(step(&mut state, RunEvent::TaskFinished(TaskState::Running)), RunAction::Ignore);
    assert_eq!(step(&mut state, RunEvent::TaskFinished(TaskState::Pending)), RunAction::Ignore);
    assert_eq!(step(&mut state, RunEvent::TaskFinished(TaskState::Completed)), RunAction::Noted);
    assert_eq!(step(&mut state, RunEvent::TaskFinished(TaskState::Completed)), RunAction::Ignore);
    assert_eq!(state.completed, 1);
    assert_eq!(unaccounted(&state), Some(0));
}

#[test]
fn the_budget_cuts_a_finite_drain_short() {
    let mut state = configured(Iterations::Finite(5), 1_000, 5);
    step(&mut state, RunEvent::RuntimeReady);
    assert_eq!(step(&mut state, RunEvent::BudgetElapsed), RunAction::AwaitTasks);
    assert_eq!(state.phase, Phase::Draining);
    step(&mut state, RunEvent::TaskFinished(TaskState::Completed));
    step(&mut state, RunEvent::TaskFinished(TaskState::Failed));
    assert_eq!(unaccounted(&state), Some(3));
    assert_eq!(step(&mut state, RunEvent::BudgetElapsed), RunAction::Finish);
    assert_eq!(state.phase, Phase::Done);
    assert_eq!((state.completed, state.failed, state.timed_out, state.abandoned), (1, 1, 0, 3));
}

#[test]
fn the_scheduler_compacts_every_ten_thousand_tasks() {
    assert_eq!(SCHEDULER_COMPACTION_PERIOD, 10000);
    let mut state = configured(Iterations::Infinite, 1_000_000, 2_500);
    step(&mut state, RunEvent::RuntimeReady);
    let mut compacted = Vec::new();
    for cycle in 0..8u64 {
        step(&mut state, RunEvent::Tick { elapsed_ms: cycle });
        if let RunAction::Pause { compact } = step(&mut state, RunEvent::Spawned) {
            if compact {
                compacted.push(state.spawned);
            }
        } else {
            panic!("expected a pause");
        }
    }
    assert_eq!(compacted, vec![10_000, 20_000]);
}

#[test]
fn more_accounted_than_spawned_is_no_count() {
    let state = RunState {
        phase: Phase::Draining,
        iterations: Iterations::Infinite,
        duration_ms: 1,
        vus: 1,
        spawned: 2,
        completed: usize::MAX,
        failed: usize::MAX,
        timed_out: 1,
        abandoned: 0,
    };
    assert_eq!(unaccounted(&state), None);
    let (next, action) = run_load_test(state, RunEvent::BudgetElapsed);
    assert_eq!(action, RunAction::Ignore);
    assert_eq!(next, state);
    let (next, action) = run_load_test(state, RunEvent::Drained);
    assert_eq!(action, RunAction::AwaitTasks);
    assert_eq!(next, state);
}
