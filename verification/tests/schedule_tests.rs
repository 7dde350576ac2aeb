use v6_engine::config::Iterations;
use v6_engine::schedule::{
    concurrency_cap, execution_budget_ms, global_task_id, max_tasks, plan_finite, select_mode,
    spawn_cycle, vu_task_count, Mode, TaskSpec, FINITE_BUDGET_MS, MAX_TASKS, TASKS_PER_VU,
};

fn task(task_id: usize, vu_id: usize) -> TaskSpec {
    TaskSpec { task_id, vu_id }
}

#[test]
fn cap_is_a_hundred_per_user_up_to_a_thousand() {
    assert_eq!(concurrency_cap(0), 0);
    assert_eq!(concurrency_cap(1), 100);
    assert_eq!(concurrency_cap(9), 900);
    assert_eq!(concurrency_cap(10), 1000);
    assert_eq!(concurrency_cap(11), 1000);
    assert_eq!(concurrency_cap(usize::MAX), 1000);
    assert_eq!(TASKS_PER_VU, 100);
    assert_eq!(MAX_TASKS, 1000);
}

#[test]
fn task_total_is_the_smaller_of_count_and_cap() {
    assert_eq!(max_tasks(Iterations::Finite(4), 2), 4);
    assert_eq!(max_tasks(Iterations::Finite(200), 2), 200);
    assert_eq!(max_tasks(Iterations::Finite(201), 2), 200);
    assert_eq!(max_tasks(Iterations::Finite(5000), 3), 300);
    assert_eq!(max_tasks(Iterations::Finite(5000), 50), 1000);
    assert_eq!(max_tasks(Iterations::Finite(u64::MAX), usize::MAX), 1000);
    assert_eq!(max_tasks(Iterations::Finite(0), 8), 0);
    assert_eq!(max_tasks(Iterations::Finite(8), 0), 0);
    assert_eq!(max_tasks(Iterations::Infinite, 3), 300);
    assert_eq!(max_tasks(Iterations::Infinite, 30), 1000);
}

#[test]
fn mode_follows_the_iteration_count() {
    assert_eq!(select_mode(Iterations::Infinite), Mode::Infinite);
    assert_eq!(select_mode(Iterations::Finite(0)), Mode::Finite);
    assert_eq!(select_mode(Iterations::Finite(u64::MAX)), Mode::Finite);
}

#[test]
fn budget_is_the_duration_or_sixty_seconds() {
    assert_eq!(execution_budget_ms(Iterations::Infinite, 1_000), 1_000);
    assert_eq!(execution_budget_ms(Iterations::Infinite, 0), 0);
    assert_eq!(execution_budget_ms(Iterations::Finite(5), 1_000), 60_000);
    assert_eq!(FINITE_BUDGET_MS, 60_000);
}

#[test]
fn shares_of_ten_tasks_among_three() {
    assert_eq!(vu_task_count(10, 3, 0), 4);
    assert_eq!(vu_task_count(10, 3, 1), 3);
    assert_eq!(vu_task_count(10, 3, 2), 3);
    assert_eq!(global_task_id(10, 3, 0, 0), 0);
    assert_eq!(global_task_id(10, 3, 0, 3), 3);
    assert_eq!(global_task_id(10, 3, 1, 0), 4);
    assert_eq!(global_task_id(10, 3, 1, 2), 6);
    assert_eq!(global_task_id(10, 3, 2, 0), 7);
    assert_eq!(global_task_id(10, 3, 2, 2), 9);
}

#[test]
fn four_tasks_for_two_users() {
    assert_eq!(plan_finite(4, 2), vec![task(0, 0), task(1, 0), task(2, 1), task(3, 1)]);
}

#[test]
fn ten_tasks_for_three_users() {
    let plan = plan_finite(10, 3);
    let owners: Vec<usize> = plan.iter().map(|t| t.vu_id).collect();
    assert_eq!(owners, vec![0, 0, 0, 0, 1, 1, 1, 2, 2, 2]);
    let ids: Vec<usize> = plan.iter().map(|t| t.task_id).collect();
    assert_eq!(ids, (0..10).collect::<Vec<usize>>());
}

#[test]
fn fewer_tasks_than_users() {
    assert_eq!(plan_finite(3, 5), vec![task(0, 0), task(1, 1), task(2, 2)]);
    assert_eq!(plan_finite(1, 4), vec![task(0, 0)]);
}

#[test]
fn the_cap_bounds_the_plan() {
    let plan = plan_finite(5000, 3);
    assert_eq!(plan.len(), 300);
    for vu in 0..3 {
        assert_eq!(plan.iter().filter(|t| t.vu_id == vu).count(), 100);
    }
    assert_eq!(plan_finite(u64::MAX, 1000).len(), 1000);
    assert_eq!(plan_finite(1001, 10).len(), 1000);
    assert_eq!(plan_finite(1000, 10).len(), 1000);
    assert_eq!(plan_finite(999, 10).len(), 999);
}

#[test]
fn empty_plans() {
    assert_eq!(plan_finite(0, 4), vec![]);
    assert_eq!(plan_finite(7, 0), vec![]);
    assert_eq!(plan_finite(0, 0), vec![]);
}

#[test]
fn every_plan_is_numbered_in_order_and_balanced() {
    for vus in 1usize..=12 {
        for iterations in 0u64..=1100 {
            let plan = plan_finite(iterations, vus);
            let cap = (vus * 100).min(1000);
            let total = (iterations as usize).min(cap);
            assert_eq!(plan.len(), total);
            let mut counts = vec![0usize; vus];
            for (i, t) in plan.iter().enumerate() {
                assert_eq!(t.task_id, i);
                assert!(t.vu_id < vus);
                if i > 0 {
                    assert!(plan[i - 1].vu_id <= t.vu_id);
                }
                counts[t.vu_id] += 1;
            }
            let most = *counts.iter().max().unwrap();
            let least = *counts.iter().min().unwrap();
            assert!(most - least <= 1);
            for vu in 0..vus {
                assert_eq!(counts[vu], vu_task_count(total, vus, vu));
                assert_eq!(counts[vu], total / vus + if vu < total % vus { 1 } else { 0 });
            }
        }
    }
}

#[test]
fn one_cycle_has_one_task_per_user() {
    assert_eq!(spawn_cycle(7, 3), vec![task(7, 0), task(8, 1), task(9, 2)]);
    assert_eq!(spawn_cycle(0, 1), vec![task(0, 0)]);
    assert_eq!(spawn_cycle(5, 0), vec![]);
    assert_eq!(spawn_cycle(usize::MAX - 2, 2), vec![task(usize::MAX - 2, 0), task(usize::MAX - 1, 1)]);
}
