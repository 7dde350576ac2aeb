//! How many iteration tasks a run starts, and which virtual user gets which.

use vstd::prelude::*;
use crate::config::{iterations_of, names_infinity, Iterations};

verus! {

/// Upper bound on the tasks that one virtual user may contribute to the cap.
pub const TASKS_PER_VU: usize = 100;

/// Hard ceiling on the tasks that are alive at one time.
pub const MAX_TASKS: usize = 1000;

/// Wall-clock budget of a finite run, in milliseconds.
pub const FINITE_BUDGET_MS: u64 = 60_000;

/// One unit of work: the run-wide number of a task and the virtual user that runs it.
#[derive(Clone, Copy, Debug, PartialEq, Eq, Structural)]
pub struct TaskSpec {
    pub task_id: usize,
    pub vu_id: usize,
}

/// The two ways in which a run is scheduled.
#[derive(Clone, Copy, Debug, PartialEq, Eq, Structural)]
pub enum Mode {
    /// All tasks are spawned at once and awaited.
    Finite,
    /// One task per virtual user is spawned each cycle until the duration is over.
    Infinite,
}

/// The concurrency cap of a run with `vus` virtual users: `min(vus * 100, 1000)`.
pub open spec fn cap_of(vus: int) -> int {
    if vus * 100 <= 1000 {
        vus * 100
    } else {
        1000
    }
}

/// The number of tasks of a finite run: `min(iterations, cap)`.
pub open spec fn finite_total(iterations: int, vus: int) -> int {
    if iterations <= cap_of(vus) {
        iterations
    } else {
        cap_of(vus)
    }
}

/// The number of tasks that virtual user `vu` runs when `total` tasks are
/// dealt out to `vus` users: `floor(total / vus)`, and one more for each of
/// the first `total mod vus` users.
pub open spec fn share_of(total: int, vus: int, vu: int) -> int
    recommends
        vus > 0,
{
    total / vus + if vu < total % vus { 1int } else { 0int }
}

/// The run-wide number of the first task of virtual user `vu`.
pub open spec fn first_id_of(total: int, vus: int, vu: int) -> int
    recommends
        vus > 0,
{
    vu * (total / vus) + if vu < total % vus { vu } else { total % vus }
}

/// The mode that an iteration count selects.
pub open spec fn mode_of(iterations: Iterations) -> Mode {
    match iterations {
        Iterations::Infinite => Mode::Infinite,
        Iterations::Finite(_) => Mode::Finite,
    }
}

/// Selects the scheduling mode: infinite exactly for an unbounded iteration count.
pub fn select_mode(iterations: Iterations) -> (mode: Mode)
    ensures
        mode == mode_of(iterations),
{
    match iterations {
        Iterations::Infinite => Mode::Infinite,
        Iterations::Finite(_) => Mode::Finite,
    }
}

/// The wall-clock budget of a run, in milliseconds: the configured duration
/// in infinite mode, sixty seconds in finite mode.
pub fn execution_budget_ms(iterations: Iterations, duration_ms: u64) -> (budget: u64)
    ensures
        budget == match mode_of(iterations) {
            Mode::Infinite => duration_ms,
            Mode::Finite => FINITE_BUDGET_MS,
        },
{
    match iterations {
        Iterations::Infinite => duration_ms,
        Iterations::Finite(_) => FINITE_BUDGET_MS,
    }
}

/// Computes the concurrency cap without overflow for every `vus`.
pub fn concurrency_cap(vus: usize) -> (cap: usize)
    ensures
        cap == cap_of(vus as int),
        cap <= MAX_TASKS,
{
    if vus >= 10 {
        MAX_TASKS
    } else {
        vus * TASKS_PER_VU
    }
}

/// The number of tasks of a finite run: `min(iterations, cap)`. For an
/// unbounded count it gives the cap itself, which bounds nothing in such a
/// run: an unbounded run spawns one task per virtual user in every cycle,
/// however many tasks are still active.
pub fn max_tasks(iterations: Iterations, vus: usize) -> (total: usize)
    ensures
        total == match iterations {
            Iterations::Infinite => cap_of(vus as int),
            Iterations::Finite(n) => finite_total(n as int, vus as int),
        },
        total <= MAX_TASKS,
{
    let cap: usize = concurrency_cap(vus);
    match iterations {
        Iterations::Infinite => cap,
        Iterations::Finite(n) => {
            if n <= cap as u64 {
                n as usize
            } else {
                cap
            }
        },
    }
}

/// The number of tasks of virtual user `vu_id` among `total` tasks and `vus` users.
pub fn vu_task_count(total: usize, vus: usize, vu_id: usize) -> (count: usize)
    requires
        vus > 0,
    ensures
        count == share_of(total as int, vus as int, vu_id as int),
        count <= total,
{
    let base: usize = total / vus;
    let extra: usize = total % vus;
    proof {
        lemma_share_bounds(total as int, vus as int, vu_id as int);
    }
    if vu_id < extra {
        base + 1
    } else {
        base
    }
}

/// Each share lies between the floor of the average and one more, and no
/// share exceeds the total.
pub proof fn lemma_share_bounds(total: int, vus: int, vu: int)
    requires
        total >= 0,
        vus > 0,
        vu >= 0,
    ensures
        total / vus <= share_of(total, vus, vu) <= total / vus + 1,
        0 <= share_of(total, vus, vu) <= total,
{
    lemma_div_mod(total, vus);
    if vu < total % vus {
        assert(total % vus >= 1);
        assert(total == vus * (total / vus) + total % vus);
        assert(vus * (total / vus) >= total / vus) by (nonlinear_arith)
            requires
                vus >= 1,
                total / vus >= 0,
        ;
    }
}

/// The shares of two virtual users differ by at most one.
pub proof fn law_shares_balanced(total: int, vus: int, a: int, b: int)
    requires
        vus > 0,
    ensures
        share_of(total, vus, a) - share_of(total, vus, b) <= 1,
        share_of(total, vus, b) - share_of(total, vus, a) <= 1,
{
}

/// Quotient and remainder of a non-negative number by a positive one.
pub proof fn lemma_div_mod(total: int, vus: int)
    requires
        total >= 0,
        vus > 0,
    ensures
        total == vus * (total / vus) + total % vus,
        0 <= total % vus < vus,
        0 <= total / vus <= total,
{
    assert(total == vus * (total / vus) + total % vus && 0 <= total % vus < vus && 0 <= total / vus
        <= total) by (nonlinear_arith)
        requires
            total >= 0,
            vus > 0,
    ;
}

/// The first task of the next virtual user follows the last task of this one.
pub proof fn lemma_first_id_step(total: int, vus: int, vu: int)
    requires
        total >= 0,
        vus > 0,
        vu >= 0,
    ensures
        first_id_of(total, vus, vu + 1) == first_id_of(total, vus, vu) + share_of(total, vus, vu),
{
    lemma_div_mod(total, vus);
    assert((vu + 1) * (total / vus) == vu * (total / vus) + total / vus) by (nonlinear_arith);
}

/// The ranges of task numbers start at 0, never decrease, and end at `total`.
pub proof fn lemma_first_id_bounds(total: int, vus: int, vu: int)
    requires
        total >= 0,
        vus > 0,
        0 <= vu <= vus,
    ensures
        0 <= first_id_of(total, vus, vu) <= total,
        first_id_of(total, vus, 0) == 0,
        first_id_of(total, vus, vus) == total,
{
    lemma_div_mod(total, vus);
    let base = total / vus;
    assert(0 <= vu * base <= vus * base) by (nonlinear_arith)
        requires
            0 <= vu <= vus,
            base >= 0,
    ;
    assert(0 * base == 0);
}

/// A later virtual user starts no earlier than an earlier one ends.
pub proof fn lemma_first_id_monotone(total: int, vus: int, a: int, b: int)
    requires
        total >= 0,
        vus > 0,
        0 <= a < b,
    ensures
        first_id_of(total, vus, a) + share_of(total, vus, a) <= first_id_of(total, vus, b),
    decreases b - a,
{
    lemma_first_id_step(total, vus, a);
    if a + 1 < b {
        lemma_first_id_monotone(total, vus, a + 1, b);
        lemma_share_bounds(total, vus, a + 1);
    }
}

/// Task number `id` lies in the range of virtual user `vu`.
pub open spec fn owns(total: int, vus: int, vu: int, id: int) -> bool {
    &&& 0 <= vu < vus
    &&& first_id_of(total, vus, vu) <= id < first_id_of(total, vus, vu) + share_of(total, vus, vu)
}

/// No task number lies in the ranges of two virtual users.
pub proof fn law_owner_unique(total: int, vus: int, a: int, b: int, id: int)
    requires
        total >= 0,
        owns(total, vus, a, id),
        owns(total, vus, b, id),
    ensures
        a == b,
{
    if a < b {
        lemma_first_id_monotone(total, vus, a, b);
    } else if b < a {
        lemma_first_id_monotone(total, vus, b, a);
    }
}

/// The number of tasks in `plan` that virtual user `vu` runs.
pub open spec fn count_for(plan: Seq<TaskSpec>, vu: int) -> nat
    decreases plan.len(),
{
    if plan.len() == 0 {
        0
    } else {
        count_for(plan.drop_last(), vu) + if plan.last().vu_id == vu { 1nat } else { 0nat }
    }
}

/// `plan` is the static partition of `total` tasks over `vus` virtual users:
/// the tasks are numbered from 0 in the order of the plan, and each belongs to
/// the user whose range holds its number.
pub open spec fn is_partition(plan: Seq<TaskSpec>, total: int, vus: int) -> bool {
    &&& plan.len() == total
    &&& forall|i: int|
        0 <= i < plan.len() ==> (#[trigger] plan[i]).task_id == i && owns(
            total,
            vus,
            plan[i].vu_id as int,
            i,
        )
}

/// The run-wide number of the `k`-th task of virtual user `vu_id`.
pub fn global_task_id(total: usize, vus: usize, vu_id: usize, k: usize) -> (id: usize)
    requires
        vu_id < vus,
        k < share_of(total as int, vus as int, vu_id as int),
    ensures
        id == first_id_of(total as int, vus as int, vu_id as int) + k,
        id < total,
        owns(total as int, vus as int, vu_id as int, id as int),
{
    let base: usize = total / vus;
    let extra: usize = total % vus;
    proof {
        lemma_div_mod(total as int, vus as int);
        lemma_first_id_step(total as int, vus as int, vu_id as int);
        lemma_first_id_bounds(total as int, vus as int, vu_id as int);
        lemma_first_id_bounds(total as int, vus as int, vu_id as int + 1);
        assert(0 <= vu_id * base <= total) by (nonlinear_arith)
            requires
                0 <= vu_id < vus,
                0 <= base,
                vus * base <= total,
        ;
    }
    let shift: usize = if vu_id < extra {
        vu_id
    } else {
        extra
    };
    vu_id * base + k + shift
}

/// Lays out a finite run: `min(iterations, cap)` tasks, numbered from 0 and
/// dealt out to the virtual users in contiguous ranges whose sizes differ by
/// at most one. With no virtual user the plan is empty.
pub fn plan_finite(iterations: u64, vus: usize) -> (plan: Vec<TaskSpec>)
    ensures
        is_partition(plan@, finite_total(iterations as int, vus as int), vus as int),
        forall|vu: int|
            0 <= vu < vus ==> #[trigger] count_for(plan@, vu) == share_of(
                finite_total(iterations as int, vus as int),
                vus as int,
                vu,
            ),
        forall|a: int, b: int|
            0 <= a < vus && 0 <= b < vus ==> #[trigger] count_for(plan@, a) - #[trigger] count_for(
                plan@,
                b,
            ) <= 1,
{
    let total: usize = max_tasks(Iterations::Finite(iterations), vus);
    let mut plan: Vec<TaskSpec> = Vec::new();
    if vus == 0 {
        return plan;
    }
    let ghost t = total as int;
    let ghost n = vus as int;
    proof {
        lemma_first_id_bounds(t, n, 0);
    }
    let mut vu_id: usize = 0;
    while vu_id < vus
        invariant
            vus > 0,
            t == total as int,
            n == vus as int,
            t == finite_total(iterations as int, vus as int),
            vu_id <= vus,
            plan@.len() == first_id_of(t, n, vu_id as int),
            forall|i: int|
                0 <= i < plan@.len() ==> (#[trigger] plan@[i]).task_id == i && owns(
                    t,
                    n,
                    plan@[i].vu_id as int,
                    i,
                ),
        decreases vus - vu_id,
    {
        let count: usize = vu_task_count(total, vus, vu_id);
        let mut k: usize = 0;
        while k < count
            invariant
                vus > 0,
                t == total as int,
                n == vus as int,
                vu_id < vus,
                k <= count,
                count == share_of(t, n, vu_id as int),
                plan@.len() == first_id_of(t, n, vu_id as int) + k,
                forall|i: int|
                    0 <= i < plan@.len() ==> (#[trigger] plan@[i]).task_id == i && owns(
                        t,
                        n,
                        plan@[i].vu_id as int,
                        i,
                    ),
            decreases count - k,
        {
            let id: usize = global_task_id(total, vus, vu_id, k);
            let task = TaskSpec { task_id: id, vu_id };
            plan.push(task);
            k += 1;
        }
        proof {
            lemma_first_id_step(t, n, vu_id as int);
        }
        vu_id += 1;
    }
    proof {
        lemma_first_id_bounds(t, n, n);
        law_partition_is_balanced(plan@, t, n);
    }
    plan
}

/// The tasks of one cycle of an unbounded run: one per virtual user, in the
/// order of the users, numbered on from `task_counter`.
pub open spec fn cycle_of(task_counter: int, vus: int) -> Seq<TaskSpec> {
    Seq::new(
        vus as nat,
        |v: int| (TaskSpec { task_id: (task_counter + v) as usize, vu_id: v as usize }),
    )
}

/// Lays out one cycle of an unbounded run.
pub fn spawn_cycle(task_counter: usize, vus: usize) -> (cycle: Vec<TaskSpec>)
    requires
        task_counter + vus <= usize::MAX,
    ensures
        cycle@ == cycle_of(task_counter as int, vus as int),
{
    let mut cycle: Vec<TaskSpec> = Vec::new();
    let mut vu_id: usize = 0;
    while vu_id < vus
        invariant
            task_counter + vus <= usize::MAX,
            vu_id <= vus,
            cycle@ == cycle_of(task_counter as int, vu_id as int),
        decreases vus - vu_id,
    {
        cycle.push(TaskSpec { task_id: task_counter + vu_id, vu_id });
        vu_id += 1;
        assert(cycle@ =~= cycle_of(task_counter as int, vu_id as int));
    }
    cycle
}

/// An override that spells `inf` or `infinity`, in any casing, asks for an
/// unbounded count, and a run with that count is scheduled in infinite mode.
pub proof fn law_infinity_selects_unbounded(text: Seq<char>)
    requires
        names_infinity(text),
    ensures
        iterations_of(text) == Iterations::Infinite,
        mode_of(iterations_of(text)) == Mode::Infinite,
{
}

/// A run is scheduled in infinite mode exactly when its count is unbounded.
pub proof fn law_mode_by_count(iterations: Iterations)
    ensures
        mode_of(iterations) == Mode::Infinite <==> iterations == Iterations::Infinite,
{
}

/// Among the first `k` tasks of a partition, virtual user `vu` runs those
/// whose numbers lie in its range.
proof fn lemma_prefix_count(plan: Seq<TaskSpec>, total: int, vus: int, vu: int, k: int)
    requires
        total >= 0,
        vus > 0,
        0 <= vu < vus,
        is_partition(plan, total, vus),
        0 <= k <= total,
    ensures
        count_for(plan.take(k), vu) == if k <= first_id_of(total, vus, vu) {
            0
        } else if k <= first_id_of(total, vus, vu) + share_of(total, vus, vu) {
            k - first_id_of(total, vus, vu)
        } else {
            share_of(total, vus, vu)
        },
    decreases k,
{
    if k > 0 {
        lemma_prefix_count(plan, total, vus, vu, k - 1);
        assert(plan.take(k).drop_last() =~= plan.take(k - 1));
        assert(plan.take(k).last() == plan[k - 1]);
        assert(owns(total, vus, plan[k - 1].vu_id as int, k - 1));
        lemma_share_bounds(total, vus, vu);
        if owns(total, vus, vu, k - 1) {
            law_owner_unique(total, vus, vu, plan[k - 1].vu_id as int, k - 1);
        }
    } else {
        lemma_first_id_bounds(total, vus, vu);
        lemma_share_bounds(total, vus, vu);
    }
}

/// In a partition of `total` tasks over `vus` virtual users, each user runs
/// `floor(total / vus)` tasks, the first `total mod vus` users one more: the
/// counts of any two users differ by at most one.
pub proof fn law_partition_is_balanced(plan: Seq<TaskSpec>, total: int, vus: int)
    requires
        total >= 0,
        vus > 0,
        is_partition(plan, total, vus),
    ensures
        forall|vu: int| 0 <= vu < vus ==> #[trigger] count_for(plan, vu) == share_of(total, vus, vu),
        forall|a: int, b: int|
            0 <= a < vus && 0 <= b < vus ==> #[trigger] count_for(plan, a) - #[trigger] count_for(
                plan,
                b,
            ) <= 1,
{
    assert forall|vu: int| 0 <= vu < vus implies #[trigger] count_for(plan, vu) == share_of(
        total,
        vus,
        vu,
    ) by {
        lemma_prefix_count(plan, total, vus, vu, total);
        assert(plan.take(total) =~= plan);
        lemma_first_id_step(total, vus, vu);
        lemma_first_id_bounds(total, vus, vu + 1);
    }
    assert forall|a: int, b: int| 0 <= a < vus && 0 <= b < vus implies #[trigger] count_for(
        plan,
        a,
    ) - #[trigger] count_for(plan, b) <= 1 by {
        law_shares_balanced(total, vus, a, b);
    }
}

} // verus!
