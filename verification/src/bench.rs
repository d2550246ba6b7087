//! The scaled task-spawn-and-join benchmark: spawn `task_count` independent
//! tasks, join them all, verify every result, and report timing.

use crate::report::{
    lemma_mismatch_count_bound, lemma_no_mismatches_iff_correct, count_errors, mismatch_count,
    spec_square, BenchmarkError, BenchmarkReport,
};
use crate::tasks::{
    duration_as_nanos, instant_elapsed, instant_now, join_task, runtime_new, spawn_square,
    task_output,
};
use vstd::prelude::*;

verus! {

/// The pure computation that each task performs: the square of its own index.
pub fn compute(n: usize) -> (r: usize)
    requires
        n * n <= usize::MAX,
    ensures
        r == n * n,
{
    n * n
}

proof fn lemma_square_monotonic(a: int, b: int)
    requires
        0 <= a <= b,
    ensures
        a * a <= b * b,
{
    assert(a * a <= b * b) by (nonlinear_arith)
        requires
            0 <= a <= b,
    ;
}

/// The verification and report phase over an already collected result set:
/// scan it once, count every mismatch, and build the report.
pub fn build_report(task_count: usize, results: &Vec<usize>, elapsed_nanos: u128) -> (report:
    BenchmarkReport)
    requires
        0 < task_count,
        results@.len() == task_count,
    ensures
        report.task_count == task_count,
        report.elapsed_nanos == elapsed_nanos,
        report.error_count == mismatch_count(results@),
        report.per_operation_nanos == elapsed_nanos / (task_count as u128),
        report.wf(),
{
    let errors = count_errors(results);
    proof {
        lemma_mismatch_count_bound(results@);
    }
    BenchmarkReport::new(task_count, elapsed_nanos, errors)
}

/// One benchmark invocation at one scale: record the start timestamp, spawn
/// `task_count` independent tasks in index order, join them all, verify every
/// collected result, record the end timestamp, and report.
///
/// Timings differ from one invocation to the next, but the correctness of the
/// results does not: every successful invocation reports a zero error count
/// and the task count it was given. A task that cannot be scheduled or that
/// aborts before producing its result fails the whole invocation.
pub fn run(task_count: usize) -> (r: Result<BenchmarkReport, BenchmarkError>)
    requires
        0 < task_count,
        (task_count - 1) * (task_count - 1) <= usize::MAX,
    ensures
        r matches Ok(report) ==> {
            &&& report.task_count == task_count
            &&& report.error_count == 0
            &&& report.per_operation_nanos == report.elapsed_nanos / (task_count as u128)
            &&& report.wf()
        },
        r matches Err(e) ==> e == BenchmarkError::TaskExecutionFailure,
{
    let rt = match runtime_new() {
        Some(rt) => rt,
        None => {
            return Err(BenchmarkError::TaskExecutionFailure);
        },
    };
    let start = instant_now();

    let mut handles: Vec<tokio::task::JoinHandle<usize>> = Vec::with_capacity(task_count);
    let mut i: usize = 0;
    while i < task_count
        invariant
            i <= task_count,
            (task_count - 1) * (task_count - 1) <= usize::MAX,
            handles@.len() == i,
            forall|j: int| 0 <= j < i ==> task_output(#[trigger] handles@[j]) == spec_square(j),
        decreases task_count - i,
    {
        proof {
            lemma_square_monotonic(i as int, task_count - 1);
        }
        let h = spawn_square(&rt, i);
        handles.push(h);
        i = i + 1;
    }

    // Join every task. Handles are consumed from the back of the spawn-order
    // list, so the collected values come out in reverse index order first.
    let mut reversed: Vec<usize> = Vec::with_capacity(task_count);
    while handles.len() > 0
        invariant
            handles@.len() + reversed@.len() == task_count,
            forall|j: int|
                0 <= j < handles@.len() ==> task_output(#[trigger] handles@[j]) == spec_square(j),
            forall|k: int|
                0 <= k < reversed@.len() ==> #[trigger] reversed@[k] == spec_square(
                    task_count - 1 - k,
                ),
        decreases handles@.len(),
    {
        let h = handles.pop().unwrap();
        let value = match join_task(&rt, h) {
            Ok(value) => value,
            Err(_) => {
                return Err(BenchmarkError::TaskExecutionFailure);
            },
        };
        reversed.push(value);
    }

    // Restore submission order, slot `i` holding the result of task `i`.
    let mut results: Vec<usize> = Vec::with_capacity(task_count);
    while reversed.len() > 0
        invariant
            reversed@.len() + results@.len() == task_count,
            forall|k: int|
                0 <= k < reversed@.len() ==> #[trigger] reversed@[k] == spec_square(
                    task_count - 1 - k,
                ),
            forall|j: int| 0 <= j < results@.len() ==> #[trigger] results@[j] == spec_square(j),
        decreases reversed@.len(),
    {
        let value = reversed.pop().unwrap();
        results.push(value);
    }

    let errors = count_errors(&results);
    proof {
        lemma_no_mismatches_iff_correct(results@);
    }
    let elapsed = instant_elapsed(&start);
    let elapsed_nanos = duration_as_nanos(&elapsed);
    Ok(BenchmarkReport::new(task_count, elapsed_nanos, errors))
}

} // verus!
