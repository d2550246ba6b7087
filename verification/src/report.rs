//! The verification scan over a collected result set, and the report that a
//! benchmark invocation returns.

use vstd::prelude::*;

verus! {

/// The expected output of the task with index `i`: the square of the index.
pub open spec fn spec_square(i: int) -> int {
    i * i
}

/// Number of slots among the first `n` of `results` whose stored value
/// differs from the square of the slot's index.
pub open spec fn mismatches_up_to(results: Seq<usize>, n: int) -> int
    decreases n,
{
    if n <= 0 {
        0
    } else {
        mismatches_up_to(results, n - 1) + if results[n - 1] == spec_square(n - 1) {
            0int
        } else {
            1int
        }
    }
}

/// Number of slots of `results` that fail verification against the expected
/// square of their index.
pub open spec fn mismatch_count(results: Seq<usize>) -> int {
    mismatches_up_to(results, results.len() as int)
}

proof fn lemma_mismatches_up_to_bound(results: Seq<usize>, n: int)
    requires
        0 <= n,
    ensures
        0 <= mismatches_up_to(results, n) <= n,
    decreases n,
{
    if n > 0 {
        lemma_mismatches_up_to_bound(results, n - 1);
    }
}

/// The mismatch count never exceeds the number of slots.
pub proof fn lemma_mismatch_count_bound(results: Seq<usize>)
    ensures
        0 <= mismatch_count(results) <= results.len(),
{
    lemma_mismatches_up_to_bound(results, results.len() as int);
}

proof fn lemma_correct_up_to(results: Seq<usize>, n: int)
    requires
        0 <= n <= results.len(),
        forall|i: int| 0 <= i < results.len() ==> results[i] == spec_square(i),
    ensures
        mismatches_up_to(results, n) == 0,
    decreases n,
{
    if n > 0 {
        lemma_correct_up_to(results, n - 1);
    }
}

proof fn lemma_zero_up_to_correct(results: Seq<usize>, n: int)
    requires
        0 <= n,
        mismatches_up_to(results, n) == 0,
    ensures
        forall|i: int| 0 <= i < n ==> results[i] == spec_square(i),
    decreases n,
{
    if n > 0 {
        lemma_mismatches_up_to_bound(results, n - 1);
        lemma_zero_up_to_correct(results, n - 1);
    }
}

/// The verification scan reports no error exactly when every slot holds the
/// square of its own index: mismatches are counted, never missed and never
/// double-counted.
pub proof fn lemma_no_mismatches_iff_correct(results: Seq<usize>)
    ensures
        mismatch_count(results) == 0 <==> (forall|i: int|
            0 <= i < results.len() ==> results[i] == spec_square(i)),
{
    if forall|i: int| 0 <= i < results.len() ==> results[i] == spec_square(i) {
        lemma_correct_up_to(results, results.len() as int);
    }
    if mismatch_count(results) == 0 {
        lemma_zero_up_to_correct(results, results.len() as int);
    }
}

/// Scan a collected result set once and count the slots whose value is not
/// the square of the slot's index.
pub fn count_errors(results: &Vec<usize>) -> (errors: usize)
    ensures
        errors == mismatch_count(results@),
{
    let n = results.len();
    let mut errors: usize = 0;
    let mut i: usize = 0;
    while i < n
        invariant
            i <= n,
            n == results@.len(),
            errors == mismatches_up_to(results@, i as int),
            errors <= i,
        decreases n - i,
    {
        let stored = results[i];
        let matches_expected = match i.checked_mul(i) {
            Some(expected) => stored == expected,
            None => false,
        };
        if !matches_expected {
            errors = errors + 1;
        }
        i = i + 1;
    }
    errors
}

/// The only fatal condition: a task could not be scheduled, or aborted before
/// producing its result. Mismatched results are never fatal; they are counted
/// in the report instead.
#[derive(Clone, Copy, Debug, PartialEq, Eq, Structural)]
pub enum BenchmarkError {
    TaskExecutionFailure,
}

/// The immutable outcome of one benchmark invocation at one scale.
#[derive(Clone, Copy, Debug, PartialEq, Eq, Structural)]
pub struct BenchmarkReport {
    /// How many tasks were spawned, joined and verified.
    pub task_count: usize,
    /// Wall-clock time from first submission through the verification scan.
    pub elapsed_nanos: u128,
    /// Number of tasks whose result failed verification.
    pub error_count: usize,
    /// Elapsed wall-clock time divided evenly over the tasks.
    pub per_operation_nanos: u128,
}

impl BenchmarkReport {
    /// A report is well formed when it covers at least one task, counts no
    /// more errors than tasks, and derives its per-operation time from the
    /// elapsed time.
    pub open spec fn wf(self) -> bool {
        &&& self.task_count > 0
        &&& self.error_count <= self.task_count
        &&& self.per_operation_nanos == self.elapsed_nanos / (self.task_count as u128)
    }

    /// Build a report; a positive task count keeps the per-operation division
    /// well defined.
    pub fn new(task_count: usize, elapsed_nanos: u128, error_count: usize) -> (report:
        BenchmarkReport)
        requires
            0 < task_count,
            error_count <= task_count,
        ensures
            report.task_count == task_count,
            report.elapsed_nanos == elapsed_nanos,
            report.error_count == error_count,
            report.per_operation_nanos == elapsed_nanos / (task_count as u128),
            report.wf(),
    {
        BenchmarkReport {
            task_count,
            elapsed_nanos,
            error_count,
            per_operation_nanos: elapsed_nanos / (task_count as u128),
        }
    }

    /// The pass indicator that a rendered report shows: true exactly when no
    /// result failed verification.
    pub fn passed(&self) -> (r: bool)
        ensures
            r == (self.error_count == 0),
    {
        self.error_count == 0
    }

    /// Elapsed wall-clock time in whole milliseconds, for rendering.
    pub fn elapsed_millis(&self) -> (r: u128)
        ensures
            r == self.elapsed_nanos / 1_000_000,
    {
        self.elapsed_nanos / 1_000_000
    }

    /// Per-operation time in whole microseconds, for rendering.
    pub fn per_operation_micros(&self) -> (r: u128)
        ensures
            r == self.per_operation_nanos / 1_000,
    {
        self.per_operation_nanos / 1_000
    }
}

} // verus!
