//! Trusted boundary around the tokio runtime and the monotonic clock: the
//! spawn, join and timestamp calls that the benchmark makes.

use crate::bench::compute;
use vstd::prelude::*;

verus! {

#[verifier::external_type_specification]
#[verifier::external_body]
pub struct ExRuntime(tokio::runtime::Runtime);

#[verifier::external_type_specification]
#[verifier::external_body]
#[verifier::reject_recursive_types(T)]
pub struct ExJoinHandle<T>(tokio::task::JoinHandle<T>);

#[verifier::external_type_specification]
#[verifier::external_body]
pub struct ExJoinError(tokio::task::JoinError);

#[verifier::external_type_specification]
#[verifier::external_body]
pub struct ExInstant(std::time::Instant);

/// The value that the task behind `h` produces once it completes.
pub uninterp spec fn task_output(h: tokio::task::JoinHandle<usize>) -> usize;

/// Relies on tokio::runtime::Runtime::new: builds a multi-threaded runtime,
/// failing only when the operating system denies it the resources.
#[verifier::external_body]
pub(crate) fn runtime_new() -> (r: Option<tokio::runtime::Runtime>) {
    tokio::runtime::Runtime::new().ok()
}

/// Relies on tokio::runtime::Runtime::spawn: the spawned future is run to
/// completion by the runtime, and its handle yields the future's output —
/// here the verified square of `i`.
#[verifier::external_body]
pub(crate) fn spawn_square(rt: &tokio::runtime::Runtime, i: usize) -> (h: tokio::task::JoinHandle<
    usize,
>)
    requires
        i * i <= usize::MAX,
    ensures
        task_output(h) == i * i,
{
    rt.spawn(std::future::poll_fn(move |_| std::task::Poll::Ready(compute(i))))
}

/// Relies on tokio::runtime::Runtime::block_on and the Future impl of
/// tokio::task::JoinHandle: awaiting the handle blocks until the task has
/// finished and returns Ok with the task's output, or Err if the task
/// panicked or was aborted.
#[verifier::external_body]
pub(crate) fn join_task(rt: &tokio::runtime::Runtime, h: tokio::task::JoinHandle<usize>) -> (r:
    Result<usize, tokio::task::JoinError>)
    ensures
        r matches Ok(v) ==> v == task_output(h),
{
    rt.block_on(h)
}

/// Relies on std::time::Instant::now: a reading of the monotonic clock.
#[verifier::external_body]
pub(crate) fn instant_now() -> (t: std::time::Instant) {
    std::time::Instant::now()
}

/// Relies on std::time::Instant::elapsed: the time since `t` was taken.
#[verifier::external_body]
pub(crate) fn instant_elapsed(t: &std::time::Instant) -> (d: std::time::Duration) {
    t.elapsed()
}

/// Relies on std::time::Duration::as_nanos: the whole duration counted in
/// nanoseconds.
#[verifier::external_body]
pub(crate) fn duration_as_nanos(d: &std::time::Duration) -> (n: u128) {
    d.as_nanos()
}

} // verus!
