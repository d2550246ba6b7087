use scale_bench::bench::{build_report, compute, run};
use scale_bench::report::{count_errors, BenchmarkReport};

#[test]
fn compute_squares_its_index() {
    assert_eq!(compute(0), 0);
    assert_eq!(compute(1), 1);
    assert_eq!(compute(2), 4);
    assert_eq!(compute(3), 9);
    assert_eq!(compute(1000), 1_000_000);
}

#[test]
fn compute_largest_index_that_fits() {
    // the largest index whose square still fits in a 64-bit usize
    assert_eq!(compute(4_294_967_295), 18_446_744_065_119_617_025);
}

#[test]
fn run_single_task() {
    let report = run(1).expect("single task run");
    assert_eq!(report.task_count, 1);
    assert_eq!(report.error_count, 0);
    assert!(report.passed());
}

#[test]
fn run_four_tasks() {
    // the four results are the squares 0, 1, 4, 9 of the indices 0..4
    let expected: Vec<usize> = vec![0, 1, 4, 9];
    for (i, want) in expected.iter().enumerate() {
        assert_eq!(compute(i), *want);
    }
    let report = run(4).expect("four task run");
    assert_eq!(report.task_count, 4);
    assert_eq!(report.error_count, 0);
    assert!(report.passed());
}

#[test]
fn repeated_runs_always_verify() {
    // timings may differ between invocations; correctness may not
    let first = run(3).expect("first run");
    let second = run(3).expect("second run");
    assert_eq!(first.error_count, 0);
    assert_eq!(second.error_count, 0);
    assert_eq!(first.task_count, second.task_count);
}

#[test]
fn run_ten_thousand_tasks() {
    let report = run(10_000).expect("ten thousand task run");
    assert_eq!(report.task_count, 10_000);
    assert_eq!(report.error_count, 0);
    assert!(report.passed());
}

#[test]
fn run_hundred_thousand_tasks() {
    let report = run(100_000).expect("hundred thousand task run");
    assert_eq!(report.task_count, 100_000);
    assert_eq!(report.error_count, 0);
    assert!(report.passed());
}

#[test]
fn fault_in_one_slot_is_counted_once() {
    // slot 2 holds a wrong value; every other slot verifies
    let faulty: Vec<usize> = vec![0, 1, 999, 9];
    assert_eq!(count_errors(&faulty), 1);
    let report = build_report(4, &faulty, 1_000);
    assert_eq!(report.task_count, 4);
    assert_eq!(report.error_count, 1);
    assert!(!report.passed());
}

#[test]
fn correct_slots_report_no_error() {
    let correct: Vec<usize> = vec![0, 1, 4, 9];
    assert_eq!(count_errors(&correct), 0);
    let report = build_report(4, &correct, 1_000);
    assert_eq!(report.error_count, 0);
    assert!(report.passed());
}

#[test]
fn count_errors_on_empty_result_set() {
    let empty: Vec<usize> = vec![];
    assert_eq!(count_errors(&empty), 0);
}

#[test]
fn count_errors_every_slot_wrong() {
    let wrong: Vec<usize> = vec![7, 7, 7];
    assert_eq!(count_errors(&wrong), 3);
}

#[test]
fn per_operation_time_divides_elapsed() {
    let correct: Vec<usize> = vec![0, 1, 4, 9];
    let report = build_report(4, &correct, 1_000);
    assert_eq!(report.elapsed_nanos, 1_000);
    assert_eq!(report.per_operation_nanos, 250);
}

#[test]
fn report_rendering_units() {
    let report = BenchmarkReport::new(2, 5_000_000, 0);
    assert_eq!(report.elapsed_millis(), 5);
    assert_eq!(report.per_operation_nanos, 2_500_000);
    assert_eq!(report.per_operation_micros(), 2_500);
}

#[test]
fn report_new_keeps_its_fields() {
    let report = BenchmarkReport::new(10, 12_345, 2);
    assert_eq!(report.task_count, 10);
    assert_eq!(report.elapsed_nanos, 12_345);
    assert_eq!(report.error_count, 2);
    assert_eq!(report.per_operation_nanos, 1_234);
    assert!(!report.passed());
}
