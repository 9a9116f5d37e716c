//! Tests of the bounded work queue state machine: the concurrency ceiling
//! is never exceeded, and the first failure wins over everything else.

use admin_account_audit::queue::FetchError;
use admin_account_audit::queue::ParallelFallibleWorkQueue;

#[test]
fn concurrency_never_exceeds_limit() {
    // n = 10 operations under a ceiling of k = 3: drive the queue to
    // saturation repeatedly and record the maximum in-flight count.
    let k: usize = 3;
    let n: usize = 10;
    let mut q: ParallelFallibleWorkQueue<usize> =
        ParallelFallibleWorkQueue::new("membership fetches".to_string(), k);
    for _ in 0..n {
        q.enqueue();
    }
    let mut max_in_flight: usize = 0;
    let mut completed: usize = 0;
    while q.pending() > 0 || q.in_flight() > 0 {
        while q.can_start() {
            q.start_one();
            if q.in_flight() > max_in_flight {
                max_in_flight = q.in_flight();
            }
        }
        assert!(q.in_flight() <= k);
        q.complete_success(completed);
        completed += 1;
    }
    assert_eq!(max_in_flight, k);
    let results = q.join().expect("no failure was reported");
    assert_eq!(results, (0..n).collect::<Vec<usize>>());
}

#[test]
fn fail_fast_returns_first_error() {
    // One operation fails immediately while others never complete: join
    // must surface that error instead of waiting for the rest.
    let mut q: ParallelFallibleWorkQueue<u64> =
        ParallelFallibleWorkQueue::new("ownership fetches".to_string(), 2);
    q.enqueue();
    q.enqueue();
    q.enqueue();
    q.start_one();
    q.start_one();
    q.complete_failure(FetchError {
        message: "membership fetch was refused upstream".to_string(),
    });
    assert!(q.should_abort());
    // One operation is still in flight and one is still pending; both are
    // abandoned by the fail-fast policy.
    assert_eq!(q.in_flight(), 1);
    assert_eq!(q.pending(), 1);
    let err = q.join().expect_err("the failure must surface");
    assert_eq!(err.message, "membership fetch was refused upstream");
}

#[test]
fn first_of_several_failures_is_kept() {
    let mut q: ParallelFallibleWorkQueue<u64> =
        ParallelFallibleWorkQueue::new("fetches".to_string(), 2);
    q.enqueue();
    q.enqueue();
    q.start_one();
    q.start_one();
    q.complete_failure(FetchError { message: "first".to_string() });
    q.complete_failure(FetchError { message: "second".to_string() });
    let err = q.join().expect_err("a failure was reported");
    assert_eq!(err.message, "first");
}

#[test]
fn join_collects_results_in_completion_order() {
    let mut q: ParallelFallibleWorkQueue<&str> =
        ParallelFallibleWorkQueue::new("fetches".to_string(), 2);
    q.enqueue();
    q.enqueue();
    q.start_one();
    q.start_one();
    // Completion order is not submission order; the queue records results
    // as they arrive.
    q.complete_success("second submitted, first completed");
    q.complete_success("first submitted, second completed");
    let results = q.join().expect("no failure was reported");
    assert_eq!(
        results,
        vec!["second submitted, first completed", "first submitted, second completed"]
    );
}

#[test]
fn success_after_failure_is_discarded_by_join() {
    let mut q: ParallelFallibleWorkQueue<u64> =
        ParallelFallibleWorkQueue::new("fetches".to_string(), 1);
    q.enqueue();
    q.enqueue();
    q.start_one();
    q.complete_failure(FetchError { message: "boom".to_string() });
    q.start_one();
    q.complete_success(42);
    let err = q.join().expect_err("the failure must surface");
    assert_eq!(err.message, "boom");
}
