//! Bounded work queue: the state machine of a concurrency-limited,
//! fail-fast executor of independent fallible operations.
//!
//! The queue itself performs no operation: the caller registers operations
//! with [`ParallelFallibleWorkQueue::enqueue`], starts one whenever a
//! concurrency permit is free ([`ParallelFallibleWorkQueue::start_one`]),
//! reports each completion back, and finally collects the outcome with
//! [`ParallelFallibleWorkQueue::join`]. The contracts pin down the two
//! guarantees the design relies on: never more than `concurrency_limit`
//! operations are in flight at once, and the first reported failure is the
//! one surfaced by `join` — operations still pending or in flight at that
//! point are abandoned, not awaited and not cancelled.

use vstd::prelude::*;

verus! {

/// A failed upstream fetch, carrying its human-readable description.
#[derive(Debug)]
pub struct FetchError {
    pub message: String,
}

impl Clone for FetchError {
    fn clone(&self) -> (r: Self)
        ensures
            r == *self,
    {
        FetchError { message: self.message.clone() }
    }
}

/// State machine of a bounded-concurrency, fail-fast batch of fallible
/// operations producing values of type `T`.
pub struct ParallelFallibleWorkQueue<T> {
    description: String,
    concurrency_limit: usize,
    pending: usize,
    in_flight: usize,
    results: Vec<T>,
    failure: Option<FetchError>,
}

impl<T> ParallelFallibleWorkQueue<T> {
    /// The fixed concurrency ceiling the queue was created with.
    pub closed spec fn spec_limit(self) -> usize {
        self.concurrency_limit
    }

    /// Operations registered but not yet started.
    pub closed spec fn spec_pending(self) -> usize {
        self.pending
    }

    /// Operations started and not yet reported complete.
    pub closed spec fn spec_in_flight(self) -> usize {
        self.in_flight
    }

    /// Values of the successful completions reported so far, in the order
    /// they were reported.
    pub closed spec fn spec_results(self) -> Seq<T> {
        self.results@
    }

    /// The first reported failure, if any.
    pub closed spec fn spec_failure(self) -> Option<FetchError> {
        self.failure
    }

    /// The progress label the queue was created with.
    pub closed spec fn spec_description(self) -> Seq<char> {
        self.description@
    }

    /// Well-formedness: the ceiling is at least one and the number of
    /// operations in flight never exceeds it.
    pub closed spec fn wf(self) -> bool {
        &&& self.concurrency_limit >= 1
        &&& self.in_flight <= self.concurrency_limit
    }

    /// A fresh queue: nothing registered, nothing running, no failure.
    pub fn new(description: String, concurrency_limit: usize) -> (q: Self)
        requires
            concurrency_limit >= 1,
        ensures
            q.wf(),
            q.spec_limit() == concurrency_limit,
            q.spec_pending() == 0,
            q.spec_in_flight() == 0,
            q.spec_results() == Seq::<T>::empty(),
            q.spec_failure() is None,
            q.spec_description() == description@,
    {
        ParallelFallibleWorkQueue {
            description,
            concurrency_limit,
            pending: 0,
            in_flight: 0,
            results: Vec::new(),
            failure: None,
        }
    }

    /// Register one more operation. Nothing starts running here: the
    /// operation merely joins the pending pool.
    pub fn enqueue(&mut self)
        requires
            old(self).wf(),
            old(self).spec_pending() < usize::MAX,
        ensures
            final(self).wf(),
            final(self).spec_pending() == old(self).spec_pending() + 1,
            final(self).spec_limit() == old(self).spec_limit(),
            final(self).spec_in_flight() == old(self).spec_in_flight(),
            final(self).spec_results() == old(self).spec_results(),
            final(self).spec_failure() == old(self).spec_failure(),
            final(self).spec_description() == old(self).spec_description(),
    {
        self.pending = self.pending + 1;
    }

    /// Whether a pending operation may be started now: one must be
    /// registered and a concurrency permit must be free.
    pub fn can_start(&self) -> (r: bool)
        ensures
            r == (self.spec_pending() > 0 && self.spec_in_flight() < self.spec_limit()),
    {
        self.pending > 0 && self.in_flight < self.concurrency_limit
    }

    /// Move one pending operation into flight. Demands a free permit, so a
    /// well-formed queue can never exceed its concurrency ceiling.
    pub fn start_one(&mut self)
        requires
            old(self).wf(),
            old(self).spec_pending() > 0,
            old(self).spec_in_flight() < old(self).spec_limit(),
        ensures
            final(self).wf(),
            final(self).spec_pending() == old(self).spec_pending() - 1,
            final(self).spec_in_flight() == old(self).spec_in_flight() + 1,
            final(self).spec_limit() == old(self).spec_limit(),
            final(self).spec_results() == old(self).spec_results(),
            final(self).spec_failure() == old(self).spec_failure(),
            final(self).spec_description() == old(self).spec_description(),
    {
        self.pending = self.pending - 1;
        self.in_flight = self.in_flight + 1;
    }

    /// Report that an in-flight operation completed successfully with
    /// `value`. The value is collected even after a failure was reported;
    /// `join` discards it in that case.
    pub fn complete_success(&mut self, value: T)
        requires
            old(self).wf(),
            old(self).spec_in_flight() > 0,
            old(self).spec_results().len() < usize::MAX,
        ensures
            final(self).wf(),
            final(self).spec_in_flight() == old(self).spec_in_flight() - 1,
            final(self).spec_results() == old(self).spec_results().push(value),
            final(self).spec_pending() == old(self).spec_pending(),
            final(self).spec_limit() == old(self).spec_limit(),
            final(self).spec_failure() == old(self).spec_failure(),
            final(self).spec_description() == old(self).spec_description(),
    {
        self.in_flight = self.in_flight - 1;
        self.results.push(value);
    }

    /// Report that an in-flight operation failed. The first failure is
    /// kept; later ones are discarded.
    pub fn complete_failure(&mut self, error: FetchError)
        requires
            old(self).wf(),
            old(self).spec_in_flight() > 0,
        ensures
            final(self).wf(),
            final(self).spec_in_flight() == old(self).spec_in_flight() - 1,
            final(self).spec_failure() == (if old(self).spec_failure() is Some {
                old(self).spec_failure()
            } else {
                Some(error)
            }),
            final(self).spec_results() == old(self).spec_results(),
            final(self).spec_pending() == old(self).spec_pending(),
            final(self).spec_limit() == old(self).spec_limit(),
            final(self).spec_description() == old(self).spec_description(),
    {
        self.in_flight = self.in_flight - 1;
        if self.failure.is_none() {
            self.failure = Some(error);
        }
    }

    /// Whether draining should stop now: a failure has been reported, and
    /// fail-fast abandons whatever is still pending or in flight.
    pub fn should_abort(&self) -> (r: bool)
        ensures
            r == (self.spec_failure() is Some),
    {
        self.failure.is_some()
    }

    /// Operations registered and not yet started.
    pub fn pending(&self) -> (r: usize)
        ensures
            r == self.spec_pending(),
    {
        self.pending
    }

    /// Operations started and not yet reported complete.
    pub fn in_flight(&self) -> (r: usize)
        ensures
            r == self.spec_in_flight(),
    {
        self.in_flight
    }

    /// The outcome of the batch. Callable once every operation has been
    /// accounted for — or as soon as a failure was reported, in which case
    /// unfinished operations are abandoned. Returns the collected values
    /// if and only if no operation failed; otherwise returns the first
    /// reported failure.
    pub fn join(self) -> (r: Result<Vec<T>, FetchError>)
        requires
            self.wf(),
            self.spec_failure() is Some || (self.spec_pending() == 0 && self.spec_in_flight()
                == 0),
        ensures
            match self.spec_failure() {
                Some(e) => r == Result::<Vec<T>, FetchError>::Err(e),
                None => {
                    &&& r is Ok
                    &&& r->Ok_0@ == self.spec_results()
                },
            },
    {
        match self.failure {
            Some(e) => Err(e),
            None => Ok(self.results),
        }
    }
}

/// Law: a well-formed queue never has more operations in flight than its
/// concurrency limit, whatever sequence of transitions produced it.
pub proof fn lemma_in_flight_bounded<T>(q: ParallelFallibleWorkQueue<T>)
    requires
        q.wf(),
    ensures
        q.spec_in_flight() <= q.spec_limit(),
{
}

} // verus!
