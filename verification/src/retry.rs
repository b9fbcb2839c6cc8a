//! The retry primitive: an operation is attempted up to a fixed number of
//! times, with a fixed wait before every attempt but the first, until it
//! succeeds. The caller makes the attempts; [`Retry`] says after each one
//! whether the operation is over.

use vstd::prelude::*;

verus! {

/// Seconds that pass between a failed attempt and the next one.
pub const RETRY_DELAY_SECS: u64 = 1;

/// Mathematical content of a [`Retry`]: the attempts allowed and those that
/// have failed so far.
pub ghost struct RetryView {
    pub max_attempts: nat,
    pub failed: nat,
}

/// Mathematical content of a [`RetryStep`].
pub ghost enum RetryStepView<T, E> {
    Finished(Result<T, E>),
    Again { next: RetryView, failure: E },
}

/// What a retried operation came to.
pub ghost struct RetryRun<T, E> {
    /// How often the operation was invoked.
    pub invocations: nat,
    /// Seconds spent waiting, all of them before an invocation.
    pub waited: nat,
    /// The first success, or the failure of the last invocation.
    pub result: Result<T, E>,
}

impl RetryView {
    /// Before the first attempt.
    pub open spec fn fresh(max_attempts: nat) -> RetryView {
        RetryView { max_attempts, failed: 0 }
    }

    /// At least one attempt is left.
    pub open spec fn well_formed(self) -> bool {
        self.failed < self.max_attempts
    }

    /// Seconds to wait before the attempt that is due: none before the
    /// first attempt, the fixed delay before every other.
    pub open spec fn delay_secs(self) -> nat {
        if self.failed == 0 {
            0
        } else {
            RETRY_DELAY_SECS as nat
        }
    }

    /// The decision after the attempt that was due returned `outcome`: a
    /// success ends the operation at once, a failure ends it when it was the
    /// last attempt allowed, and any other failure is forgotten for the
    /// result.
    pub open spec fn settle<T, E>(self, outcome: Result<T, E>) -> RetryStepView<T, E> {
        match outcome {
            Ok(value) => RetryStepView::Finished(Ok(value)),
            Err(failure) => if self.failed + 1 >= self.max_attempts {
                RetryStepView::Finished(Err(failure))
            } else {
                RetryStepView::Again {
                    next: RetryView { max_attempts: self.max_attempts, failed: self.failed + 1 },
                    failure,
                }
            },
        }
    }

    /// The whole operation from here on, where `op(i)` is what invocation
    /// number `i`, counted from 0, returns.
    pub open spec fn run<T, E>(self, op: spec_fn(nat) -> Result<T, E>) -> RetryRun<T, E>
        decreases self.max_attempts - self.failed,
    {
        match self.settle(op(self.failed)) {
            RetryStepView::Finished(result) => RetryRun {
                invocations: self.failed + 1,
                waited: self.delay_secs(),
                result,
            },
            RetryStepView::Again { next, .. } => {
                let rest = next.run(op);
                RetryRun {
                    invocations: rest.invocations,
                    waited: self.delay_secs() + rest.waited,
                    result: rest.result,
                }
            },
        }
    }
}

/// Progress of one retried operation.
#[derive(Debug)]
pub struct Retry {
    max_attempts: u32,
    failed: u32,
}

/// What follows an attempt.
#[derive(Debug)]
pub enum RetryStep<T, E> {
    /// The operation is over, with the first success or the last failure.
    Finished(Result<T, E>),
    /// The attempt failed with `failure`; wait, then attempt again and hand
    /// the outcome to `next`.
    Again { next: Retry, failure: E },
}

impl View for Retry {
    type V = RetryView;

    closed spec fn view(&self) -> RetryView {
        RetryView { max_attempts: self.max_attempts as nat, failed: self.failed as nat }
    }
}

impl<T, E> View for RetryStep<T, E> {
    type V = RetryStepView<T, E>;

    open spec fn view(&self) -> RetryStepView<T, E> {
        match self {
            RetryStep::Finished(result) => RetryStepView::Finished(*result),
            RetryStep::Again { next, failure } => RetryStepView::Again {
                next: next@,
                failure: *failure,
            },
        }
    }
}

impl Retry {
    #[verifier::type_invariant]
    spec fn attempts_left(self) -> bool {
        self.failed < self.max_attempts
    }

    /// An operation that may be attempted `max_attempts` times.
    pub fn new(max_attempts: u32) -> (retry: Retry)
        requires
            max_attempts >= 1,
        ensures
            retry@ == RetryView::fresh(max_attempts as nat),
    {
        Retry { max_attempts, failed: 0 }
    }

    /// The number of attempts allowed.
    pub fn max_attempts(&self) -> (count: u32)
        ensures
            count == self@.max_attempts,
            self@.well_formed(),
    {
        proof {
            use_type_invariant(self);
        }
        self.max_attempts
    }

    /// The number of the attempt that is due, counted from 1.
    pub fn attempt(&self) -> (number: u32)
        ensures
            number == self@.failed + 1,
            self@.well_formed(),
    {
        proof {
            use_type_invariant(self);
        }
        self.failed + 1
    }

    /// Seconds to wait before the attempt that is due.
    pub fn delay_secs(&self) -> (secs: u64)
        ensures
            secs == self@.delay_secs(),
    {
        if self.failed == 0 {
            0
        } else {
            RETRY_DELAY_SECS
        }
    }

    /// Takes the outcome of the attempt that was due and says what follows.
    pub fn settle<T, E>(self, outcome: Result<T, E>) -> (step: RetryStep<T, E>)
        ensures
            step@ == self@.settle(outcome),
    {
        proof {
            use_type_invariant(&self);
        }
        match outcome {
            Ok(value) => RetryStep::Finished(Ok(value)),
            Err(failure) => if self.failed + 1 >= self.max_attempts {
                RetryStep::Finished(Err(failure))
            } else {
                RetryStep::Again {
                    next: Retry { max_attempts: self.max_attempts, failed: self.failed + 1 },
                    failure,
                }
            },
        }
    }
}

/// From any point of an operation whose remaining attempts all fail, every
/// attempt that is left is made, and the failure of the last one is returned.
proof fn lemma_run_to_exhaustion<T, E>(state: RetryView, op: spec_fn(nat) -> Result<T, E>)
    requires
        state.well_formed(),
        forall|i: nat| state.failed <= i < state.max_attempts ==> (#[trigger] op(i)) is Err,
    ensures
        state.run(op).invocations == state.max_attempts,
        state.run(op).result == op((state.max_attempts - 1) as nat),
        state.run(op).waited == state.delay_secs() + (state.max_attempts - state.failed - 1)
            * RETRY_DELAY_SECS,
    decreases state.max_attempts - state.failed,
{
    if state.failed + 1 < state.max_attempts {
        let next = RetryView { max_attempts: state.max_attempts, failed: state.failed + 1 };
        lemma_run_to_exhaustion(next, op);
    }
}

/// From any point of an operation whose attempts fail until invocation
/// `last` succeeds, no attempt is made after that one, and its success is
/// returned.
proof fn lemma_run_to_success<T, E>(state: RetryView, last: nat, op: spec_fn(nat) -> Result<T, E>)
    requires
        state.failed <= last < state.max_attempts,
        forall|i: nat| state.failed <= i < last ==> (#[trigger] op(i)) is Err,
        op(last) is Ok,
    ensures
        state.run(op).invocations == last + 1,
        state.run(op).result == op(last),
        state.run(op).waited == state.delay_secs() + (last - state.failed) * RETRY_DELAY_SECS,
    decreases last - state.failed,
{
    if state.failed < last {
        let next = RetryView { max_attempts: state.max_attempts, failed: state.failed + 1 };
        lemma_run_to_success(next, last, op);
    }
}

/// Exhaustion. An operation that fails whenever it is invoked is invoked
/// exactly `max_attempts` times, and what comes back is the failure of the
/// last of these invocations. It waits the fixed delay between two
/// invocations and at no other time.
pub proof fn retry_exhaustion<T, E>(max_attempts: nat, op: spec_fn(nat) -> Result<T, E>)
    requires
        max_attempts >= 1,
        forall|i: nat| (#[trigger] op(i)) is Err,
    ensures
        RetryView::fresh(max_attempts).run(op).invocations == max_attempts,
        RetryView::fresh(max_attempts).run(op).result == op((max_attempts - 1) as nat),
        RetryView::fresh(max_attempts).run(op).waited == (max_attempts - 1) * RETRY_DELAY_SECS,
{
    lemma_run_to_exhaustion(RetryView::fresh(max_attempts), op);
}

/// Short circuit. An operation that fails until its invocation number
/// `attempt`, counted from 1 and within the attempts allowed, succeeds is
/// invoked exactly `attempt` times, and what comes back is that success. It
/// waits the fixed delay between two invocations and at no other time, so not
/// after the last one.
pub proof fn retry_short_circuit<T, E>(
    max_attempts: nat,
    attempt: nat,
    op: spec_fn(nat) -> Result<T, E>,
)
    requires
        1 <= attempt <= max_attempts,
        forall|i: nat| i + 1 < attempt ==> (#[trigger] op(i)) is Err,
        op((attempt - 1) as nat) is Ok,
    ensures
        RetryView::fresh(max_attempts).run(op).invocations == attempt,
        RetryView::fresh(max_attempts).run(op).result == op((attempt - 1) as nat),
        RetryView::fresh(max_attempts).run(op).waited == (attempt - 1) * RETRY_DELAY_SECS,
{
    lemma_run_to_success(RetryView::fresh(max_attempts), (attempt - 1) as nat, op);
}

} // verus!
