//! The retry policy, the result of one connection attempt, and the error of a
//! connection that was never established.

use vstd::prelude::*;

verus! {

/// What a retry policy holds.
pub struct PolicyView {
    pub max_attempts: u32,
    pub delay_ms: u64,
}

impl PolicyView {
    /// A policy allows at least one attempt.
    pub open spec fn wf(self) -> bool {
        self.max_attempts >= 1
    }
}

/// How often a connection is attempted, and the fixed wait after a failed
/// attempt. Once built it does not change.
#[derive(Clone, Copy, Debug, PartialEq, Eq)]
pub struct RetryPolicy {
    max_attempts: u32,
    delay_ms: u64,
}

impl View for RetryPolicy {
    type V = PolicyView;

    closed spec fn view(&self) -> PolicyView {
        PolicyView { max_attempts: self.max_attempts, delay_ms: self.delay_ms }
    }
}

impl RetryPolicy {
    /// Every policy is valid.
    #[verifier::type_invariant]
    pub open spec fn inv(&self) -> bool {
        self@.wf()
    }

    /// Builds a policy of `max_attempts` attempts with `delay_ms` milliseconds
    /// after each failed one. A ceiling of zero attempts is refused.
    pub fn new(max_attempts: u32, delay_ms: u64) -> (policy: Option<RetryPolicy>)
        ensures
            max_attempts == 0 ==> policy is None,
            max_attempts >= 1 ==> (policy matches Some(p) && p@ == PolicyView {
                max_attempts,
                delay_ms,
            }),
    {
        if max_attempts == 0 {
            None
        } else {
            Some(RetryPolicy { max_attempts, delay_ms })
        }
    }

    /// The attempt ceiling, at least one.
    pub fn max_attempts(&self) -> (n: u32)
        ensures
            n == self@.max_attempts,
            n >= 1,
    {
        proof {
            use_type_invariant(self);
        }
        self.max_attempts
    }

    /// The wait after a failed attempt, in milliseconds.
    pub fn delay_ms(&self) -> (ms: u64)
        ensures
            ms == self@.delay_ms,
    {
        self.delay_ms
    }
}

/// What one connection attempt gave: a connection, or the cause of its failure.
#[derive(Debug, PartialEq, Eq)]
pub enum ConnectionAttemptResult<C, E> {
    Success(C),
    Failure(E),
}

/// Why no connection was established.
#[derive(Debug, PartialEq, Eq)]
pub enum ConnectError<E> {
    /// Every attempt that the policy allows failed; `last_cause` is the cause
    /// of the last failure.
    Exhausted { attempts: u32, last_cause: E },
}

} // verus!
