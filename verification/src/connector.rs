//! The readiness-polling connector as a machine: it is told what each attempt
//! gave and answers with what to do next.

use crate::retry::{ConnectError, ConnectionAttemptResult, PolicyView, RetryPolicy};
use vstd::prelude::*;

verus! {

/// The state of a polling run before an attempt: the policy, and how many
/// attempts have failed.
pub struct ConnectorView {
    pub policy: PolicyView,
    pub failures: nat,
}

/// What follows one attempt.
pub enum DirectiveView<C, E> {
    /// The attempt gave a connection: the run ends with it.
    Connected(C),
    /// The attempt failed with `cause`: wait, then attempt again from `next`.
    Retry { wait_ms: nat, cause: E, next: ConnectorView },
    /// The last allowed attempt failed: wait, then end with `error`.
    GiveUp { wait_ms: nat, error: ConnectError<E> },
}

impl ConnectorView {
    /// The state before the first attempt.
    pub open spec fn initial(policy: PolicyView) -> ConnectorView {
        ConnectorView { policy, failures: 0 }
    }

    /// The policy is valid and an attempt is still allowed.
    pub open spec fn wf(self) -> bool {
        self.policy.wf() && self.failures < self.policy.max_attempts
    }

    /// The number of the attempt about to be made, counted from one.
    pub open spec fn attempt_number(self) -> nat {
        self.failures + 1
    }

    /// What follows an attempt that gave `result`. The first success ends the
    /// run; a failure is followed by the policy's wait, and by another attempt
    /// unless it was the last that the policy allows.
    pub open spec fn step<C, E>(self, result: ConnectionAttemptResult<C, E>) -> DirectiveView<C, E> {
        match result {
            ConnectionAttemptResult::Success(connection) => DirectiveView::Connected(connection),
            ConnectionAttemptResult::Failure(cause) => if self.attempt_number()
                < self.policy.max_attempts {
                DirectiveView::Retry {
                    wait_ms: self.policy.delay_ms as nat,
                    cause,
                    next: ConnectorView { policy: self.policy, failures: self.failures + 1 },
                }
            } else {
                DirectiveView::GiveUp {
                    wait_ms: self.policy.delay_ms as nat,
                    error: ConnectError::Exhausted {
                        attempts: self.attempt_number() as u32,
                        last_cause: cause,
                    },
                }
            },
        }
    }
}

/// A polling run between two attempts.
#[derive(Debug)]
pub struct Connector {
    policy: RetryPolicy,
    failures: u32,
}

impl View for Connector {
    type V = ConnectorView;

    closed spec fn view(&self) -> ConnectorView {
        ConnectorView { policy: self.policy@, failures: self.failures as nat }
    }
}

/// What the caller is to do after an attempt.
#[derive(Debug)]
pub enum Directive<C, E> {
    /// Use the connection.
    Connected(C),
    /// The attempt failed with `cause`: wait `wait_ms` milliseconds, then
    /// attempt again and tell `connector`.
    Retry { wait_ms: u64, cause: E, connector: Connector },
    /// Wait `wait_ms` milliseconds, then fail with `error`.
    GiveUp { wait_ms: u64, error: ConnectError<E> },
}

impl<C, E> View for Directive<C, E> {
    type V = DirectiveView<C, E>;

    open spec fn view(&self) -> DirectiveView<C, E> {
        match self {
            Directive::Connected(connection) => DirectiveView::Connected(*connection),
            Directive::Retry { wait_ms, cause, connector } => DirectiveView::Retry {
                wait_ms: *wait_ms as nat,
                cause: *cause,
                next: connector@,
            },
            Directive::GiveUp { wait_ms, error } => DirectiveView::GiveUp {
                wait_ms: *wait_ms as nat,
                error: *error,
            },
        }
    }
}

impl Connector {
    /// Every connector has a valid policy and an attempt left to make.
    #[verifier::type_invariant]
    pub open spec fn inv(&self) -> bool {
        self@.wf()
    }

    /// A run under `policy` in which no attempt was made yet.
    pub fn new(policy: RetryPolicy) -> (connector: Connector)
        ensures
            connector@ == ConnectorView::initial(policy@),
            connector@.wf(),
    {
        proof {
            use_type_invariant(&policy);
        }
        Connector { policy, failures: 0 }
    }

    /// The policy of the run.
    pub fn policy(&self) -> (policy: RetryPolicy)
        ensures
            policy@ == self@.policy,
    {
        self.policy
    }

    /// The number of the attempt to make next, counted from one; never above
    /// the policy's ceiling.
    pub fn attempt_number(&self) -> (n: u32)
        ensures
            n == self@.attempt_number(),
            1 <= n <= self@.policy.max_attempts,
    {
        proof {
            use_type_invariant(self);
        }
        self.failures + 1
    }

    /// Takes what the attempt gave and says what to do next.
    pub fn record<C, E>(self, result: ConnectionAttemptResult<C, E>) -> (directive: Directive<C, E>)
        ensures
            directive@ == self@.step(result),
    {
        proof {
            use_type_invariant(&self);
        }
        match result {
            ConnectionAttemptResult::Success(connection) => Directive::Connected(connection),
            ConnectionAttemptResult::Failure(cause) => {
                let wait_ms: u64 = self.policy.delay_ms();
                let made: u32 = self.failures + 1;
                if made < self.policy.max_attempts() {
                    Directive::Retry {
                        wait_ms,
                        cause,
                        connector: Connector { policy: self.policy, failures: made },
                    }
                } else {
                    Directive::GiveUp {
                        wait_ms,
                        error: ConnectError::Exhausted { attempts: made, last_cause: cause },
                    }
                }
            },
        }
    }
}

} // verus!
