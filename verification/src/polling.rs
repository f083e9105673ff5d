//! A whole polling run: what it comes to for given attempt outcomes, the laws
//! of that, and the run as one blocking call.

use crate::connector::{Connector, ConnectorView, Directive, DirectiveView};
use crate::retry::{ConnectError, ConnectionAttemptResult, PolicyView, RetryPolicy};
use vstd::prelude::*;

verus! {

/// How a polling run ended: with a connection or an error, after how many
/// attempts, and after how many milliseconds of waiting in all.
pub struct Settled<C, E> {
    pub result: Result<C, ConnectError<E>>,
    pub attempts: nat,
    pub waited_ms: nat,
}

/// The end of the run that starts in `state` when the attempts give `outcomes`
/// in turn; `None` while the outcomes do not settle it. Outcomes after the end
/// are not looked at: no attempt is made for them.
pub open spec fn run<C, E>(state: ConnectorView, outcomes: Seq<ConnectionAttemptResult<C, E>>) -> Option<
    Settled<C, E>,
>
    decreases outcomes.len(),
{
    if outcomes.len() == 0 {
        None
    } else {
        match state.step(outcomes[0]) {
            DirectiveView::Connected(connection) => Some(
                Settled { result: Ok(connection), attempts: 1, waited_ms: 0 },
            ),
            DirectiveView::Retry { wait_ms, cause, next } => match run(next, outcomes.drop_first()) {
                Some(end) => Some(
                    Settled {
                        result: end.result,
                        attempts: end.attempts + 1,
                        waited_ms: end.waited_ms + wait_ms,
                    },
                ),
                None => None,
            },
            DirectiveView::GiveUp { wait_ms, error } => Some(
                Settled { result: Err(error), attempts: 1, waited_ms: wait_ms },
            ),
        }
    }
}

/// From any state of a run: when the `k`-th attempt from here is the first to
/// succeed, with `k` within what is left of the policy's ceiling, the run ends
/// with that connection after exactly `k` more attempts and `k - 1` waits of
/// the policy's delay.
pub proof fn lemma_first_success_wins<C, E>(
    state: ConnectorView,
    outcomes: Seq<ConnectionAttemptResult<C, E>>,
    k: nat,
)
    requires
        state.wf(),
        1 <= k <= outcomes.len(),
        state.failures + k <= state.policy.max_attempts,
        forall|i: int| 0 <= i < k - 1 ==> #[trigger] outcomes[i] is Failure,
        outcomes[k - 1] is Success,
    ensures
        run(state, outcomes) == Some(
            Settled::<C, E> {
                result: Ok(outcomes[k - 1]->Success_0),
                attempts: k,
                waited_ms: ((k - 1) * state.policy.delay_ms) as nat,
            },
        ),
    decreases k,
{
    let delay = state.policy.delay_ms as int;
    if k == 1 {
        assert(0 * delay == 0);
    } else {
        let next = ConnectorView { policy: state.policy, failures: state.failures + 1 };
        let rest = outcomes.drop_first();
        assert(outcomes[0] is Failure);
        assert(state.step(outcomes[0]) == DirectiveView::<C, E>::Retry {
            wait_ms: state.policy.delay_ms as nat,
            cause: outcomes[0]->Failure_0,
            next,
        });
        assert forall|i: int| 0 <= i < k - 2 implies #[trigger] rest[i] is Failure by {
            assert(rest[i] == outcomes[i + 1]);
        }
        assert(rest[k - 2] == outcomes[k - 1]);
        lemma_first_success_wins(next, rest, (k - 1) as nat);
        assert((k - 2) * delay + delay == (k - 1) * delay) by (nonlinear_arith);
        assert((k - 2) * delay >= 0) by (nonlinear_arith)
            requires
                k >= 2,
                delay >= 0,
        ;
    }
}

/// From any state of a run: when every attempt fails, the run ends with
/// `Exhausted` after exactly the attempts that the policy still allows, each
/// followed by the policy's delay; the error counts all attempts of the run and
/// carries the last cause.
pub proof fn lemma_failures_exhaust<C, E>(
    state: ConnectorView,
    outcomes: Seq<ConnectionAttemptResult<C, E>>,
)
    requires
        state.wf(),
        state.policy.max_attempts - state.failures <= outcomes.len(),
        forall|i: int| 0 <= i < outcomes.len() ==> #[trigger] outcomes[i] is Failure,
    ensures
        run(state, outcomes) == Some(
            Settled::<C, E> {
                result: Err(
                    ConnectError::Exhausted {
                        attempts: state.policy.max_attempts,
                        last_cause: outcomes[state.policy.max_attempts - state.failures
                            - 1]->Failure_0,
                    },
                ),
                attempts: (state.policy.max_attempts - state.failures) as nat,
                waited_ms: ((state.policy.max_attempts - state.failures)
                    * state.policy.delay_ms) as nat,
            },
        ),
    decreases outcomes.len(),
{
    let delay = state.policy.delay_ms as int;
    let left = state.policy.max_attempts - state.failures;
    assert(outcomes[0] is Failure);
    if left == 1 {
        assert(1 * delay == delay);
    } else {
        let next = ConnectorView { policy: state.policy, failures: state.failures + 1 };
        let rest = outcomes.drop_first();
        assert(state.step(outcomes[0]) == DirectiveView::<C, E>::Retry {
            wait_ms: state.policy.delay_ms as nat,
            cause: outcomes[0]->Failure_0,
            next,
        });
        assert forall|i: int| 0 <= i < rest.len() implies #[trigger] rest[i] is Failure by {
            assert(rest[i] == outcomes[i + 1]);
        }
        assert(rest[left - 2] == outcomes[left - 1]);
        lemma_failures_exhaust(next, rest);
        assert((left - 1) * delay + delay == left * delay) by (nonlinear_arith);
        assert((left - 1) * delay >= 0) by (nonlinear_arith)
            requires
                left >= 2,
                delay >= 0,
        ;
    }
}

/// A run under `policy` whose `k`-th attempt is the first to succeed, with `k`
/// not above the policy's ceiling, ends with that connection after exactly `k`
/// attempts, having waited `k - 1` times the policy's delay in all.
pub proof fn lemma_success_on_attempt<C, E>(
    policy: PolicyView,
    outcomes: Seq<ConnectionAttemptResult<C, E>>,
    k: nat,
)
    requires
        policy.wf(),
        1 <= k <= policy.max_attempts,
        k <= outcomes.len(),
        forall|i: int| 0 <= i < k - 1 ==> #[trigger] outcomes[i] is Failure,
        outcomes[k - 1] is Success,
    ensures
        run(ConnectorView::initial(policy), outcomes) == Some(
            Settled::<C, E> {
                result: Ok(outcomes[k - 1]->Success_0),
                attempts: k,
                waited_ms: ((k - 1) * policy.delay_ms) as nat,
            },
        ),
{
    lemma_first_success_wins(ConnectorView::initial(policy), outcomes, k);
}

/// A run under `policy` in which every attempt fails ends with `Exhausted`
/// after exactly as many attempts as the policy allows, never more; each
/// failure, the last one too, is followed by the policy's delay.
pub proof fn lemma_always_failing_exhausts<C, E>(
    policy: PolicyView,
    outcomes: Seq<ConnectionAttemptResult<C, E>>,
)
    requires
        policy.wf(),
        policy.max_attempts <= outcomes.len(),
        forall|i: int| 0 <= i < outcomes.len() ==> #[trigger] outcomes[i] is Failure,
    ensures
        run(ConnectorView::initial(policy), outcomes) == Some(
            Settled::<C, E> {
                result: Err(
                    ConnectError::Exhausted {
                        attempts: policy.max_attempts,
                        last_cause: outcomes[policy.max_attempts - 1]->Failure_0,
                    },
                ),
                attempts: policy.max_attempts as nat,
                waited_ms: (policy.max_attempts * policy.delay_ms) as nat,
            },
        ),
{
    lemma_failures_exhaust(ConnectorView::initial(policy), outcomes);
}

/// No run makes more attempts than the policy still allows, and none ends
/// before its first attempt.
pub proof fn lemma_attempts_bounded<C, E>(
    state: ConnectorView,
    outcomes: Seq<ConnectionAttemptResult<C, E>>,
)
    requires
        state.wf(),
    ensures
        run(state, outcomes) matches Some(end) ==> 1 <= end.attempts <= outcomes.len()
            && state.failures + end.attempts <= state.policy.max_attempts,
    decreases outcomes.len(),
{
    if outcomes.len() > 0 {
        if let DirectiveView::Retry { wait_ms, cause, next } = state.step(outcomes[0]) {
            lemma_attempts_bounded(next, outcomes.drop_first());
        }
    }
}

/// `outcomes` accounts for `result`: each of them is something that
/// `attempt_fn` may give for `target`, and a run under `policy` on exactly these
/// outcomes, all of them, ends with `result`.
pub open spec fn accounts_for<T, C, E, A: Fn(&T) -> ConnectionAttemptResult<C, E>>(
    attempt_fn: A,
    target: &T,
    policy: PolicyView,
    outcomes: Seq<ConnectionAttemptResult<C, E>>,
    result: Result<C, ConnectError<E>>,
) -> bool {
    &&& forall|i: int|
        0 <= i < outcomes.len() ==> call_ensures(attempt_fn, (target,), #[trigger] outcomes[i])
    &&& run(ConnectorView::initial(policy), outcomes) matches Some(end)
    &&& end.result == result
    &&& end.attempts == outcomes.len()
}

/// Attempts to connect to `target` until an attempt succeeds or the policy is
/// exhausted, calling `wait_fn` with the policy's delay after each failure.
/// The first connection is returned at once; when every allowed attempt has
/// failed, the error names their number and the last cause.
pub fn connect_with_retry<T, C, E, A, W>(
    target: &T,
    attempt_fn: A,
    wait_fn: W,
    policy: RetryPolicy,
) -> (result: Result<C, ConnectError<E>>) where
    A: Fn(&T) -> ConnectionAttemptResult<C, E>,
    W: Fn(u64),

    requires
        call_requires(attempt_fn, (target,)),
        call_requires(wait_fn, (policy@.delay_ms,)),
    ensures
        exists|outcomes: Seq<ConnectionAttemptResult<C, E>>|
            accounts_for(attempt_fn, target, policy@, outcomes, result),
        result matches Ok(connection) ==> call_ensures(
            attempt_fn,
            (target,),
            ConnectionAttemptResult::<C, E>::Success(connection),
        ),
        result matches Err(ConnectError::Exhausted { attempts, last_cause }) ==> attempts
            == policy@.max_attempts && call_ensures(
            attempt_fn,
            (target,),
            ConnectionAttemptResult::<C, E>::Failure(last_cause),
        ),
{
    let mut connector = Connector::new(policy);
    let ghost mut seen: Seq<ConnectionAttemptResult<C, E>> = Seq::empty();
    loop
        invariant
            call_requires(attempt_fn, (target,)),
            call_requires(wait_fn, (policy@.delay_ms,)),
            connector@.wf(),
            connector@.policy == policy@,
            connector@.failures == seen.len(),
            forall|i: int| 0 <= i < seen.len() ==> #[trigger] seen[i] is Failure,
            forall|i: int|
                0 <= i < seen.len() ==> call_ensures(attempt_fn, (target,), #[trigger] seen[i]),
        decreases policy@.max_attempts - connector@.failures,
    {
        let outcome = attempt_fn(target);
        proof {
            seen = seen.push(outcome);
        }
        match connector.record(outcome) {
            Directive::Connected(connection) => {
                proof {
                    lemma_success_on_attempt(policy@, seen, seen.len());
                    assert(accounts_for(attempt_fn, target, policy@, seen, Ok(connection)));
                }
                return Ok(connection);
            },
            Directive::Retry { wait_ms, cause: _, connector: next } => {
                wait_fn(wait_ms);
                connector = next;
            },
            Directive::GiveUp { wait_ms, error } => {
                wait_fn(wait_ms);
                proof {
                    lemma_always_failing_exhausts(policy@, seen);
                    assert(accounts_for(attempt_fn, target, policy@, seen, Err(error)));
                }
                return Err(error);
            },
        }
    }
}

} // verus!
