//! Bounded retry of a request whose transport may fail.
//!
//! The caller sends and waits; this module decides. After each event the
//! caller reports, `step` gives the next thing to do: send, wait, hand the
//! reply on, or give up. A reply that arrives ends the retrying whatever
//! its status; only a transport that failed is tried again.

use vstd::prelude::*;
use vstd::string::*;
use crate::error::{ApiError, ApiErrorModel};

verus! {

/// How often to try and how long to wait in between.
#[derive(Debug, Clone, Copy, PartialEq, Eq, Structural)]
pub struct RetryPolicy {
    /// The number of attempts in all.
    pub retries: u32,
    /// The wait after a failed attempt, in milliseconds.
    pub backoff_ms: u64,
}

/// How far the retrying has come.
#[derive(Debug)]
pub struct RetryState {
    /// The attempts that failed so far.
    pub attempts: u32,
    /// The cause of the last failure.
    pub last_error: Option<String>,
}

/// What the caller reports. `R` is whatever a reply is to the caller.
#[derive(Debug)]
pub enum RetryEvent<R> {
    /// Nothing has happened yet.
    Start,
    /// The attempt failed in transport, for the given cause.
    Failed(String),
    /// The wait is over.
    Slept,
    /// A reply arrived.
    Responded(R),
}

/// What the caller does next.
#[derive(Debug)]
pub enum RetryAction<R> {
    /// Send the request.
    Send,
    /// Wait for so many milliseconds.
    Sleep(u64),
    /// The request is answered: here is the reply.
    Deliver(R),
    /// The request failed for good.
    GiveUp(ApiError),
}

/// What the caller does next, as a mathematical value.
pub enum RetryActionModel<R> {
    Send,
    Sleep(u64),
    Deliver(R),
    GiveUp(ApiErrorModel),
}

impl<R> View for RetryAction<R> {
    type V = RetryActionModel<R>;

    open spec fn view(&self) -> RetryActionModel<R> {
        match *self {
            RetryAction::Send => RetryActionModel::Send,
            RetryAction::Sleep(ms) => RetryActionModel::Sleep(ms),
            RetryAction::Deliver(r) => RetryActionModel::Deliver(r),
            RetryAction::GiveUp(e) => RetryActionModel::GiveUp(e@),
        }
    }
}

/// The message of a request that failed for good: it names the cause of
/// the last failure, where there was one.
pub open spec fn failure_message(last_error: Option<String>) -> Seq<char> {
    "HTTP GET failed after retries: "@ + match last_error {
        Some(cause) => cause@,
        None => Seq::empty(),
    }
}

/// The failure of a request that was given up.
pub open spec fn failure(last_error: Option<String>) -> ApiErrorModel {
    ApiErrorModel::Transport(failure_message(last_error))
}

/// The state after one more failed attempt.
pub open spec fn after_failure(state: RetryState, cause: String) -> RetryState {
    RetryState {
        attempts: if state.attempts < u32::MAX {
            (state.attempts + 1) as u32
        } else {
            state.attempts
        },
        last_error: Some(cause),
    }
}

/// What to do when an attempt is due: send while attempts are left, else
/// give up.
pub open spec fn due<R>(policy: RetryPolicy, state: RetryState) -> RetryActionModel<R> {
    if state.attempts < policy.retries {
        RetryActionModel::Send
    } else {
        RetryActionModel::GiveUp(failure(state.last_error))
    }
}

/// The state and the action that follow an event.
pub open spec fn next<R>(policy: RetryPolicy, state: RetryState, event: RetryEvent<R>) -> (
    RetryState,
    RetryActionModel<R>,
) {
    match event {
        RetryEvent::Start => (state, due(policy, state)),
        RetryEvent::Slept => (state, due(policy, state)),
        RetryEvent::Failed(cause) => (
            after_failure(state, cause),
            RetryActionModel::Sleep(policy.backoff_ms),
        ),
        RetryEvent::Responded(reply) => (state, RetryActionModel::Deliver(reply)),
    }
}

impl RetryState {
    /// The state before the first attempt.
    pub open spec fn initial() -> RetryState {
        RetryState { attempts: 0, last_error: None }
    }

    /// The state before the first attempt.
    pub fn new() -> (r: RetryState)
        ensures
            r == RetryState::initial(),
    {
        RetryState { attempts: 0, last_error: None }
    }
}

fn decide<R>(policy: &RetryPolicy, state: &RetryState) -> (r: RetryAction<R>)
    ensures
        r@ == due::<R>(*policy, *state),
{
    if state.attempts < policy.retries {
        RetryAction::Send
    } else {
        let mut message = String::from_str("HTTP GET failed after retries: ");
        match &state.last_error {
            Some(cause) => {
                message.append(cause.as_str());
            },
            None => {
                assert(message@ + Seq::<char>::empty() =~= message@);
            },
        }
        RetryAction::GiveUp(ApiError::Transport(message))
    }
}

/// Takes an event and gives the state that follows and the next action.
pub fn step<R>(policy: &RetryPolicy, state: RetryState, event: RetryEvent<R>) -> (r: (
    RetryState,
    RetryAction<R>,
))
    ensures
        (r.0, r.1@) == next(*policy, state, event),
{
    match event {
        RetryEvent::Start => {
            let action = decide(policy, &state);
            (state, action)
        },
        RetryEvent::Slept => {
            let action = decide(policy, &state);
            (state, action)
        },
        RetryEvent::Failed(cause) => {
            let attempts = if state.attempts < u32::MAX {
                state.attempts + 1
            } else {
                state.attempts
            };
            (RetryState { attempts, last_error: Some(cause) }, RetryAction::Sleep(policy.backoff_ms))
        },
        RetryEvent::Responded(reply) => (state, RetryAction::Deliver(reply)),
    }
}

/// How one attempt ends.
pub enum Attempt<R> {
    /// A reply arrived.
    Reply(R),
    /// The transport failed, for the given cause.
    Failure(String),
}

/// How the retrying ends.
pub enum Outcome<R> {
    /// With the reply that arrived.
    Delivered(R),
    /// With this failure.
    Failed(ApiErrorModel),
}

/// How the retrying ends for a caller that follows `next` from a moment at
/// which an attempt is due, when the attempts it makes end as `attempts`
/// says, in turn. Nothing where `attempts` runs out before the end.
pub open spec fn run<R>(policy: RetryPolicy, state: RetryState, attempts: Seq<Attempt<R>>) -> Option<
    Outcome<R>,
>
    decreases attempts.len(),
{
    match due::<R>(policy, state) {
        RetryActionModel::GiveUp(error) => Some(Outcome::Failed(error)),
        _ => if attempts.len() == 0 {
            None
        } else {
            match attempts[0] {
                Attempt::Reply(reply) => match next(
                    policy,
                    state,
                    RetryEvent::Responded(reply),
                ).1 {
                    RetryActionModel::Deliver(r) => Some(Outcome::Delivered(r)),
                    _ => None,
                },
                Attempt::Failure(cause) => run(
                    policy,
                    next(policy, state, RetryEvent::<R>::Failed(cause)).0,
                    attempts.drop_first(),
                ),
            }
        },
    }
}

/// The number of attempts that a run makes.
pub open spec fn sends<R>(policy: RetryPolicy, state: RetryState, attempts: Seq<Attempt<R>>) -> nat
    decreases attempts.len(),
{
    if state.attempts >= policy.retries || attempts.len() == 0 {
        0
    } else {
        match attempts[0] {
            Attempt::Reply(_) => 1,
            Attempt::Failure(cause) => 1 + sends(
                policy,
                after_failure(state, cause),
                attempts.drop_first(),
            ),
        }
    }
}

/// Whether the first `n` attempts all fail in transport.
pub open spec fn all_fail<R>(attempts: Seq<Attempt<R>>, n: int) -> bool {
    forall|i: int| 0 <= i < n ==> (#[trigger] attempts[i]) is Failure
}

/// From a state with `state.attempts` failures behind it: where the next
/// attempts fail until only one is left and that one is answered, the
/// reply is delivered, after exactly those attempts.
proof fn lemma_succeeds_on_last_attempt<R>(
    policy: RetryPolicy,
    state: RetryState,
    attempts: Seq<Attempt<R>>,
)
    requires
        state.attempts < policy.retries,
        attempts.len() >= policy.retries - state.attempts,
        all_fail(attempts, policy.retries - state.attempts - 1),
        attempts[policy.retries - state.attempts - 1] is Reply,
    ensures
        run(policy, state, attempts) == Some(
            Outcome::Delivered(attempts[policy.retries - state.attempts - 1]->Reply_0),
        ),
        sends(policy, state, attempts) == policy.retries - state.attempts,
    decreases attempts.len(),
{
    let left = policy.retries - state.attempts;
    if left > 1 {
        assert(attempts[0] is Failure);
        let cause = attempts[0]->Failure_0;
        let rest = attempts.drop_first();
        assert forall|i: int| 0 <= i < left - 2 implies (#[trigger] rest[i]) is Failure by {
            assert(rest[i] == attempts[i + 1]);
        }
        assert(rest[left - 2] == attempts[left - 1]);
        lemma_succeeds_on_last_attempt(policy, after_failure(state, cause), rest);
    }
}

/// From a state with `state.attempts` failures behind it: where every
/// attempt that is left fails, the request fails for good, under a message
/// that names the cause of the last failure, after exactly those attempts.
proof fn lemma_fails_when_all_attempts_fail<R>(
    policy: RetryPolicy,
    state: RetryState,
    attempts: Seq<Attempt<R>>,
)
    requires
        state.attempts <= policy.retries,
        attempts.len() >= policy.retries - state.attempts,
        all_fail(attempts, policy.retries - state.attempts),
    ensures
        run(policy, state, attempts) == Some(
            Outcome::<R>::Failed(
                failure(
                    if state.attempts == policy.retries {
                        state.last_error
                    } else {
                        Some(attempts[policy.retries - state.attempts - 1]->Failure_0)
                    },
                ),
            ),
        ),
        sends(policy, state, attempts) == policy.retries - state.attempts,
    decreases attempts.len(),
{
    let left = policy.retries - state.attempts;
    if left > 0 {
        assert(attempts[0] is Failure);
        let cause = attempts[0]->Failure_0;
        let rest = attempts.drop_first();
        assert forall|i: int| 0 <= i < left - 1 implies (#[trigger] rest[i]) is Failure by {
            assert(rest[i] == attempts[i + 1]);
        }
        if left > 1 {
            assert(rest[left - 2] == attempts[left - 1]);
        }
        lemma_fails_when_all_attempts_fail(policy, after_failure(state, cause), rest);
    }
}


/// A transport that fails one time less than there are attempts and then
/// answers gives the reply, after all the attempts were made.
pub proof fn lemma_retry_succeeds_after_failures<R>(policy: RetryPolicy, attempts: Seq<Attempt<R>>)
    requires
        policy.retries >= 1,
        attempts.len() >= policy.retries,
        all_fail(attempts, policy.retries - 1),
        attempts[policy.retries - 1] is Reply,
    ensures
        run(policy, RetryState::initial(), attempts) == Some(
            Outcome::Delivered(attempts[policy.retries - 1]->Reply_0),
        ),
        sends(policy, RetryState::initial(), attempts) == policy.retries,
{
    lemma_succeeds_on_last_attempt(policy, RetryState::initial(), attempts);
}

/// A transport that fails as many times as there are attempts gives a
/// failure that names the cause of the last of them, after all the
/// attempts were made and none more. Where no attempt is allowed at all,
/// the failure names no cause and nothing is sent.
pub proof fn lemma_retry_fails_after_all_failures<R>(policy: RetryPolicy, attempts: Seq<Attempt<R>>)
    requires
        attempts.len() >= policy.retries,
        all_fail(attempts, policy.retries as int),
    ensures
        run(policy, RetryState::initial(), attempts) == Some(
            Outcome::<R>::Failed(
                failure(
                    if policy.retries == 0 {
                        None
                    } else {
                        Some(attempts[policy.retries - 1]->Failure_0)
                    },
                ),
            ),
        ),
        sends(policy, RetryState::initial(), attempts) == policy.retries,
{
    lemma_fails_when_all_attempts_fail(policy, RetryState::initial(), attempts);
}

/// A reply that arrives ends the retrying at once, whatever it says: it is
/// handed on, and the state stays as it was.
pub proof fn lemma_reply_is_not_retried<R>(policy: RetryPolicy, state: RetryState, reply: R)
    ensures
        next(policy, state, RetryEvent::Responded(reply)) == (
            state,
            RetryActionModel::Deliver(reply),
        ),
{
}

} // verus!
