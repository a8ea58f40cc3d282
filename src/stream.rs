use vstd::prelude::*;
use crate::retry::{ErrorClass, RetryOutcome, RetryPolicy, retry_decision};

verus! {

/// The states of the job-stream consumer.
#[derive(Debug, Clone, Copy, PartialEq, Eq, Structural)]
pub enum StreamState {
    /// Pulling messages from the subscription.
    Consuming,
    /// The subscription broke; waiting for the settle delay.
    Disconnected,
    /// Re-opening the subscription; the number is the attempts made so far.
    Reconnecting(u32),
    /// The reconnection budget is spent: job processing has ended.
    Failed,
}

/// What the consumer observed.
#[derive(Debug, Clone, Copy, PartialEq, Eq, Structural)]
pub enum StreamEvent {
    /// A message arrived.
    Received,
    /// Receiving failed, or the subscription ended.
    ReceiveFailed,
    /// The settle delay (or a backoff wait) has passed.
    Waited,
    /// Re-opening stream, consumer and subscription succeeded.
    Reconnected,
    /// Re-opening failed.
    ReconnectFailed,
}

/// What the consumer does next.
#[derive(Debug, Clone, Copy, PartialEq, Eq, Structural)]
pub enum StreamAction {
    /// Hand the message to the task runner, publish its result, then acknowledge it.
    HandleThenAck,
    /// Wait this many seconds.
    Wait(u64),
    /// Try to re-open the subscription.
    Reconnect,
    /// Pull the next message.
    Pull,
    /// Stop consuming: the subsystem has failed.
    Stop,
}

/// Seconds to wait after a disconnect before the first reconnection attempt.
pub const SETTLE_DELAY_SECS: u64 = 5;

/// Reconnection attempts before the consumer gives up.
pub const MAX_RECONNECT_ATTEMPTS: u32 = 3;

/// The reconnection budget: three attempts, waiting `2^k` seconds after the
/// failed attempt `k`.
pub open spec fn reconnect_policy() -> RetryPolicy {
    RetryPolicy { max_attempts: 3, initial_delay_ms: 2 }
}

/// The transition table of the consumer.
pub open spec fn stream_next(state: StreamState, event: StreamEvent) -> (StreamState, StreamAction) {
    match (state, event) {
        (StreamState::Consuming, StreamEvent::Received) => (StreamState::Consuming, StreamAction::HandleThenAck),
        (StreamState::Consuming, StreamEvent::ReceiveFailed) =>
            (StreamState::Disconnected, StreamAction::Wait(SETTLE_DELAY_SECS)),
        (StreamState::Disconnected, StreamEvent::Waited) => (StreamState::Reconnecting(0), StreamAction::Reconnect),
        (StreamState::Reconnecting(_), StreamEvent::Reconnected) => (StreamState::Consuming, StreamAction::Pull),
        (StreamState::Reconnecting(n), StreamEvent::ReconnectFailed) =>
            match retry_decision(reconnect_policy(), (n + 1) as nat, ErrorClass::Retryable) {
                Some(d) => (StreamState::Reconnecting((n + 1) as u32), StreamAction::Wait(d as u64)),
                None => (StreamState::Failed, StreamAction::Stop),
            },
        (StreamState::Reconnecting(n), StreamEvent::Waited) => (StreamState::Reconnecting(n), StreamAction::Reconnect),
        (StreamState::Failed, _) => (StreamState::Failed, StreamAction::Stop),
        (s, _) => (s, StreamAction::Pull),
    }
}

/// The consumer's states keep the attempt count within the budget.
pub open spec fn stream_state_wf(state: StreamState) -> bool {
    state matches StreamState::Reconnecting(n) ==> n < MAX_RECONNECT_ATTEMPTS
}

/// The next state and action of the consumer.
pub fn stream_step(state: StreamState, event: StreamEvent) -> (r: (StreamState, StreamAction))
    requires
        stream_state_wf(state),
    ensures
        r == stream_next(state, event),
        stream_state_wf(r.0),
{
    let policy = RetryPolicy { max_attempts: MAX_RECONNECT_ATTEMPTS, initial_delay_ms: 2 };
    proof {
        reveal_with_fuel(crate::retry::pow2, 3);
    }
    match (state, event) {
        (StreamState::Consuming, StreamEvent::Received) => (StreamState::Consuming, StreamAction::HandleThenAck),
        (StreamState::Consuming, StreamEvent::ReceiveFailed) =>
            (StreamState::Disconnected, StreamAction::Wait(SETTLE_DELAY_SECS)),
        (StreamState::Disconnected, StreamEvent::Waited) => (StreamState::Reconnecting(0), StreamAction::Reconnect),
        (StreamState::Reconnecting(_), StreamEvent::Reconnected) => (StreamState::Consuming, StreamAction::Pull),
        (StreamState::Reconnecting(n), StreamEvent::ReconnectFailed) => {
            match policy.after_failure(n + 1, ErrorClass::Retryable, ()) {
                RetryOutcome::RetryAfter(d) => (StreamState::Reconnecting(n + 1), StreamAction::Wait(d)),
                RetryOutcome::GiveUp(_) => (StreamState::Failed, StreamAction::Stop),
            }
        },
        (StreamState::Reconnecting(n), StreamEvent::Waited) => (StreamState::Reconnecting(n), StreamAction::Reconnect),
        (StreamState::Failed, _) => (StreamState::Failed, StreamAction::Stop),
        (s, _) => (s, StreamAction::Pull),
    }
}

/// The consumer fails only when its third consecutive reconnection attempt
/// fails; before that each failed attempt `k` is followed by a `2^k`-second
/// wait, and a successful attempt resumes consumption.
pub proof fn lemma_reconnect_budget(n: u32)
    requires
        n < MAX_RECONNECT_ATTEMPTS,
    ensures
        n + 1 < MAX_RECONNECT_ATTEMPTS ==> stream_next(StreamState::Reconnecting(n), StreamEvent::ReconnectFailed)
            == (StreamState::Reconnecting((n + 1) as u32), StreamAction::Wait(crate::retry::pow2((n + 1) as nat) as u64)),
        n + 1 == MAX_RECONNECT_ATTEMPTS ==> stream_next(StreamState::Reconnecting(n), StreamEvent::ReconnectFailed)
            == (StreamState::Failed, StreamAction::Stop),
        stream_next(StreamState::Reconnecting(n), StreamEvent::Reconnected) == (StreamState::Consuming, StreamAction::Pull),
        forall|e: StreamEvent| stream_next(StreamState::Failed, e) == (StreamState::Failed, StreamAction::Stop),
{
    reveal_with_fuel(crate::retry::pow2, 3);
}

} // verus!
