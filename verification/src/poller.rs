//! The outer loop: connect, collect, persist, sleep, and again.
//!
//! The loop itself runs outside this library, which cannot wait or reach a store.
//! Here stands the rule that the loop follows: from the state it is in and from
//! what has just happened, the state it goes to and what it does next.

use vstd::prelude::*;
use crate::postgres::PersistError;
use crate::text::{numeral_u64, parse_u64};

verus! {

/// Seconds between two iterations where nothing else is configured.
pub const DEFAULT_INTERVAL_SECS: u64 = 10;

/// Seconds to wait after a failure before the store is tried again.
pub const BACKOFF_SECS: u64 = 5;

/// The seconds between two iterations that a setting asks for: the number it
/// writes, and the default where it is absent or writes none.
pub open spec fn interval_of(setting: Option<Seq<char>>) -> u64 {
    match setting {
        Some(text) => match numeral_u64(text) {
            Some(secs) => secs,
            None => DEFAULT_INTERVAL_SECS,
        },
        None => DEFAULT_INTERVAL_SECS,
    }
}

/// Reads the seconds between two iterations from its setting.
pub fn poll_interval(setting: Option<&str>) -> (secs: u64)
    ensures
        secs == interval_of(
            match setting {
                Some(text) => Some(text@),
                None => None,
            },
        ),
{
    match setting {
        Some(text) => match parse_u64(text) {
            Some(secs) => secs,
            None => DEFAULT_INTERVAL_SECS,
        },
        None => DEFAULT_INTERVAL_SECS,
    }
}

/// Where the loop stands.
#[derive(Debug, Clone, Copy, PartialEq, Eq, Structural)]
pub enum LoopState {
    /// A session with the store is being opened.
    Connecting,
    /// The providers are being asked.
    Collecting,
    /// The batch is being written.
    Persisting,
    /// The loop waits for the next iteration.
    Sleeping,
    /// The loop has been told to end. It stays here.
    ShuttingDown,
}

/// What has just happened.
#[derive(Debug, Clone, Copy, PartialEq, Eq, Structural)]
pub enum LoopEvent {
    /// The session with the store is open.
    Connected,
    /// No session with the store could be had, or the session was lost.
    ConnectionFailed,
    /// All four adapters have made their samples.
    Collected,
    /// The batch was committed.
    Persisted,
    /// The batch was rolled back.
    WriteFailed,
    /// The wait is over.
    Woke,
    /// The loop was told to end, from outside.
    Shutdown,
}

/// What the loop does next.
#[derive(Debug, Clone, Copy, PartialEq, Eq, Structural)]
pub enum LoopAction {
    /// Wait for so many seconds, then open a session with the store.
    Connect { after_secs: u64 },
    /// Refresh the providers once and make the samples.
    Collect,
    /// Write the batch in one transaction.
    Persist,
    /// Wait for so many seconds.
    Sleep { secs: u64 },
    /// End the loop.
    Stop,
}

/// What the loop has to tell its operator.
#[derive(Debug, Clone, Copy, PartialEq, Eq, Structural)]
pub enum Notice {
    /// The iteration of this number could not reach the store.
    ConnectionError { iteration: u128 },
    /// The iteration of this number was written.
    IterationSucceeded { iteration: u128 },
    /// The iteration of this number was rolled back.
    IterationFailed { iteration: u128 },
}

/// The loop: its state, the number of the iteration it is in, counted from one,
/// and the seconds it waits between two iterations.
#[derive(Debug, Clone, Copy, PartialEq, Eq, Structural)]
pub struct Poller {
    /// Where the loop stands.
    pub state: LoopState,
    /// The number of the iteration that the loop is in.
    pub iteration: u128,
    /// Seconds between two iterations.
    pub interval_secs: u64,
}

/// The state that follows. A failure of any kind leads back to connecting, never
/// out of the loop; only the order to shut down ends it, and nothing leads out of
/// that end. What does not belong to the state changes nothing.
pub open spec fn next_state(state: LoopState, event: LoopEvent) -> LoopState {
    match (state, event) {
        (LoopState::ShuttingDown, _) => LoopState::ShuttingDown,
        (_, LoopEvent::Shutdown) => LoopState::ShuttingDown,
        (LoopState::Connecting, LoopEvent::Connected) => LoopState::Collecting,
        (LoopState::Collecting, LoopEvent::Collected) => LoopState::Persisting,
        (LoopState::Persisting, LoopEvent::Persisted) => LoopState::Sleeping,
        (LoopState::Persisting, LoopEvent::WriteFailed) => LoopState::Connecting,
        (LoopState::Persisting, LoopEvent::ConnectionFailed) => LoopState::Connecting,
        (LoopState::Sleeping, LoopEvent::Woke) => LoopState::Collecting,
        (_, _) => state,
    }
}

/// Whether the event ends the iteration that the loop is in.
pub open spec fn ends_iteration(state: LoopState, event: LoopEvent) -> bool {
    match (state, event) {
        (LoopState::Connecting, LoopEvent::ConnectionFailed) => true,
        (LoopState::Persisting, LoopEvent::Persisted) => true,
        (LoopState::Persisting, LoopEvent::WriteFailed) => true,
        (LoopState::Persisting, LoopEvent::ConnectionFailed) => true,
        (_, _) => false,
    }
}

/// Whether the event is a failure that the loop answers by waiting before it
/// tries the store again.
pub open spec fn backs_off(state: LoopState, event: LoopEvent) -> bool {
    ends_iteration(state, event) && event != LoopEvent::Persisted
}

/// What the loop does on entering, or staying in, a state.
pub open spec fn action_of(poller: Poller, event: LoopEvent) -> LoopAction {
    match next_state(poller.state, event) {
        LoopState::Connecting => LoopAction::Connect {
            after_secs: if backs_off(poller.state, event) {
                BACKOFF_SECS
            } else {
                0
            },
        },
        LoopState::Collecting => LoopAction::Collect,
        LoopState::Persisting => LoopAction::Persist,
        LoopState::Sleeping => LoopAction::Sleep { secs: poller.interval_secs },
        LoopState::ShuttingDown => LoopAction::Stop,
    }
}

/// What the loop tells its operator of the event.
pub open spec fn notice_of(poller: Poller, event: LoopEvent) -> Option<Notice> {
    match (poller.state, event) {
        (LoopState::Connecting, LoopEvent::ConnectionFailed) => Some(
            Notice::ConnectionError { iteration: poller.iteration },
        ),
        (LoopState::Persisting, LoopEvent::ConnectionFailed) => Some(
            Notice::ConnectionError { iteration: poller.iteration },
        ),
        (LoopState::Persisting, LoopEvent::Persisted) => Some(
            Notice::IterationSucceeded { iteration: poller.iteration },
        ),
        (LoopState::Persisting, LoopEvent::WriteFailed) => Some(
            Notice::IterationFailed { iteration: poller.iteration },
        ),
        (_, _) => None,
    }
}

/// The number of the iteration after the event: the next one where the event ends
/// an iteration, as far as numbers reach.
pub open spec fn iteration_after(poller: Poller, event: LoopEvent) -> u128 {
    if ends_iteration(poller.state, event) && poller.iteration < u128::MAX {
        (poller.iteration + 1) as u128
    } else {
        poller.iteration
    }
}

/// The event that the end of an attempt to write stands for. A read-back that
/// failed is no failure of the iteration.
pub open spec fn event_of(result: Result<(), PersistError>) -> LoopEvent {
    match result {
        Ok(_) => LoopEvent::Persisted,
        Err(PersistError::ConnectionError) => LoopEvent::ConnectionFailed,
        Err(PersistError::WriteError) => LoopEvent::WriteFailed,
        Err(PersistError::ReadError) => LoopEvent::Persisted,
    }
}

/// Says which event the end of an attempt to write stands for.
pub fn persist_event(result: Result<(), PersistError>) -> (event: LoopEvent)
    ensures
        event == event_of(result),
{
    match result {
        Ok(_) => LoopEvent::Persisted,
        Err(PersistError::ConnectionError) => LoopEvent::ConnectionFailed,
        Err(PersistError::WriteError) => LoopEvent::WriteFailed,
        Err(PersistError::ReadError) => LoopEvent::Persisted,
    }
}

impl Poller {
    /// The loop before its first iteration, with the action that starts it: to
    /// open a session with the store at once.
    pub fn new(interval_secs: u64) -> (start: (Poller, LoopAction))
        ensures
            start.0 == (Poller { state: LoopState::Connecting, iteration: 1, interval_secs }),
            start.1 == (LoopAction::Connect { after_secs: 0 }),
    {
        (
            Poller { state: LoopState::Connecting, iteration: 1, interval_secs },
            LoopAction::Connect { after_secs: 0 },
        )
    }

    /// Takes the loop one step on: from its state and from what has just happened
    /// to the state that follows, what to do next, and what to tell the operator.
    pub fn step(&mut self, event: LoopEvent) -> (next: (LoopAction, Option<Notice>))
        ensures
            final(self).state == next_state(old(self).state, event),
            final(self).iteration == iteration_after(*old(self), event),
            final(self).interval_secs == old(self).interval_secs,
            next.0 == action_of(*old(self), event),
            next.1 == notice_of(*old(self), event),
    {
        let state = self.state;
        let iteration = self.iteration;
        let ended = match (state, event) {
            (LoopState::Connecting, LoopEvent::ConnectionFailed) => true,
            (LoopState::Persisting, LoopEvent::Persisted) => true,
            (LoopState::Persisting, LoopEvent::WriteFailed) => true,
            (LoopState::Persisting, LoopEvent::ConnectionFailed) => true,
            (_, _) => false,
        };
        let notice = match (state, event) {
            (LoopState::Connecting, LoopEvent::ConnectionFailed) => Some(
                Notice::ConnectionError { iteration },
            ),
            (LoopState::Persisting, LoopEvent::ConnectionFailed) => Some(
                Notice::ConnectionError { iteration },
            ),
            (LoopState::Persisting, LoopEvent::Persisted) => Some(
                Notice::IterationSucceeded { iteration },
            ),
            (LoopState::Persisting, LoopEvent::WriteFailed) => Some(
                Notice::IterationFailed { iteration },
            ),
            (_, _) => None,
        };
        let next = match (state, event) {
            (LoopState::ShuttingDown, _) => LoopState::ShuttingDown,
            (_, LoopEvent::Shutdown) => LoopState::ShuttingDown,
            (LoopState::Connecting, LoopEvent::Connected) => LoopState::Collecting,
            (LoopState::Collecting, LoopEvent::Collected) => LoopState::Persisting,
            (LoopState::Persisting, LoopEvent::Persisted) => LoopState::Sleeping,
            (LoopState::Persisting, LoopEvent::WriteFailed) => LoopState::Connecting,
            (LoopState::Persisting, LoopEvent::ConnectionFailed) => LoopState::Connecting,
            (LoopState::Sleeping, LoopEvent::Woke) => LoopState::Collecting,
            (_, _) => state,
        };
        let action = match next {
            LoopState::Connecting => LoopAction::Connect {
                after_secs: if ended && event != LoopEvent::Persisted {
                    BACKOFF_SECS
                } else {
                    0
                },
            },
            LoopState::Collecting => LoopAction::Collect,
            LoopState::Persisting => LoopAction::Persist,
            LoopState::Sleeping => LoopAction::Sleep { secs: self.interval_secs },
            LoopState::ShuttingDown => LoopAction::Stop,
        };
        if ended && iteration < u128::MAX {
            self.iteration = iteration + 1;
        }
        self.state = next;
        (action, notice)
    }
}

/// Nothing but the order to shut down ends the loop: after any other event the
/// loop is still running where it was running before, and is told to go on.
pub proof fn lemma_only_shutdown_stops(poller: Poller, event: LoopEvent)
    requires
        poller.state != LoopState::ShuttingDown,
        event != LoopEvent::Shutdown,
    ensures
        next_state(poller.state, event) != LoopState::ShuttingDown,
        action_of(poller, event) != LoopAction::Stop,
{
}

/// A failure to connect or to write is answered by waiting for the backoff and
/// connecting again.
pub proof fn lemma_failure_reconnects(poller: Poller, event: LoopEvent)
    requires
        backs_off(poller.state, event),
    ensures
        next_state(poller.state, event) == LoopState::Connecting,
        action_of(poller, event) == (LoopAction::Connect { after_secs: BACKOFF_SECS }),
        notice_of(poller, event) is Some,
{
}

} // verus!
