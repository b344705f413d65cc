//! The cancellation fabric: a latched shutdown signal that every blocking
//! step of a session is raced against.

use crate::error::{Error, ShutdownError};
use vstd::prelude::*;

verus! {

/// What a waiter on the token sees.
#[derive(Clone, Copy, Debug, PartialEq, Eq, Structural)]
pub enum Wait {
    /// The token has fired: the wait is over at once.
    Ready,
    /// The token has not fired: the waiter stays suspended.
    Pending,
}

/// The outcome of racing one operation against the shutdown token.
#[derive(Clone, Copy, Debug, PartialEq, Eq)]
pub enum Raced<T> {
    /// The operation finished first, with this value.
    Completed(T),
    /// The token fired first; whatever the operation produced is discarded.
    Cancelled,
}

/// A shutdown signal that latches.
///
/// The token is written once, by whoever observes the outside shutdown
/// signal, and read by any number of waiters through a shared reference. It
/// cannot be cloned or reset, so every reader sees the same firing.
#[derive(Debug)]
pub struct ShutdownToken {
    fired: bool,
}

impl View for ShutdownToken {
    type V = bool;

    /// Whether the token has fired.
    closed spec fn view(&self) -> bool {
        self.fired
    }
}

/// The state of a token after `signal`: fired, whatever it was.
pub open spec fn signalled(fired: bool) -> bool {
    true
}

/// What `wait` reports on a token in the given state.
pub open spec fn waited(fired: bool) -> Wait {
    if fired {
        Wait::Ready
    } else {
        Wait::Pending
    }
}

/// How a race against a token in the given state ends for an operation that
/// produced `outcome`.
pub open spec fn raced<T>(fired: bool, outcome: T) -> Raced<T> {
    if fired {
        Raced::Cancelled
    } else {
        Raced::Completed(outcome)
    }
}

impl ShutdownToken {
    /// A token that has not fired.
    pub fn new() -> (token: ShutdownToken)
        ensures
            !token@,
    {
        ShutdownToken { fired: false }
    }

    /// Fires the token. On a token that has already fired this changes
    /// nothing.
    pub fn signal(&mut self)
        ensures
            final(self)@ == signalled(old(self)@),
    {
        self.fired = true;
    }

    /// Observes the token without consuming the signal.
    pub fn wait(&self) -> (seen: Wait)
        ensures
            seen == waited(self@),
    {
        if self.fired {
            Wait::Ready
        } else {
            Wait::Pending
        }
    }

    /// Whether the token has fired.
    pub fn is_fired(&self) -> (fired: bool)
        ensures
            fired == self@,
    {
        self.fired
    }

    /// Settles the race between this token and an operation that produced
    /// `outcome`: a fired token wins and the outcome is dropped.
    pub fn race<T>(&self, outcome: T) -> (winner: Raced<T>)
        ensures
            winner == raced(self@, outcome),
    {
        if self.fired {
            Raced::Cancelled
        } else {
            Raced::Completed(outcome)
        }
    }
}

impl<T> Raced<T> {
    /// The value of the operation, or `ShutdownRequested` where the token
    /// won.
    pub fn into_result(self) -> (r: Result<T, Error>)
        ensures
            r == match self {
                Raced::Completed(value) => Ok::<T, Error>(value),
                Raced::Cancelled => Err::<T, Error>(Error::ShutdownRequested),
            },
    {
        match self {
            Raced::Completed(value) => Ok(value),
            Raced::Cancelled => ShutdownError::new(),
        }
    }
}

/// The token is an idempotent latch: a second `signal` leaves the state that
/// the first one made, and every `wait` after a `signal` is over at once,
/// however many came before it.
pub proof fn lemma_signal_latches(fired: bool)
    ensures
        signalled(signalled(fired)) == signalled(fired),
        waited(signalled(fired)) == Wait::Ready,
        waited(signalled(signalled(fired))) == Wait::Ready,
{
}

/// A race against a fired token is lost whatever the operation produced.
pub proof fn lemma_fired_token_wins<T>(outcome: T)
    ensures
        raced(true, outcome) == Raced::<T>::Cancelled,
{
}

} // verus!
