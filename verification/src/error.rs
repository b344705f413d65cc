//! What can end a session, or one step of it.

use vstd::prelude::*;

verus! {

/// The transport operation that did not complete.
#[derive(Clone, Copy, Debug, PartialEq, Eq, Structural)]
pub enum Fault {
    /// Opening the write channel of the handshake.
    OpenWriter,
    /// Writing the handshake frame with this index.
    Write(usize),
    /// Opening the notification channel.
    OpenNotifier,
    /// Reading a notification frame.
    Read,
}

/// Why a step of the session did not produce its value.
#[derive(Clone, Copy, Debug, PartialEq, Eq, Structural)]
pub enum Error {
    /// No child of the parent carries this identifier.
    NotFound(u128),
    /// The transport failed.
    Io(Fault),
    /// The shutdown token won the race against the step.
    ShutdownRequested,
    /// A notification frame of this many bytes, which is neither 1 nor 2.
    /// The listener skips such a frame and never ends on it.
    MalformedFrame(usize),
}

/// The report that a step was interrupted by the shutdown signal.
#[derive(Clone, Copy, Debug, PartialEq, Eq, Structural)]
pub struct ShutdownError;

impl ShutdownError {
    /// The failed result of a step that lost its race against the shutdown
    /// token.
    pub fn new<T>() -> (r: Result<T, Error>)
        ensures
            r == Err::<T, Error>(Error::ShutdownRequested),
    {
        Err(Error::ShutdownRequested)
    }

    /// The text shown for this report.
    pub fn message(&self) -> (text: String)
        ensures
            text@ == "Interupted by a shutdown signal"@,
    {
        "Interupted by a shutdown signal".to_owned()
    }
}

} // verus!
