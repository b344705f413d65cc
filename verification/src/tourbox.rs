//! The session with a controller: built by resolving its endpoints, then
//! stepped through the handshake and through the notification loop.

use crate::error::{Error, Fault};
use crate::gatt::Device;
use crate::input::{Binding, CodeTable, InputEvent};
use crate::protocol::{Protocol, ProtocolView};
use crate::resolver::{resolve, resolved_unless, Endpoints};
use crate::session::{
    delivered, Handshake, Listener, ReadAction, ReadEvent, Session, WriteAction, WriteEvent,
};
use crate::shutdown::{Raced, ShutdownToken};
use vstd::prelude::*;

verus! {

/// A session with one controller.
///
/// The endpoints, the protocol and the code table are fixed when the session
/// is built. What changes afterwards is the shutdown token, which only ever
/// fires, and the progress of the handshake and of the listener.
#[derive(Debug)]
pub struct Tourbox {
    shutdown: ShutdownToken,
    protocol: Protocol,
    codes: CodeTable,
    endpoints: Endpoints,
    handshake: Handshake,
    listener: Listener,
}

impl View for Tourbox {
    type V = Session;

    closed spec fn view(&self) -> Session {
        Session {
            fired: self.shutdown@,
            endpoints: self.endpoints,
            protocol: self.protocol@,
            table: self.codes@,
            handshake: self.handshake,
            listener: self.listener,
        }
    }
}

/// The session that `new` builds, or the error that it ends with.
pub open spec fn constructed(
    protocol: ProtocolView,
    table: Seq<Binding>,
    device: Device,
    fired: bool,
) -> Result<Session, Error> {
    match resolved_unless(fired, protocol.identifiers, device) {
        Ok(endpoints) => Ok(
            Session {
                fired,
                endpoints,
                protocol,
                table,
                handshake: Handshake::Idle,
                listener: Listener::Idle,
            },
        ),
        Err(error) => Err(error),
    }
}

impl Tourbox {
    /// Builds the session by resolving the endpoints of `protocol` in
    /// `device`, raced against `shutdown`.
    ///
    /// Fails with `ShutdownRequested` when the token has fired, and
    /// otherwise with `NotFound` for the first identifier, in resolution
    /// order, that the device does not offer. A session that is built has
    /// neither begun its handshake nor its listener.
    pub fn new(protocol: Protocol, codes: CodeTable, device: &Device, shutdown: ShutdownToken) -> (made:
        Result<Tourbox, Error>)
        ensures
            match made {
                Ok(tourbox) => constructed(protocol@, codes@, *device, shutdown@) == Ok::<
                    Session,
                    Error,
                >(tourbox@),
                Err(error) => constructed(protocol@, codes@, *device, shutdown@) == Err::<
                    Session,
                    Error,
                >(error),
            },
    {
        match resolve(device, &protocol.identifiers, &shutdown) {
            Ok(endpoints) => Ok(
                Tourbox {
                    shutdown,
                    protocol,
                    codes,
                    endpoints,
                    handshake: Handshake::Idle,
                    listener: Listener::Idle,
                },
            ),
            Err(error) => Err(error),
        }
    }

    /// Takes one step of the handshake: hears what became of the step
    /// asked for last, and says what to do next.
    ///
    /// The frames are asked for in their order, one at a time. When a write
    /// fails no later frame is asked for, and the handshake ends with
    /// `Io(Write(k))` for the frame `k` that failed. Once the token has
    /// fired, by this report or before it, a handshake that is not over ends
    /// with `ShutdownRequested` and asks nothing more of the transport.
    pub fn initial_protocol(&mut self, event: WriteEvent) -> (action: WriteAction)
        ensures
            (final(self)@, action) == old(self)@.handshake_step(event),
    {
        if let WriteEvent::Shutdown = event {
            self.shutdown.signal();
        }
        if let Handshake::Finished(result) = self.handshake {
            return WriteAction::Finish(result);
        }
        let event = match self.shutdown.race(event) {
            Raced::Completed(event) => event,
            Raced::Cancelled => {
                return self.end_handshake(Err(Error::ShutdownRequested));
            },
        };
        match self.handshake {
            Handshake::Opening => match event {
                WriteEvent::Done => self.write_from(0),
                WriteEvent::Failed => self.end_handshake(Err(Error::Io(Fault::OpenWriter))),
                _ => WriteAction::Open(self.endpoints.char000f),
            },
            Handshake::Writing(k) => match event {
                WriteEvent::Done => {
                    if k < self.protocol.frames.len() {
                        self.write_from(k + 1)
                    } else {
                        self.end_handshake(Ok(()))
                    }
                },
                WriteEvent::Failed => self.end_handshake(Err(Error::Io(Fault::Write(k)))),
                _ => WriteAction::Write(k),
            },
            _ => {
                self.handshake = Handshake::Opening;
                WriteAction::Open(self.endpoints.char000f)
            },
        }
    }

    /// Takes one step of the notification loop: hears what became of the
    /// step asked for last, hands the event of a decoded frame to `sink`,
    /// and says what to do next.
    ///
    /// A frame of one or two bytes appends exactly its event to the sink
    /// before the next read is asked for; any other frame appends nothing
    /// and the loop goes on. A failed read ends the loop with `Io(Read)`.
    /// Once the token has fired, by this report or before it, a loop that
    /// is not over ends with success and asks nothing more of the
    /// transport.
    pub fn notifications(&mut self, event: ReadEvent, sink: &mut Vec<InputEvent>) -> (action:
        ReadAction)
        ensures
            (final(self)@, action) == (
                old(self)@.listener_step(event).0,
                old(self)@.listener_step(event).1,
            ),
            final(sink)@ == delivered(old(sink)@, old(self)@.listener_step(event).2),
    {
        if let ReadEvent::Shutdown = event {
            self.shutdown.signal();
        }
        if let Listener::Finished(result) = self.listener {
            return ReadAction::Finish(result);
        }
        let event = match self.shutdown.race(event) {
            Raced::Completed(event) => event,
            Raced::Cancelled => {
                return self.end_listener(Ok(()));
            },
        };
        match self.listener {
            Listener::Opening => match event {
                ReadEvent::Opened => {
                    self.listener = Listener::Reading;
                    ReadAction::Read
                },
                ReadEvent::Failed => self.end_listener(Err(Error::Io(Fault::OpenNotifier))),
                _ => ReadAction::Open(self.endpoints.char000c),
            },
            Listener::Reading => match event {
                ReadEvent::Frame(bytes) => {
                    if let Some(input) = self.codes.event(bytes.as_slice()) {
                        sink.push(input);
                    }
                    ReadAction::Read
                },
                ReadEvent::Failed => self.end_listener(Err(Error::Io(Fault::Read))),
                _ => ReadAction::Read,
            },
            _ => {
                self.listener = Listener::Opening;
                ReadAction::Open(self.endpoints.char000c)
            },
        }
    }

    /// Asks for frame `next`, or ends the handshake where there is none.
    fn write_from(&mut self, next: usize) -> (action: WriteAction)
        ensures
            (final(self)@, action) == old(self)@.write_from(next as int),
    {
        if next < self.protocol.frames.len() {
            self.handshake = Handshake::Writing(next);
            WriteAction::Write(next)
        } else {
            self.end_handshake(Ok(()))
        }
    }

    /// Ends the handshake with `result`.
    fn end_handshake(&mut self, result: Result<(), Error>) -> (action: WriteAction)
        ensures
            final(self)@ == old(self)@.with_handshake(Handshake::Finished(result)),
            action == WriteAction::Finish(result),
    {
        self.handshake = Handshake::Finished(result);
        WriteAction::Finish(result)
    }

    /// Ends the listener with `result`.
    fn end_listener(&mut self, result: Result<(), Error>) -> (action: ReadAction)
        ensures
            final(self)@ == old(self)@.with_listener(Listener::Finished(result)),
            action == ReadAction::Finish(result),
    {
        self.listener = Listener::Finished(result);
        ReadAction::Finish(result)
    }

    /// The resolved endpoint set.
    pub fn endpoints(&self) -> (endpoints: Endpoints)
        ensures
            endpoints == self@.endpoints,
    {
        self.endpoints
    }

    /// The protocol that the session was built with.
    pub fn protocol(&self) -> (protocol: &Protocol)
        ensures
            protocol@ == self@.protocol,
    {
        &self.protocol
    }

    /// The shutdown token of the session, for any number of waiters.
    pub fn shutdown(&self) -> (token: &ShutdownToken)
        ensures
            token@ == self@.fired,
    {
        &self.shutdown
    }
}

} // verus!
