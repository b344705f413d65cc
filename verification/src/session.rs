//! The model of a session: its state as plain values, and the two step
//! functions that say, for every state and every report from the transport,
//! which state comes next and what the transport is asked to do.
//!
//! A step is asked for with `Begin`, performed by the caller raced against
//! the shutdown signal, and answered with what became of it. A report that
//! answers no pending step changes nothing, and the pending step is asked
//! for again.

use crate::error::{Error, Fault};
use crate::gatt::Endpoint;
use crate::input::{frame_event, Binding, InputEvent};
use crate::protocol::ProtocolView;
use crate::resolver::Endpoints;
use vstd::prelude::*;

verus! {

/// How far the handshake has come.
#[derive(Clone, Copy, Debug, PartialEq, Eq)]
pub enum Handshake {
    /// Nothing has been asked of the transport.
    Idle,
    /// The write channel is being opened.
    Opening,
    /// The frame with this index is being written; those before it are
    /// written.
    Writing(usize),
    /// The handshake is over, with this result.
    Finished(Result<(), Error>),
}

/// How far the notification listener has come.
#[derive(Clone, Copy, Debug, PartialEq, Eq)]
pub enum Listener {
    /// Nothing has been asked of the transport.
    Idle,
    /// The notification channel is being opened.
    Opening,
    /// A read is in flight.
    Reading,
    /// The listener is over, with this result.
    Finished(Result<(), Error>),
}

/// What the caller reports to the handshake.
#[derive(Clone, Copy, Debug, PartialEq, Eq)]
pub enum WriteEvent {
    /// Nothing: the caller asks what to do.
    Begin,
    /// The step that was asked for completed.
    Done,
    /// The step that was asked for failed in the transport.
    Failed,
    /// The shutdown signal fired before the step completed.
    Shutdown,
}

/// What the handshake asks of the caller.
#[derive(Clone, Copy, Debug, PartialEq, Eq)]
pub enum WriteAction {
    /// Open one write channel to this characteristic.
    Open(Endpoint),
    /// Write the whole frame with this index to the channel.
    Write(usize),
    /// Nothing more: the handshake is over, with this result.
    Finish(Result<(), Error>),
}

/// What the caller reports to the listener.
#[derive(Clone, Debug, PartialEq, Eq)]
pub enum ReadEvent {
    /// Nothing: the caller asks what to do.
    Begin,
    /// The notification channel is open.
    Opened,
    /// A read completed with these bytes.
    Frame(Vec<u8>),
    /// The step that was asked for failed in the transport.
    Failed,
    /// The shutdown signal fired before the step completed.
    Shutdown,
}

/// What the listener asks of the caller.
#[derive(Clone, Copy, Debug, PartialEq, Eq)]
pub enum ReadAction {
    /// Open one notification channel to this characteristic.
    Open(Endpoint),
    /// Read the next notification frame.
    Read,
    /// Nothing more: the listener is over, with this result.
    Finish(Result<(), Error>),
}

/// The state of a session.
pub struct Session {
    /// Whether the shutdown token has fired.
    pub fired: bool,
    pub endpoints: Endpoints,
    pub protocol: ProtocolView,
    /// The rows of the code table.
    pub table: Seq<Binding>,
    pub handshake: Handshake,
    pub listener: Listener,
}

impl Session {
    /// The session with its token fired.
    pub open spec fn cancelled(self) -> Session {
        Session { fired: true, ..self }
    }

    /// The session with its handshake in the given state.
    pub open spec fn with_handshake(self, handshake: Handshake) -> Session {
        Session { handshake, ..self }
    }

    /// The session with its listener in the given state.
    pub open spec fn with_listener(self, listener: Listener) -> Session {
        Session { listener, ..self }
    }

    /// The handshake once the frames before `next` are written: it writes
    /// frame `next`, or is over where there is none.
    pub open spec fn write_from(self, next: int) -> (Session, WriteAction) {
        if 0 <= next < self.protocol.frames.len() {
            (
                self.with_handshake(Handshake::Writing(next as usize)),
                WriteAction::Write(next as usize),
            )
        } else {
            (self.with_handshake(Handshake::Finished(Ok(()))), WriteAction::Finish(Ok(())))
        }
    }

    /// The handshake ended by `error`.
    pub open spec fn abort_handshake(self, error: Error) -> (Session, WriteAction) {
        (self.with_handshake(Handshake::Finished(Err(error))), WriteAction::Finish(Err(error)))
    }

    /// One step of the handshake.
    ///
    /// A `Shutdown` report fires the token. A finished handshake stays as it
    /// is. Otherwise a fired token ends the handshake with
    /// `ShutdownRequested`, before anything is asked of the transport. With
    /// the token quiet, the channel is opened, then the frames are written
    /// one after another, each only once the one before it is reported
    /// done; a failure ends the handshake with the step that failed.
    pub open spec fn handshake_step(self, event: WriteEvent) -> (Session, WriteAction) {
        let s = if event is Shutdown {
            self.cancelled()
        } else {
            self
        };
        match s.handshake {
            Handshake::Finished(result) => (s, WriteAction::Finish(result)),
            _ => if s.fired {
                s.abort_handshake(Error::ShutdownRequested)
            } else {
                match s.handshake {
                    Handshake::Opening => match event {
                        WriteEvent::Done => s.write_from(0),
                        WriteEvent::Failed => s.abort_handshake(Error::Io(Fault::OpenWriter)),
                        _ => (s, WriteAction::Open(s.endpoints.char000f)),
                    },
                    Handshake::Writing(k) => match event {
                        WriteEvent::Done => s.write_from(k + 1),
                        WriteEvent::Failed => s.abort_handshake(Error::Io(Fault::Write(k))),
                        _ => (s, WriteAction::Write(k)),
                    },
                    _ => (
                        s.with_handshake(Handshake::Opening),
                        WriteAction::Open(s.endpoints.char000f),
                    ),
                }
            },
        }
    }

    /// The listener ended with `result`.
    pub open spec fn end_listener(self, result: Result<(), Error>) -> (
        Session,
        ReadAction,
        Option<InputEvent>,
    ) {
        (self.with_listener(Listener::Finished(result)), ReadAction::Finish(result), None)
    }

    /// One step of the listener, with the event that it hands to the sink.
    ///
    /// A `Shutdown` report fires the token. A finished listener stays as it
    /// is. Otherwise a fired token ends the listener cleanly, before
    /// anything is asked of the transport. With the token quiet, the channel
    /// is opened, then frames are read one after another: a frame of one or
    /// two bytes gives its event, any other frame is skipped, and a failure
    /// ends the listener with the step that failed.
    pub open spec fn listener_step(self, event: ReadEvent) -> (
        Session,
        ReadAction,
        Option<InputEvent>,
    ) {
        let s = if event is Shutdown {
            self.cancelled()
        } else {
            self
        };
        match s.listener {
            Listener::Finished(result) => (s, ReadAction::Finish(result), None),
            _ => if s.fired {
                s.end_listener(Ok(()))
            } else {
                match s.listener {
                    Listener::Opening => match event {
                        ReadEvent::Opened => (s.with_listener(Listener::Reading), ReadAction::Read, None),
                        ReadEvent::Failed => s.end_listener(Err(Error::Io(Fault::OpenNotifier))),
                        _ => (s, ReadAction::Open(s.endpoints.char000c), None),
                    },
                    Listener::Reading => match event {
                        ReadEvent::Frame(bytes) => (
                            s,
                            ReadAction::Read,
                            frame_event(s.table, bytes@),
                        ),
                        ReadEvent::Failed => s.end_listener(Err(Error::Io(Fault::Read))),
                        _ => (s, ReadAction::Read, None),
                    },
                    _ => (
                        s.with_listener(Listener::Opening),
                        ReadAction::Open(s.endpoints.char000c),
                        None,
                    ),
                }
            },
        }
    }
}

/// The sink after one more step: with the event appended, where there is
/// one.
pub open spec fn delivered(sink: Seq<InputEvent>, event: Option<InputEvent>) -> Seq<InputEvent> {
    match event {
        Some(e) => sink.push(e),
        None => sink,
    }
}

impl Session {
    /// The handshake after a sequence of reports, with what it asked for at
    /// each of them.
    pub open spec fn handshake_run(self, events: Seq<WriteEvent>) -> (Session, Seq<WriteAction>)
        decreases events.len(),
    {
        if events.len() == 0 {
            (self, Seq::empty())
        } else {
            let (before, asked) = self.handshake_run(events.drop_last());
            let (after, action) = before.handshake_step(events.last());
            (after, asked.push(action))
        }
    }

    /// The listener after a sequence of reports, with what it asked for at
    /// each of them and what it handed to the sink.
    pub open spec fn listener_run(self, events: Seq<ReadEvent>) -> (
        Session,
        Seq<ReadAction>,
        Seq<InputEvent>,
    )
        decreases events.len(),
    {
        if events.len() == 0 {
            (self, Seq::empty(), Seq::empty())
        } else {
            let (before, asked, sink) = self.listener_run(events.drop_last());
            let (after, action, event) = before.listener_step(events.last());
            (after, asked.push(action), delivered(sink, event))
        }
    }
}

/// The reports of a transport without fault: `Begin`, then `done` times
/// `Done`, the first for the channel and each further one for a frame.
pub open spec fn orderly(done: nat) -> Seq<WriteEvent> {
    Seq::new(
        done + 1,
        |i: int|
            if i == 0 {
                WriteEvent::Begin
            } else {
                WriteEvent::Done
            },
    )
}

/// The channel opened on `channel`, then the first `frames` frames written
/// in their order.
pub open spec fn opened_then_written(channel: Endpoint, frames: nat) -> Seq<WriteAction> {
    Seq::new(
        frames + 1,
        |i: int|
            if i == 0 {
                WriteAction::Open(channel)
            } else {
                WriteAction::Write((i - 1) as usize)
            },
    )
}

/// The events of the frames among `reports`, in the order of the reports.
pub open spec fn decoded(table: Seq<Binding>, reports: Seq<ReadEvent>) -> Seq<InputEvent>
    decreases reports.len(),
{
    if reports.len() == 0 {
        Seq::empty()
    } else {
        let before = decoded(table, reports.drop_last());
        match reports.last() {
            ReadEvent::Frame(bytes) => delivered(before, frame_event(table, bytes@)),
            _ => before,
        }
    }
}

/// A run over two sequences of reports is the run over the first, continued
/// by the run over the second.
pub proof fn lemma_handshake_run_continues(s: Session, first: Seq<WriteEvent>, then: Seq<WriteEvent>)
    ensures
        s.handshake_run(first + then) == (
            s.handshake_run(first).0.handshake_run(then).0,
            s.handshake_run(first).1 + s.handshake_run(first).0.handshake_run(then).1,
        ),
    decreases then.len(),
{
    let mid = s.handshake_run(first).0;
    if then.len() == 0 {
        assert(first + then =~= first);
        assert(s.handshake_run(first).1 + mid.handshake_run(then).1 =~= s.handshake_run(first).1);
    } else {
        lemma_handshake_run_continues(s, first, then.drop_last());
        assert((first + then).drop_last() =~= first + then.drop_last());
        assert((first + then).last() == then.last());
        let asked = s.handshake_run(first).1;
        let more = mid.handshake_run(then.drop_last()).1;
        let last = mid.handshake_run(then.drop_last()).0.handshake_step(then.last()).1;
        assert((asked + more).push(last) =~= asked + more.push(last));
    }
}

/// Asked what to do, a handshake that has not begun asks for the write
/// channel on the characteristic resolved for it, and for nothing else.
pub proof fn lemma_handshake_opens(s: Session)
    requires
        s.handshake is Idle,
        !s.fired,
    ensures
        s.handshake_run(orderly(0)) == (
            s.with_handshake(Handshake::Opening),
            opened_then_written(s.endpoints.char000f, 0),
        ),
{
    let channel = s.endpoints.char000f;
    assert(orderly(0).drop_last() =~= Seq::<WriteEvent>::empty());
    assert(s.handshake_run(orderly(0).drop_last()) == (s, Seq::<WriteAction>::empty()));
    assert(Seq::<WriteAction>::empty().push(WriteAction::Open(channel)) =~= opened_then_written(
        channel,
        0,
    ));
}

/// While the transport reports no fault and the token stays quiet, the
/// handshake asks for the frames in their order, one for each report: once
/// the channel and `written` frames are reported done, it has asked for the
/// frames `0..=written` and for no other, and frame `written` is in flight.
pub proof fn lemma_handshake_in_order(s: Session, written: nat)
    requires
        s.handshake is Idle,
        !s.fired,
        written < s.protocol.frames.len() <= usize::MAX,
    ensures
        s.handshake_run(orderly(written + 1)) == (
            s.with_handshake(Handshake::Writing(written as usize)),
            opened_then_written(s.endpoints.char000f, written + 1),
        ),
    decreases written,
{
    let channel = s.endpoints.char000f;
    assert(orderly(written + 1).drop_last() =~= orderly(written));
    assert(orderly(written + 1).last() == WriteEvent::Done);
    if written == 0 {
        lemma_handshake_opens(s);
    } else {
        lemma_handshake_in_order(s, (written - 1) as nat);
    }
    assert(opened_then_written(channel, written).push(WriteAction::Write(written as usize))
        =~= opened_then_written(channel, written + 1));
}

/// Given the channel and every frame written without fault, the handshake
/// asks for exactly one write per frame, in the declared order, and then
/// ends with success.
pub proof fn lemma_handshake_writes_every_frame(s: Session)
    requires
        s.handshake is Idle,
        !s.fired,
        s.protocol.frames.len() <= usize::MAX,
    ensures
        s.handshake_run(orderly(s.protocol.frames.len() + 1)) == (
            s.with_handshake(Handshake::Finished(Ok(()))),
            opened_then_written(s.endpoints.char000f, s.protocol.frames.len()).push(
                WriteAction::Finish(Ok(())),
            ),
        ),
{
    let n = s.protocol.frames.len();
    assert(orderly(n + 1).drop_last() =~= orderly(n));
    assert(orderly(n + 1).last() == WriteEvent::Done);
    if n == 0 {
        lemma_handshake_opens(s);
    } else {
        lemma_handshake_in_order(s, (n - 1) as nat);
        let before = s.handshake_run(orderly(n)).0;
        assert(before.handshake == Handshake::Writing((n - 1) as usize));
        assert(before.handshake_step(WriteEvent::Done) == before.write_from(n as int));
    }
}

/// A handshake that is over asks for nothing but its end, whatever is
/// reported to it afterwards.
pub proof fn lemma_finished_handshake_stays(s: Session, events: Seq<WriteEvent>)
    requires
        s.handshake is Finished,
    ensures
        s.handshake_run(events).0.handshake == s.handshake,
        s.handshake_run(events).1 == Seq::new(
            events.len(),
            |i: int| WriteAction::Finish(s.handshake->Finished_0),
        ),
    decreases events.len(),
{
    if events.len() == 0 {
        assert(s.handshake_run(events).1 =~= Seq::new(
            events.len(),
            |i: int| WriteAction::Finish(s.handshake->Finished_0),
        ));
    } else {
        lemma_finished_handshake_stays(s, events.drop_last());
        assert(s.handshake_run(events).1 =~= Seq::new(
            events.len(),
            |i: int| WriteAction::Finish(s.handshake->Finished_0),
        ));
    }
}

/// When the write of frame `failed` fails, the frames up to it have been
/// asked for in their order, the handshake ends with `Io(Write(failed))`,
/// and no write is asked for afterwards, whatever is reported.
pub proof fn lemma_handshake_stops_at_failure(s: Session, failed: nat, later: Seq<WriteEvent>)
    requires
        s.handshake is Idle,
        !s.fired,
        failed < s.protocol.frames.len() <= usize::MAX,
    ensures
        s.handshake_run(orderly(failed + 1).push(WriteEvent::Failed) + later).1 == (
            opened_then_written(s.endpoints.char000f, failed + 1).push(
                WriteAction::Finish(Err(Error::Io(Fault::Write(failed as usize)))),
            ) + Seq::new(
                later.len(),
                |i: int| WriteAction::Finish(Err(Error::Io(Fault::Write(failed as usize)))),
            )
        ),
        s.handshake_run(orderly(failed + 1).push(WriteEvent::Failed) + later).0.handshake
            == Handshake::Finished(Err(Error::Io(Fault::Write(failed as usize)))),
{
    let until = orderly(failed + 1).push(WriteEvent::Failed);
    lemma_handshake_in_order(s, failed);
    assert(until.drop_last() =~= orderly(failed + 1));
    let stopped = s.handshake_run(until).0;
    lemma_handshake_run_continues(s, until, later);
    lemma_finished_handshake_stays(stopped, later);
}

/// Against a token that has fired, a handshake that is not over ends with
/// `ShutdownRequested` at once: it asks neither for the channel nor for a
/// write, whatever is reported.
pub proof fn lemma_fired_token_stops_handshake(s: Session, event: WriteEvent)
    requires
        s.fired,
        !(s.handshake is Finished),
    ensures
        s.handshake_step(event).1 == WriteAction::Finish(Err(Error::ShutdownRequested)),
        s.handshake_step(event).0 == s.with_handshake(
            Handshake::Finished(Err(Error::ShutdownRequested)),
        ),
{
}

/// Against a token that has fired, a listener that is not over ends cleanly
/// at once: it asks neither for the channel nor for a read, and hands
/// nothing to the sink, whatever is reported.
pub proof fn lemma_fired_token_stops_listener(s: Session, event: ReadEvent)
    requires
        s.fired,
        !(s.listener is Finished),
    ensures
        s.listener_step(event).1 == ReadAction::Finish(Ok(())),
        s.listener_step(event).2 is None,
        s.listener_step(event).0 == s.with_listener(Listener::Finished(Ok(()))),
{
}

/// No step resolves an endpoint again or changes the protocol or the code
/// table, and no step makes a fired token quiet.
pub proof fn lemma_steps_keep_what_was_built(s: Session, write: WriteEvent, read: ReadEvent)
    ensures
        s.handshake_step(write).0.endpoints == s.endpoints,
        s.handshake_step(write).0.protocol == s.protocol,
        s.handshake_step(write).0.table == s.table,
        s.handshake_step(write).0.listener == s.listener,
        s.fired ==> s.handshake_step(write).0.fired,
        s.listener_step(read).0.endpoints == s.endpoints,
        s.listener_step(read).0.protocol == s.protocol,
        s.listener_step(read).0.table == s.table,
        s.listener_step(read).0.handshake == s.handshake,
        s.fired ==> s.listener_step(read).0.fired,
{
}

/// A malformed frame neither ends the listener nor reaches the sink: the
/// next read is asked for.
pub proof fn lemma_malformed_frame_is_skipped(s: Session, bytes: Vec<u8>)
    requires
        s.listener is Reading,
        !s.fired,
        bytes@.len() != 1,
        bytes@.len() != 2,
    ensures
        s.listener_step(ReadEvent::Frame(bytes)) == (s, ReadAction::Read, None::<InputEvent>),
{
}

/// While frames arrive and the token stays quiet, a reading listener asks
/// for the next read after each of them and hands their events to the sink
/// in arrival order, one for each frame of one or two bytes and none for
/// any other.
pub proof fn lemma_listener_delivers_in_order(s: Session, reports: Seq<ReadEvent>)
    requires
        s.listener is Reading,
        !s.fired,
        forall|i: int| 0 <= i < reports.len() ==> reports[i] is Frame,
    ensures
        s.listener_run(reports) == (
            s,
            Seq::new(reports.len(), |i: int| ReadAction::Read),
            decoded(s.table, reports),
        ),
    decreases reports.len(),
{
    if reports.len() == 0 {
        assert(s.listener_run(reports).1 =~= Seq::new(reports.len(), |i: int| ReadAction::Read));
    } else {
        lemma_listener_delivers_in_order(s, reports.drop_last());
        assert(s.listener_run(reports).1 =~= Seq::new(reports.len(), |i: int| ReadAction::Read));
    }
}

} // verus!
