//! Notification frames and the input events that they stand for.
//!
//! A frame of one byte is an 8-bit code, a frame of two bytes a 16-bit code
//! with its high byte first. A code table names the codes it knows; a code
//! that it does not know is reported as such, with the code, and never
//! dropped or turned into another event.

use crate::error::Error;
use crate::search::{is_first_at, lemma_first_match, lemma_no_match};
use vstd::prelude::*;

verus! {

/// The numeric code carried by a notification frame.
#[derive(Clone, Copy, Debug, PartialEq, Eq, Structural)]
pub enum Code {
    /// The code of a one-byte frame.
    Short(u8),
    /// The code of a two-byte frame.
    Long(u16),
}

/// What the decoder hands to its consumer for one notification.
#[derive(Clone, Copy, Debug, PartialEq, Eq, Structural)]
pub enum InputEvent {
    /// The input that the code table names for the code.
    Named(u32),
    /// A code of valid length that the code table does not hold.
    Unknown(Code),
}

/// One row of a code table.
#[derive(Clone, Copy, Debug, PartialEq, Eq, Structural)]
pub struct Binding {
    pub code: Code,
    /// The input that the code stands for.
    pub input: u32,
}

/// The static lookup from codes to inputs. Its rows with a `Short` code are
/// the 8-bit table, those with a `Long` code the 16-bit table; where a code
/// stands in several rows, the first one counts.
#[derive(Clone, Debug, PartialEq, Eq)]
pub struct CodeTable {
    pub bindings: Vec<Binding>,
}

impl View for CodeTable {
    type V = Seq<Binding>;

    /// The rows of the table, in order.
    open spec fn view(&self) -> Seq<Binding> {
        self.bindings@
    }
}

/// The 16-bit code whose bytes, high byte first, are `high` and `low`.
pub open spec fn big_endian(high: u8, low: u8) -> u16 {
    (high * 256 + low) as u16
}

/// The code that a frame carries, or why it carries none.
pub open spec fn frame_code(frame: Seq<u8>) -> Result<Code, Error> {
    if frame.len() == 1 {
        Ok(Code::Short(frame[0]))
    } else if frame.len() == 2 {
        Ok(Code::Long(big_endian(frame[0], frame[1])))
    } else {
        Err(Error::MalformedFrame(frame.len() as usize))
    }
}

/// The codes of the rows of a table, in order.
pub open spec fn codes_of(bindings: Seq<Binding>) -> Seq<Code> {
    Seq::new(bindings.len(), |i: int| bindings[i].code)
}

/// The event that a table gives for a code.
pub open spec fn event_of(bindings: Seq<Binding>, code: Code) -> InputEvent {
    match codes_of(bindings).index_of_first(code) {
        Some(i) => InputEvent::Named(bindings[i].input),
        None => InputEvent::Unknown(code),
    }
}

/// The event that a frame produces under a table, if it produces one.
pub open spec fn frame_event(bindings: Seq<Binding>, frame: Seq<u8>) -> Option<InputEvent> {
    match frame_code(frame) {
        Ok(code) => Some(event_of(bindings, code)),
        Err(_) => None,
    }
}

/// Reads the code out of a notification frame. Fails with
/// `MalformedFrame` exactly when the frame has neither one byte nor two.
pub fn decode(frame: &[u8]) -> (code: Result<Code, Error>)
    ensures
        code == frame_code(frame@),
{
    if frame.len() == 1 {
        Ok(Code::Short(frame[0]))
    } else if frame.len() == 2 {
        let high: u16 = frame[0] as u16;
        let low: u16 = frame[1] as u16;
        Ok(Code::Long(high * 256 + low))
    } else {
        Err(Error::MalformedFrame(frame.len()))
    }
}

impl CodeTable {
    /// A table that knows no code.
    pub fn new() -> (table: CodeTable)
        ensures
            table@ == Seq::<Binding>::empty(),
    {
        CodeTable { bindings: Vec::new() }
    }

    /// Adds a row after those that the table holds.
    pub fn bind(&mut self, code: Code, input: u32)
        ensures
            final(self)@ == old(self)@.push(Binding { code, input }),
    {
        self.bindings.push(Binding { code, input });
    }

    /// The event for `code`: the input of the first row that holds the code,
    /// or `Unknown(code)` where no row does.
    pub fn lookup(&self, code: Code) -> (event: InputEvent)
        ensures
            event == event_of(self@, code),
    {
        let mut i: usize = 0;
        while i < self.bindings.len()
            invariant
                i <= self.bindings@.len(),
                forall|j: int| 0 <= j < i ==> codes_of(self.bindings@)[j] != code,
            decreases self.bindings@.len() - i,
        {
            if same_code(self.bindings[i].code, code) {
                proof {
                    lemma_first_match(codes_of(self.bindings@), code, i as int);
                }
                return InputEvent::Named(self.bindings[i].input);
            }
            i += 1;
        }
        proof {
            lemma_no_match(codes_of(self.bindings@), code);
        }
        InputEvent::Unknown(code)
    }

    /// The event for the code of a one-byte frame.
    pub fn from_u8(&self, code: u8) -> (event: InputEvent)
        ensures
            event == event_of(self@, Code::Short(code)),
    {
        self.lookup(Code::Short(code))
    }

    /// The event for the code of a two-byte frame.
    pub fn from_u16(&self, code: u16) -> (event: InputEvent)
        ensures
            event == event_of(self@, Code::Long(code)),
    {
        self.lookup(Code::Long(code))
    }

    /// Decodes one notification frame: the event of its code, or nothing for
    /// a frame that is malformed.
    pub fn event(&self, frame: &[u8]) -> (event: Option<InputEvent>)
        ensures
            event == frame_event(self@, frame@),
    {
        match decode(frame) {
            Ok(code) => Some(self.lookup(code)),
            Err(_) => None,
        }
    }
}

/// Whether two codes are the same code of the same width.
fn same_code(a: Code, b: Code) -> (same: bool)
    ensures
        same == (a == b),
{
    match (a, b) {
        (Code::Short(x), Code::Short(y)) => x == y,
        (Code::Long(x), Code::Long(y)) => x == y,
        _ => false,
    }
}

/// A frame produces an event exactly when it has one byte or two, and the
/// event is then decided by the table and the bytes alone.
pub proof fn lemma_frame_event(bindings: Seq<Binding>, frame: Seq<u8>)
    ensures
        frame_event(bindings, frame) is Some <==> frame.len() == 1 || frame.len() == 2,
        frame.len() == 1 ==> frame_event(bindings, frame) == Some(
            event_of(bindings, Code::Short(frame[0])),
        ),
        frame.len() == 2 ==> frame_event(bindings, frame) == Some(
            event_of(bindings, Code::Long(big_endian(frame[0], frame[1]))),
        ),
{
}

/// The first row that holds a code decides its event: the input of that
/// row, whatever rows come after it.
pub proof fn lemma_event_of_row(bindings: Seq<Binding>, i: int)
    requires
        is_first_at(codes_of(bindings), bindings[i].code, i),
    ensures
        event_of(bindings, bindings[i].code) == InputEvent::Named(bindings[i].input),
{
    lemma_first_match(codes_of(bindings), bindings[i].code, i);
}

} // verus!
