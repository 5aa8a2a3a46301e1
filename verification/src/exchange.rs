//! The vocabulary of an exchange: what a session asks of the serial port and
//! what the port answers.
//!
//! A session never touches a port. It hands out one [`Action`] at a time; the
//! caller performs it and reports how it ended as an [`Event`]; the session
//! then says what comes next, until it finishes with an outcome. The caller
//! holds the port for that one exchange and closes it when the exchange is
//! over, however it ended.
//!
//! A session takes every event in every state. When it opens or writes,
//! only a failure tells it anything; when it clears, nothing does; when it
//! reads, only a byte does.

use vstd::prelude::*;

verus! {

/// The parameters a port is opened with.
#[derive(Clone, Copy, Debug, PartialEq, Eq, Structural)]
pub struct LineSettings {
    /// Symbol rate, in baud.
    pub baud_rate: u32,
    /// Limit on each blocking read and write, in milliseconds.
    pub timeout_ms: u64,
}

/// One thing to do on the serial port.
#[derive(Debug, PartialEq, Eq)]
pub enum Action {
    /// Open the port called `port_name` with `settings`.
    Open { port_name: String, settings: LineSettings },
    /// Discard whatever input is already queued on the open port.
    ClearInput,
    /// Write all of `bytes` to the open port.
    Write { bytes: Vec<u8> },
    /// Read exactly one byte from the open port.
    ReadByte,
}

/// The mathematical content of an [`Action`].
pub enum ActionView {
    Open { port_name: Seq<char>, settings: LineSettings },
    ClearInput,
    Write { bytes: Seq<u8> },
    ReadByte,
}

impl View for Action {
    type V = ActionView;

    open spec fn view(&self) -> ActionView {
        match *self {
            Action::Open { port_name, settings } => ActionView::Open {
                port_name: port_name@,
                settings,
            },
            Action::ClearInput => ActionView::ClearInput,
            Action::Write { bytes } => ActionView::Write { bytes: bytes@ },
            Action::ReadByte => ActionView::ReadByte,
        }
    }
}

/// How an [`Action`] ended.
#[derive(Debug, PartialEq, Eq)]
pub enum Event {
    /// The action was carried out and brought nothing back.
    Completed,
    /// The action was carried out and brought back this byte.
    Received(u8),
    /// The action was not carried out; the text is the driver's own message.
    /// A read that timed out is a failure like any other.
    Failed(String),
}

/// The mathematical content of an [`Event`].
pub enum EventView {
    Completed,
    Received(u8),
    Failed(Seq<char>),
}

impl View for Event {
    type V = EventView;

    open spec fn view(&self) -> EventView {
        match *self {
            Event::Completed => EventView::Completed,
            Event::Received(byte) => EventView::Received(byte),
            Event::Failed(message) => EventView::Failed(message@),
        }
    }
}

/// What a session of kind `S` does after an event.
#[derive(Debug, PartialEq, Eq)]
pub enum Step<S, T> {
    /// The session goes on in `state` and asks for `action`.
    Continue { state: S, action: Action },
    /// The session is over. Its outcome is a value of type `T`, or the
    /// message of the failure that ended it.
    Finish { outcome: Result<T, String> },
}

/// The mathematical content of a [`Step`].
pub enum StepView<S, T> {
    Continue { state: S, action: ActionView },
    Finish { outcome: Result<T, Seq<char>> },
}

impl<S, T> View for Step<S, T> {
    type V = StepView<S, T>;

    open spec fn view(&self) -> StepView<S, T> {
        match *self {
            Step::Continue { state, action } => StepView::Continue { state, action: action@ },
            Step::Finish { outcome } => StepView::Finish {
                outcome: match outcome {
                    Ok(value) => Ok(value),
                    Err(message) => Err(message@),
                },
            },
        }
    }
}

/// A whole exchange as seen from the port: the actions asked for, in order,
/// and the outcome, which is `None` as long as the exchange has not finished.
pub struct Trace<T> {
    pub requests: Seq<ActionView>,
    pub outcome: Option<Result<T, Seq<char>>>,
}

} // verus!
