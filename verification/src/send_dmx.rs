//! The command: set one channel to one value, and do not wait for an answer.
//!
//! The port is opened and the command is written; that is all. Nothing is
//! read back, so the device cannot hold a command up. A command keeps no
//! state beyond its own two actions: what it writes depends on the channel
//! and the value alone.

use crate::exchange::{Action, ActionView, Event, EventView, LineSettings, Step, StepView, Trace};
use crate::wire::{command_payload, encode_command, BAUD_RATE, COMMAND_TIMEOUT_MS};
use vstd::prelude::*;

verus! {

/// Where a command stands: the action whose end it is waiting for.
#[derive(Clone, Copy, Debug, PartialEq, Eq, Structural)]
pub enum SendDmx {
    /// The port is being opened; the command is still to be written.
    Opening { channel: u16, value: u8 },
    /// The command is being written.
    Writing,
}

/// The settings a command opens its port with.
pub open spec fn command_settings() -> LineSettings {
    LineSettings { baud_rate: BAUD_RATE, timeout_ms: COMMAND_TIMEOUT_MS }
}

impl SendDmx {
    /// The state in which a command that sets `channel` to `value` on
    /// `port_name` starts, and its first action.
    pub open spec fn spec_start(port_name: Seq<char>, channel: u16, value: u8) -> (
        SendDmx,
        ActionView,
    ) {
        (
            SendDmx::Opening { channel, value },
            ActionView::Open { port_name, settings: command_settings() },
        )
    }

    /// What the command does when the action it was waiting for ends in
    /// `event`.
    pub open spec fn spec_step(self, event: EventView) -> StepView<SendDmx, ()> {
        match event {
            EventView::Failed(message) => StepView::Finish { outcome: Err(message) },
            _ => match self {
                SendDmx::Opening { channel, value } => StepView::Continue {
                    state: SendDmx::Writing,
                    action: ActionView::Write { bytes: command_payload(channel, value) },
                },
                SendDmx::Writing => StepView::Finish { outcome: Ok(()) },
            },
        }
    }

    /// The rest of a command that stands at `self` while the port answers
    /// with `events`, one for each action in turn. Events that come after the
    /// command has finished are not looked at.
    pub open spec fn run(self, events: Seq<EventView>) -> Trace<()>
        decreases events.len(),
    {
        if events.len() == 0 {
            Trace { requests: Seq::empty(), outcome: None }
        } else {
            match self.spec_step(events[0]) {
                StepView::Finish { outcome } => Trace {
                    requests: Seq::empty(),
                    outcome: Some(outcome),
                },
                StepView::Continue { state, action } => {
                    let rest = state.run(events.drop_first());
                    Trace { requests: seq![action] + rest.requests, outcome: rest.outcome }
                },
            }
        }
    }

    /// Begins a command that sets `channel` to `value` through the port
    /// called `port_name`.
    pub fn start(port_name: String, channel: u16, value: u8) -> (begun: (SendDmx, Action))
        ensures
            (begun.0, begun.1@) == SendDmx::spec_start(port_name@, channel, value),
    {
        let settings = LineSettings { baud_rate: BAUD_RATE, timeout_ms: COMMAND_TIMEOUT_MS };
        (SendDmx::Opening { channel, value }, Action::Open { port_name, settings })
    }

    /// Takes the command one step on: `event` is how the action it was
    /// waiting for ended.
    pub fn step(self, event: Event) -> (next: Step<SendDmx, ()>)
        ensures
            next@ == self.spec_step(event@),
    {
        match event {
            Event::Failed(message) => Step::Finish { outcome: Err(message) },
            _ => match self {
                SendDmx::Opening { channel, value } => Step::Continue {
                    state: SendDmx::Writing,
                    action: Action::Write { bytes: encode_command(channel, value) },
                },
                SendDmx::Writing => Step::Finish { outcome: Ok(()) },
            },
        }
    }
}

/// The whole command that sets `channel` to `value` on `port_name` while the
/// port answers with `events`.
pub open spec fn send_dmx(
    port_name: Seq<char>,
    channel: u16,
    value: u8,
    events: Seq<EventView>,
) -> Trace<()> {
    let (state, action) = SendDmx::spec_start(port_name, channel, value);
    let rest = state.run(events);
    Trace { requests: seq![action] + rest.requests, outcome: rest.outcome }
}

/// What a command asks of the port when the port opens: open, then write the
/// command.
pub open spec fn command_requests(port_name: Seq<char>, channel: u16, value: u8) -> Seq<
    ActionView,
> {
    seq![
        ActionView::Open { port_name, settings: command_settings() },
        ActionView::Write { bytes: command_payload(channel, value) },
    ]
}

/// A command whose port opens and takes the bytes succeeds, having written
/// the command once and asked for nothing else.
pub proof fn lemma_command_is_written_once(
    port_name: Seq<char>,
    channel: u16,
    value: u8,
    opened: EventView,
    written: EventView,
    later: Seq<EventView>,
)
    requires
        !(opened is Failed),
        !(written is Failed),
    ensures
        send_dmx(port_name, channel, value, seq![opened, written] + later) == (Trace {
            requests: command_requests(port_name, channel, value),
            outcome: Some(Ok::<(), Seq<char>>(())),
        }),
{
    let events = seq![opened, written] + later;
    assert(SendDmx::Writing.run(events.drop_first()).requests =~= Seq::empty());
    assert(send_dmx(port_name, channel, value, events).requests =~= command_requests(
        port_name,
        channel,
        value,
    ));
}

/// A port that cannot be opened ends the command at once, with the failure's
/// own message and nothing written.
pub proof fn lemma_open_failure_ends_command(
    port_name: Seq<char>,
    channel: u16,
    value: u8,
    message: Seq<char>,
    later: Seq<EventView>,
)
    ensures
        send_dmx(port_name, channel, value, seq![EventView::Failed(message)] + later) == (Trace {
            requests: command_requests(port_name, channel, value).take(1),
            outcome: Some(Err::<(), Seq<char>>(message)),
        }),
{
    let events = seq![EventView::Failed(message)] + later;
    assert(send_dmx(port_name, channel, value, events).requests =~= command_requests(
        port_name,
        channel,
        value,
    ).take(1));
}

/// A command that cannot be written ends with the failure's own message.
pub proof fn lemma_write_failure_ends_command(
    port_name: Seq<char>,
    channel: u16,
    value: u8,
    opened: EventView,
    message: Seq<char>,
    later: Seq<EventView>,
)
    requires
        !(opened is Failed),
    ensures
        send_dmx(port_name, channel, value, seq![opened, EventView::Failed(message)] + later) == (
        Trace {
            requests: command_requests(port_name, channel, value),
            outcome: Some(Err::<(), Seq<char>>(message)),
        }),
{
    let events = seq![opened, EventView::Failed(message)] + later;
    assert(SendDmx::Writing.run(events.drop_first()).requests =~= Seq::empty());
    assert(send_dmx(port_name, channel, value, events).requests =~= command_requests(
        port_name,
        channel,
        value,
    ));
}

/// Whatever the port answers, a command asks for no more than to open the
/// port, with the command timeout, and then to write: it never reads, and so
/// never waits for the device. Two answers from the port settle it.
pub proof fn lemma_command_never_reads(
    port_name: Seq<char>,
    channel: u16,
    value: u8,
    events: Seq<EventView>,
)
    ensures
        send_dmx(port_name, channel, value, events).requests == command_requests(
            port_name,
            channel,
            value,
        ) || send_dmx(port_name, channel, value, events).requests == command_requests(
            port_name,
            channel,
            value,
        ).take(1),
        forall|i: int|
            0 <= i < send_dmx(port_name, channel, value, events).requests.len() ==> !(
            #[trigger] send_dmx(port_name, channel, value, events).requests[i] is ReadByte),
        events.len() >= 2 ==> send_dmx(port_name, channel, value, events).outcome is Some,
{
    if events.len() >= 2 && !(events[0] is Failed) {
        assert(SendDmx::Writing.run(events.drop_first()).requests =~= Seq::empty());
    }
}

/// Sending is repeatable: two commands with the same channel and value write
/// the same bytes, whichever ports they go through and whatever those ports
/// answer. Nothing is carried over from one command to the next.
pub proof fn lemma_same_command_same_bytes(
    channel: u16,
    value: u8,
    first_port: Seq<char>,
    first_events: Seq<EventView>,
    second_port: Seq<char>,
    second_events: Seq<EventView>,
    i: int,
    j: int,
)
    requires
        0 <= i < send_dmx(first_port, channel, value, first_events).requests.len(),
        0 <= j < send_dmx(second_port, channel, value, second_events).requests.len(),
        send_dmx(first_port, channel, value, first_events).requests[i] is Write,
        send_dmx(second_port, channel, value, second_events).requests[j] is Write,
    ensures
        send_dmx(first_port, channel, value, first_events).requests[i] == send_dmx(
            second_port,
            channel,
            value,
            second_events,
        ).requests[j],
        send_dmx(first_port, channel, value, first_events).requests[i] == (ActionView::Write {
            bytes: command_payload(channel, value),
        }),
{
    lemma_command_never_reads(first_port, channel, value, first_events);
    lemma_command_never_reads(second_port, channel, value, second_events);
}

} // verus!
