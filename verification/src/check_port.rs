//! The handshake: does the device at the other end of a port speak the
//! protocol?
//!
//! The port is opened, stale input is discarded, the challenge is written and
//! one byte is awaited. The device is confirmed if and only if that byte is
//! the acknowledgement. A port that cannot be opened or written to ends the
//! handshake with the failure's message; a device that stays silent or
//! answers anything else is merely not confirmed.

use crate::exchange::{Action, ActionView, Event, EventView, LineSettings, Step, StepView, Trace};
use crate::wire::{
    challenge, handshake_challenge, is_acknowledgement, ACKNOWLEDGE, BAUD_RATE,
    HANDSHAKE_TIMEOUT_MS,
};
use vstd::prelude::*;

verus! {

/// Where a handshake stands: the action whose end it is waiting for.
#[derive(Clone, Copy, Debug, PartialEq, Eq, Structural)]
pub enum CheckPort {
    /// The port is being opened.
    Opening,
    /// Queued input is being discarded.
    Clearing,
    /// The challenge is being written.
    Writing,
    /// The device's answer is being read.
    Reading,
}

/// The settings a handshake opens its port with.
pub open spec fn handshake_settings() -> LineSettings {
    LineSettings { baud_rate: BAUD_RATE, timeout_ms: HANDSHAKE_TIMEOUT_MS }
}

impl CheckPort {
    /// The state a handshake on `port_name` starts in, and its first action.
    pub open spec fn spec_start(port_name: Seq<char>) -> (CheckPort, ActionView) {
        (CheckPort::Opening, ActionView::Open { port_name, settings: handshake_settings() })
    }

    /// What the handshake does when the action it was waiting for ends in
    /// `event`.
    pub open spec fn spec_step(self, event: EventView) -> StepView<CheckPort, bool> {
        match self {
            CheckPort::Opening => match event {
                EventView::Failed(message) => StepView::Finish { outcome: Err(message) },
                _ => StepView::Continue {
                    state: CheckPort::Clearing,
                    action: ActionView::ClearInput,
                },
            },
            // Clearing is best effort: however it ended, the challenge goes out.
            CheckPort::Clearing => StepView::Continue {
                state: CheckPort::Writing,
                action: ActionView::Write { bytes: challenge() },
            },
            CheckPort::Writing => match event {
                EventView::Failed(message) => StepView::Finish { outcome: Err(message) },
                _ => StepView::Continue { state: CheckPort::Reading, action: ActionView::ReadByte },
            },
            CheckPort::Reading => StepView::Finish {
                outcome: Ok(event == EventView::Received(ACKNOWLEDGE)),
            },
        }
    }

    /// The rest of a handshake that stands at `self` while the port answers
    /// with `events`, one for each action in turn. Events that come after the
    /// handshake has finished are not looked at.
    pub open spec fn run(self, events: Seq<EventView>) -> Trace<bool>
        decreases events.len(),
    {
        if events.len() == 0 {
            Trace { requests: Seq::empty(), outcome: None }
        } else {
            match self.spec_step(events[0]) {
                StepView::Finish { outcome } => Trace {
                    requests: Seq::empty(),
                    outcome: Some(outcome),
                },
                StepView::Continue { state, action } => {
                    let rest = state.run(events.drop_first());
                    Trace { requests: seq![action] + rest.requests, outcome: rest.outcome }
                },
            }
        }
    }

    /// Begins a handshake on the port called `port_name`.
    pub fn start(port_name: String) -> (begun: (CheckPort, Action))
        ensures
            (begun.0, begun.1@) == CheckPort::spec_start(port_name@),
    {
        let settings = LineSettings { baud_rate: BAUD_RATE, timeout_ms: HANDSHAKE_TIMEOUT_MS };
        (CheckPort::Opening, Action::Open { port_name, settings })
    }

    /// Takes the handshake one step on: `event` is how the action it was
    /// waiting for ended.
    pub fn step(self, event: Event) -> (next: Step<CheckPort, bool>)
        ensures
            next@ == self.spec_step(event@),
    {
        match self {
            CheckPort::Opening => match event {
                Event::Failed(message) => Step::Finish { outcome: Err(message) },
                _ => Step::Continue { state: CheckPort::Clearing, action: Action::ClearInput },
            },
            CheckPort::Clearing => Step::Continue {
                state: CheckPort::Writing,
                action: Action::Write { bytes: handshake_challenge() },
            },
            CheckPort::Writing => match event {
                Event::Failed(message) => Step::Finish { outcome: Err(message) },
                _ => Step::Continue { state: CheckPort::Reading, action: Action::ReadByte },
            },
            CheckPort::Reading => match event {
                Event::Received(byte) => Step::Finish { outcome: Ok(is_acknowledgement(byte)) },
                _ => Step::Finish { outcome: Ok(false) },
            },
        }
    }
}

/// The whole handshake on `port_name` while the port answers with `events`.
pub open spec fn check_port(port_name: Seq<char>, events: Seq<EventView>) -> Trace<bool> {
    let (state, action) = CheckPort::spec_start(port_name);
    let rest = state.run(events);
    Trace { requests: seq![action] + rest.requests, outcome: rest.outcome }
}

/// What a handshake asks of the port when nothing fails: open, clear, write
/// the challenge, read the answer.
pub open spec fn handshake_requests(port_name: Seq<char>) -> Seq<ActionView> {
    seq![
        ActionView::Open { port_name, settings: handshake_settings() },
        ActionView::ClearInput,
        ActionView::Write { bytes: challenge() },
        ActionView::ReadByte,
    ]
}

/// A handshake whose port opens and takes the challenge runs through all
/// four actions and confirms the device exactly when the byte read is the
/// acknowledgement. How the clearing ended is of no account.
pub proof fn lemma_confirmed_iff_acknowledged(
    port_name: Seq<char>,
    opened: EventView,
    cleared: EventView,
    written: EventView,
    answered: EventView,
)
    requires
        !(opened is Failed),
        !(written is Failed),
    ensures
        check_port(port_name, seq![opened, cleared, written, answered]).requests
            == handshake_requests(port_name),
        check_port(port_name, seq![opened, cleared, written, answered]).outcome == Some(
            Ok::<bool, Seq<char>>(answered == EventView::Received(ACKNOWLEDGE)),
        ),
{
    // The handshake is unfolded from its end: what is asked for from the
    // read on, from the write on, from the clearing on.
    let events = seq![opened, cleared, written, answered];
    let after_open = events.drop_first();
    let after_clear = after_open.drop_first();
    let after_write = after_clear.drop_first();
    assert(CheckPort::Reading.run(after_write).requests =~= Seq::empty());
    assert(CheckPort::Writing.run(after_clear).requests =~= seq![ActionView::ReadByte]);
    assert(CheckPort::Clearing.run(after_open).requests =~= seq![
        ActionView::Write { bytes: challenge() },
        ActionView::ReadByte,
    ]);
}

/// A port with no device behind it is not confirmed, and that is no error:
/// if the port opened and took the challenge, then a read that fails or
/// times out, or brings any byte but the acknowledgement, ends the
/// handshake with `false`.
pub proof fn lemma_unanswered_is_not_confirmed(
    port_name: Seq<char>,
    opened: EventView,
    cleared: EventView,
    written: EventView,
    answered: EventView,
)
    requires
        !(opened is Failed),
        !(written is Failed),
        answered != EventView::Received(ACKNOWLEDGE),
    ensures
        check_port(port_name, seq![opened, cleared, written, answered]).outcome == Some(
            Ok::<bool, Seq<char>>(false),
        ),
{
    lemma_confirmed_iff_acknowledged(port_name, opened, cleared, written, answered);
}

/// A port that cannot be opened ends the handshake at once, with the
/// failure's own message and nothing else asked of the port.
pub proof fn lemma_open_failure_ends_handshake(
    port_name: Seq<char>,
    message: Seq<char>,
    later: Seq<EventView>,
)
    ensures
        check_port(port_name, seq![EventView::Failed(message)] + later) == (Trace {
            requests: seq![ActionView::Open { port_name, settings: handshake_settings() }],
            outcome: Some(Err::<bool, Seq<char>>(message)),
        }),
{
}

/// A challenge that cannot be written ends the handshake with the failure's
/// own message, before anything is read.
pub proof fn lemma_write_failure_ends_handshake(
    port_name: Seq<char>,
    opened: EventView,
    cleared: EventView,
    message: Seq<char>,
    later: Seq<EventView>,
)
    requires
        !(opened is Failed),
    ensures
        check_port(port_name, seq![opened, cleared, EventView::Failed(message)] + later) == (Trace {
            requests: handshake_requests(port_name).take(3),
            outcome: Some(Err::<bool, Seq<char>>(message)),
        }),
{
    let events = seq![opened, cleared, EventView::Failed(message)] + later;
    let after_open = events.drop_first();
    let after_clear = after_open.drop_first();
    assert(CheckPort::Writing.run(after_clear).requests =~= Seq::empty());
    assert(CheckPort::Clearing.run(after_open).requests =~= seq![
        ActionView::Write { bytes: challenge() },
    ]);
    assert(check_port(port_name, events).requests =~= handshake_requests(port_name).take(3));
}

/// Whatever the port answers, a handshake keeps to its order: it asks for
/// the first of its four actions, or the first two, three or all four of
/// them, and for nothing else. Four answers from the port settle it.
pub proof fn lemma_handshake_keeps_its_order(port_name: Seq<char>, events: Seq<EventView>)
    ensures
        check_port(port_name, events).requests.len() >= 1,
        check_port(port_name, events).requests.is_prefix_of(handshake_requests(port_name)),
        events.len() >= 4 ==> check_port(port_name, events).outcome is Some,
{
    // From the last action back to the first: what a handshake asks for
    // from each state on is a prefix of what is left of the four.
    let all = handshake_requests(port_name);
    if events.len() >= 1 {
        let after_open = events.drop_first();
        if after_open.len() >= 1 {
            let after_clear = after_open.drop_first();
            if after_clear.len() >= 1 {
                let after_write = after_clear.drop_first();
                assert(CheckPort::Reading.run(after_write).requests =~= Seq::empty());
            }
            assert(CheckPort::Writing.run(after_clear).requests.is_prefix_of(all.skip(3)));
        }
        assert(CheckPort::Clearing.run(after_open).requests.is_prefix_of(all.skip(2)));
    }
    assert(CheckPort::Opening.run(events).requests.is_prefix_of(all.skip(1)));
}

} // verus!
