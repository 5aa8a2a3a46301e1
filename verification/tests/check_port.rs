use dmx_serial::check_port::CheckPort;
use dmx_serial::exchange::{Action, Event, LineSettings, Step};

/// Plays a handshake against a port that answers with `script`, one event
/// for each action in turn.
fn play(port_name: &str, script: Vec<Event>) -> (Vec<Action>, Option<Result<bool, String>>) {
    let (mut state, first) = CheckPort::start(port_name.to_string());
    let mut asked: Vec<Action> = vec![first];
    for event in script {
        match state.step(event) {
            Step::Continue { state: next, action } => {
                state = next;
                asked.push(action);
            }
            Step::Finish { outcome } => return (asked, Some(outcome)),
        }
    }
    (asked, None)
}

fn open_action(port_name: &str) -> Action {
    Action::Open {
        port_name: port_name.to_string(),
        settings: LineSettings { baud_rate: 115200, timeout_ms: 1000 },
    }
}

fn all_four(port_name: &str) -> Vec<Action> {
    vec![
        open_action(port_name),
        Action::ClearInput,
        Action::Write { bytes: b"CHECK\n".to_vec() },
        Action::ReadByte,
    ]
}

#[test]
fn handshake_starts_by_opening_the_port() {
    let (state, action) = CheckPort::start("COM3".to_string());
    assert_eq!(state, CheckPort::Opening);
    assert_eq!(action, open_action("COM3"));
}

#[test]
fn handshake_opens_at_115200_baud_with_one_second() {
    let (_, action) = CheckPort::start("/dev/ttyUSB0".to_string());
    match action {
        Action::Open { port_name, settings } => {
            assert_eq!(port_name, "/dev/ttyUSB0");
            assert_eq!(settings.baud_rate, 115200);
            assert_eq!(settings.timeout_ms, 1000);
        }
        other => panic!("expected an open, got {:?}", other),
    }
}

#[test]
fn handshake_takes_any_port_name() {
    for name in ["", " ", "COM1", "/dev/tty.usbserial-1410", "\\\\.\\COM12", "no such port"] {
        let (state, action) = CheckPort::start(name.to_string());
        assert_eq!(state, CheckPort::Opening);
        assert_eq!(action, open_action(name));
    }
}

#[test]
fn handshake_is_confirmed_by_exclamation_mark() {
    let (asked, outcome) = play(
        "COM3",
        vec![Event::Completed, Event::Completed, Event::Completed, Event::Received(b'!')],
    );
    assert_eq!(asked, all_four("COM3"));
    assert_eq!(outcome, Some(Ok(true)));
}

#[test]
fn handshake_is_not_confirmed_by_another_byte() {
    let (asked, outcome) = play(
        "COM3",
        vec![Event::Completed, Event::Completed, Event::Completed, Event::Received(b'?')],
    );
    assert_eq!(asked, all_four("COM3"));
    assert_eq!(outcome, Some(Ok(false)));
}

#[test]
fn handshake_is_confirmed_by_no_byte_but_0x21() {
    for byte in 0u8..=255u8 {
        let (_, outcome) = play(
            "COM3",
            vec![Event::Completed, Event::Completed, Event::Completed, Event::Received(byte)],
        );
        assert_eq!(outcome, Some(Ok(byte == 0x21)), "byte {}", byte);
    }
}

#[test]
fn handshake_with_silent_device_is_false_not_an_error() {
    let (asked, outcome) = play(
        "COM3",
        vec![
            Event::Completed,
            Event::Completed,
            Event::Completed,
            Event::Failed("Operation timed out".to_string()),
        ],
    );
    assert_eq!(asked, all_four("COM3"));
    assert_eq!(outcome, Some(Ok(false)));
}

#[test]
fn handshake_on_a_loopback_reads_its_own_challenge_and_is_false() {
    let (asked, outcome) = play(
        "COM3",
        vec![Event::Completed, Event::Completed, Event::Completed, Event::Received(b'C')],
    );
    assert_eq!(asked, all_four("COM3"));
    assert_eq!(outcome, Some(Ok(false)));
}

#[test]
fn handshake_with_read_that_brings_nothing_is_false() {
    let (_, outcome) = play(
        "COM3",
        vec![Event::Completed, Event::Completed, Event::Completed, Event::Completed],
    );
    assert_eq!(outcome, Some(Ok(false)));
}

#[test]
fn handshake_reports_open_failure_with_its_message() {
    let (asked, outcome) = play("COM9", vec![Event::Failed("No such file or directory".to_string())]);
    assert_eq!(asked, vec![open_action("COM9")]);
    assert_eq!(outcome, Some(Err("No such file or directory".to_string())));
}

#[test]
fn handshake_on_busy_port_fails_with_the_open_error() {
    let (asked, outcome) = play("COM3", vec![Event::Failed("Device or resource busy".to_string())]);
    assert_eq!(asked, vec![open_action("COM3")]);
    assert_eq!(outcome, Some(Err("Device or resource busy".to_string())));
}

#[test]
fn handshake_keeps_an_empty_failure_message() {
    let (_, outcome) = play("COM3", vec![Event::Failed(String::new())]);
    assert_eq!(outcome, Some(Err(String::new())));
}

#[test]
fn handshake_ignores_a_failed_clear() {
    let (asked, outcome) = play(
        "COM3",
        vec![
            Event::Completed,
            Event::Failed("purge refused".to_string()),
            Event::Completed,
            Event::Received(0x21),
        ],
    );
    assert_eq!(asked, all_four("COM3"));
    assert_eq!(outcome, Some(Ok(true)));
}

#[test]
fn handshake_reports_write_failure_with_its_message() {
    let (asked, outcome) = play(
        "COM3",
        vec![Event::Completed, Event::Completed, Event::Failed("Broken pipe".to_string())],
    );
    assert_eq!(
        asked,
        vec![open_action("COM3"), Action::ClearInput, Action::Write { bytes: b"CHECK\n".to_vec() }]
    );
    assert_eq!(outcome, Some(Err("Broken pipe".to_string())));
}

#[test]
fn handshake_is_unfinished_until_the_answer() {
    let (asked, outcome) = play("COM3", vec![]);
    assert_eq!(asked, vec![open_action("COM3")]);
    assert_eq!(outcome, None);

    let (asked, outcome) = play("COM3", vec![Event::Completed, Event::Completed, Event::Completed]);
    assert_eq!(asked, all_four("COM3"));
    assert_eq!(outcome, None);
}

#[test]
fn handshake_steps_one_state_at_a_time() {
    assert_eq!(
        CheckPort::Opening.step(Event::Completed),
        Step::Continue { state: CheckPort::Clearing, action: Action::ClearInput }
    );
    assert_eq!(
        CheckPort::Clearing.step(Event::Completed),
        Step::Continue {
            state: CheckPort::Writing,
            action: Action::Write { bytes: b"CHECK\n".to_vec() }
        }
    );
    assert_eq!(
        CheckPort::Writing.step(Event::Completed),
        Step::Continue { state: CheckPort::Reading, action: Action::ReadByte }
    );
    assert_eq!(CheckPort::Reading.step(Event::Received(0x21)), Step::Finish { outcome: Ok(true) });
    assert_eq!(CheckPort::Reading.step(Event::Received(0x20)), Step::Finish { outcome: Ok(false) });
    assert_eq!(CheckPort::Reading.step(Event::Received(0x22)), Step::Finish { outcome: Ok(false) });
}

#[test]
fn handshake_counts_a_stray_byte_as_completion() {
    assert_eq!(
        CheckPort::Opening.step(Event::Received(0x21)),
        Step::Continue { state: CheckPort::Clearing, action: Action::ClearInput }
    );
    assert_eq!(
        CheckPort::Writing.step(Event::Received(0x21)),
        Step::Continue { state: CheckPort::Reading, action: Action::ReadByte }
    );
}

#[test]
fn handshake_twice_asks_the_same() {
    let script = || vec![Event::Completed, Event::Completed, Event::Completed, Event::Received(b'!')];
    assert_eq!(play("COM3", script()), play("COM3", script()));
}
