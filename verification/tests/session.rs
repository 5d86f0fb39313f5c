use kbd_backlight::fraction::Fraction;
use kbd_backlight::session::{
    next_action, step, Action, Event, KeyboardBacklightRequest, KeyboardBacklightUpdate, State,
};

fn frac(num: i32, den: i32) -> Fraction {
    Fraction::new(num, den).expect("positive denominator")
}

#[test]
fn connect_success_emits_sender_then_brightness() {
    // connection succeeds, current = 3, max = 10: initial brightness 0.3
    let r = step(
        State::Ready,
        Event::Connected {
            current: Some(3),
            max: Some(10),
        },
    );
    assert_eq!(r.state, State::Waiting);
    assert_eq!(
        r.updates,
        vec![
            KeyboardBacklightUpdate::Sender,
            KeyboardBacklightUpdate::Brightness(Some(Fraction { num: 3, den: 10 })),
        ]
    );
    assert_eq!(r.write, None);
}

#[test]
fn connect_success_with_failed_read_reports_unknown() {
    let r = step(
        State::Ready,
        Event::Connected {
            current: None,
            max: Some(10),
        },
    );
    assert_eq!(r.state, State::Waiting);
    assert_eq!(
        r.updates,
        vec![
            KeyboardBacklightUpdate::Sender,
            KeyboardBacklightUpdate::Brightness(None),
        ]
    );
}

#[test]
fn connect_failure_is_silent_and_terminal() {
    let r = step(State::Ready, Event::ConnectFailed);
    assert_eq!(r.state, State::Finished);
    assert!(r.updates.is_empty());
    assert_eq!(r.write, None);
    // the driver then suspends forever instead of retrying
    assert_eq!(next_action(State::Finished), Action::Pend);
}

#[test]
fn get_reports_current_brightness() {
    let r = step(
        State::Waiting,
        Event::Command {
            request: KeyboardBacklightRequest::Get,
            current: Some(5),
            max: Some(10),
        },
    );
    assert_eq!(r.state, State::Waiting);
    assert_eq!(
        r.updates,
        vec![KeyboardBacklightUpdate::Brightness(Some(Fraction {
            num: 5,
            den: 10
        }))]
    );
    assert_eq!(r.write, None);
}

#[test]
fn get_with_failed_read_reports_unknown() {
    let r = step(
        State::Waiting,
        Event::Command {
            request: KeyboardBacklightRequest::Get,
            current: Some(5),
            max: None,
        },
    );
    assert_eq!(r.state, State::Waiting);
    assert_eq!(r.updates, vec![KeyboardBacklightUpdate::Brightness(None)]);
}

#[test]
fn set_writes_rounded_units() {
    // Set(0.75) with max 10: the device is written 8
    let r = step(
        State::Waiting,
        Event::Command {
            request: KeyboardBacklightRequest::SetBrightness(frac(3, 4)),
            current: None,
            max: Some(10),
        },
    );
    assert_eq!(r.state, State::Waiting);
    assert!(r.updates.is_empty(), "a Set is never confirmed");
    assert_eq!(r.write, Some(8));
}

#[test]
fn set_clamps_negative_fraction_to_zero() {
    // Set(-0.2) with max 10: the device is written 0
    let r = step(
        State::Waiting,
        Event::Command {
            request: KeyboardBacklightRequest::SetBrightness(frac(-1, 5)),
            current: None,
            max: Some(10),
        },
    );
    assert_eq!(r.write, Some(0));
    assert_eq!(r.state, State::Waiting);
}

#[test]
fn set_clamps_overlarge_fraction_to_maximum() {
    let r = step(
        State::Waiting,
        Event::Command {
            request: KeyboardBacklightRequest::SetBrightness(frac(6, 5)),
            current: None,
            max: Some(10),
        },
    );
    assert_eq!(r.write, Some(10));
}

#[test]
fn set_with_failed_maximum_read_is_dropped() {
    let r = step(
        State::Waiting,
        Event::Command {
            request: KeyboardBacklightRequest::SetBrightness(frac(3, 4)),
            current: None,
            max: None,
        },
    );
    assert_eq!(r.state, State::Waiting);
    assert!(r.updates.is_empty());
    assert_eq!(r.write, None);
}

#[test]
fn closed_channel_ends_the_session() {
    let r = step(State::Waiting, Event::Closed);
    assert_eq!(r.state, State::Finished);
    assert!(r.updates.is_empty());
    assert_eq!(r.write, None);
}

#[test]
fn finished_is_a_sink_for_every_event() {
    let events = [
        Event::ConnectFailed,
        Event::Connected {
            current: Some(3),
            max: Some(10),
        },
        Event::Closed,
        Event::Command {
            request: KeyboardBacklightRequest::Get,
            current: Some(3),
            max: Some(10),
        },
        Event::Command {
            request: KeyboardBacklightRequest::SetBrightness(frac(1, 2)),
            current: None,
            max: Some(10),
        },
    ];
    for e in events {
        let r = step(State::Finished, e);
        assert_eq!(r.state, State::Finished);
        assert!(r.updates.is_empty());
        assert_eq!(r.write, None);
    }
}

#[test]
fn each_phase_prescribes_its_work() {
    assert_eq!(next_action(State::Ready), Action::Connect);
    assert_eq!(next_action(State::Waiting), Action::AwaitCommand);
    assert_eq!(next_action(State::Finished), Action::Pend);
}

#[test]
fn a_whole_run_emits_sender_first() {
    // drive a small session and collect everything it emits
    let mut state = State::Ready;
    let mut emitted = Vec::new();
    let script = [
        Event::Connected {
            current: Some(2),
            max: Some(10),
        },
        Event::Command {
            request: KeyboardBacklightRequest::SetBrightness(frac(3, 4)),
            current: None,
            max: Some(10),
        },
        Event::Command {
            request: KeyboardBacklightRequest::Get,
            current: Some(8),
            max: Some(10),
        },
        Event::Closed,
    ];
    let mut writes = Vec::new();
    for e in script {
        let r = step(state, e);
        state = r.state;
        emitted.extend(r.updates);
        if let Some(w) = r.write {
            writes.push(w);
        }
    }
    assert_eq!(state, State::Finished);
    assert_eq!(writes, vec![8]);
    assert_eq!(
        emitted,
        vec![
            KeyboardBacklightUpdate::Sender,
            KeyboardBacklightUpdate::Brightness(Some(Fraction { num: 2, den: 10 })),
            KeyboardBacklightUpdate::Brightness(Some(Fraction { num: 8, den: 10 })),
        ]
    );
}

#[test]
fn a_failed_run_emits_nothing_at_all() {
    // connection open fails: no updates ever, the task goes permanently idle
    let mut state = State::Ready;
    let mut emitted = Vec::new();
    let r = step(state, Event::ConnectFailed);
    state = r.state;
    emitted.extend(r.updates);
    assert_eq!(state, State::Finished);
    assert_eq!(next_action(state), Action::Pend);
    assert!(emitted.is_empty());
}
