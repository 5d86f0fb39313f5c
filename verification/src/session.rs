//! The session state machine.
//!
//! One backlight session is a finite state machine advanced by a driver
//! loop. The driver owns everything opaque — the bus connection, the remote
//! proxy, the command channel ends — performs the blocking work that the
//! current phase calls for ([`next_action`]), and hands the outcome back as
//! an [`Event`] to [`step`], which decides the next phase, the updates to
//! emit toward the UI, and the device write to issue, all under exact
//! contracts.
//!
//! The driver's protocol:
//! - in [`State::Ready`] it opens the bus connection and builds the proxy;
//!   on success it creates a fresh command channel, reads the two
//!   brightness properties and reports [`Event::Connected`], else
//!   [`Event::ConnectFailed`];
//! - in [`State::Waiting`] it awaits the next command; it reports a closed
//!   channel as [`Event::Closed`], a `Get` together with both property
//!   reads, and a `Set` together with the re-read device maximum;
//! - in [`State::Finished`] it suspends forever: no event is ever produced
//!   again.
//!
//! A failed remote read is reported as `None`; the machine never sees an
//! error type, matching the rule that every failure past connection setup
//! degrades only the operation at hand.

use vstd::prelude::*;
use crate::fraction::{frac_of, read_fraction, write_units, write_units_spec, Fraction};

verus! {

/// The phase of one backlight session.
#[derive(Clone, Copy, Debug, PartialEq, Eq)]
pub enum State {
    /// No connection established yet.
    Ready,
    /// Connected: the driver holds a live proxy to the remote object and
    /// the receiving end of the command channel.
    Waiting,
    /// Terminal: connection or proxy setup failed, or the UI closed its
    /// command channel. Never left again.
    Finished,
}

/// A request from the UI, received over the command channel.
#[derive(Clone, Copy, Debug, PartialEq, Eq)]
pub enum KeyboardBacklightRequest {
    /// Report the current brightness.
    Get,
    /// Set the brightness to a fraction of the device maximum. The value
    /// is not pre-validated by the sender; the write path clamps it into
    /// `[0, 1]`.
    SetBrightness(Fraction),
}

impl KeyboardBacklightRequest {
    /// Any fraction carried by the request is well formed.
    pub open spec fn wf(self) -> bool {
        match self {
            KeyboardBacklightRequest::SetBrightness(f) => f.wf(),
            KeyboardBacklightRequest::Get => true,
        }
    }
}

/// An update emitted toward the UI.
#[derive(Clone, Copy, Debug, PartialEq, Eq)]
pub enum KeyboardBacklightUpdate {
    /// Stands for the one-time delivery of the command channel's sending
    /// half, emitted immediately after a successful connection. The driver
    /// attaches the concrete sender it created.
    Sender,
    /// The current brightness, or `None` if a read failed.
    Brightness(Option<Fraction>),
}

/// What happened while the driver performed the current phase's work.
#[derive(Clone, Copy, Debug, PartialEq, Eq)]
pub enum Event {
    /// Connection or proxy setup failed.
    ConnectFailed,
    /// Connection and proxy are up; `current` and `max` are the initial
    /// brightness property reads, `None` where a read failed.
    Connected { current: Option<i32>, max: Option<i32> },
    /// The command channel is closed: the UI dropped its sender.
    Closed,
    /// A command arrived. For `Get`, `current` and `max` are the two
    /// property reads; for `Set`, only `max` (re-read on every request) is
    /// consulted. `None` where a read failed.
    Command { request: KeyboardBacklightRequest, current: Option<i32>, max: Option<i32> },
}

impl Event {
    /// Any fraction carried by the event is well formed.
    pub open spec fn wf(self) -> bool {
        match self {
            Event::Command { request, .. } => request.wf(),
            _ => true,
        }
    }
}

/// The blocking work the driver must perform in a given phase.
#[derive(Clone, Copy, Debug, PartialEq, Eq)]
pub enum Action {
    /// Open the bus connection and build the proxy.
    Connect,
    /// Await the next command on the channel.
    AwaitCommand,
    /// Suspend forever without waking the surrounding loop again.
    Pend,
}

/// The phase the session moves to on `event`. An event that does not
/// belong to the current phase changes nothing.
pub open spec fn next_state(s: State, e: Event) -> State {
    match (s, e) {
        (State::Ready, Event::ConnectFailed) => State::Finished,
        (State::Ready, Event::Connected { .. }) => State::Waiting,
        (State::Waiting, Event::Closed) => State::Finished,
        (State::Waiting, Event::Command { .. }) => State::Waiting,
        (State::Finished, _) => State::Finished,
        (s0, _) => s0,
    }
}

/// The updates emitted toward the UI on `event`, in order: the channel
/// handle and the initial brightness on connection, the read result on a
/// `Get`, nothing otherwise (a `Set` is deliberately unconfirmed).
pub open spec fn next_updates(s: State, e: Event) -> Seq<KeyboardBacklightUpdate> {
    match (s, e) {
        (State::Ready, Event::Connected { current, max }) => seq![
            KeyboardBacklightUpdate::Sender,
            KeyboardBacklightUpdate::Brightness(frac_of(current, max)),
        ],
        (
            State::Waiting,
            Event::Command { request: KeyboardBacklightRequest::Get, current, max },
        ) => seq![KeyboardBacklightUpdate::Brightness(frac_of(current, max))],
        _ => Seq::empty(),
    }
}

/// The device write issued on `event`: a `Set` whose maximum was read
/// successfully (and sanely, that is non-negative) writes the clamped,
/// scaled, rounded fraction; everything else writes nothing. A failed or
/// negative maximum read drops the request silently.
pub open spec fn next_write(s: State, e: Event) -> Option<i32> {
    match (s, e) {
        (
            State::Waiting,
            Event::Command { request: KeyboardBacklightRequest::SetBrightness(f), max: Some(m), .. },
        ) => if m >= 0 {
            Some((write_units_spec(f, m as int) as i32))
        } else {
            None
        },
        _ => None,
    }
}

/// The full outcome of one step: the next phase, the updates to emit, and
/// the device write to issue, if any.
pub struct Step {
    pub state: State,
    pub updates: Vec<KeyboardBacklightUpdate>,
    pub write: Option<i32>,
}

/// An empty batch of updates.
fn no_updates() -> (v: Vec<KeyboardBacklightUpdate>)
    ensures
        v@ == Seq::<KeyboardBacklightUpdate>::empty(),
{
    let v: Vec<KeyboardBacklightUpdate> = Vec::new();
    proof {
        assert(v@ =~= Seq::<KeyboardBacklightUpdate>::empty());
    }
    v
}

/// Advances the session by one event.
///
/// The driver calls this once per loop iteration with the event produced
/// by the work that [`next_action`] prescribed, then emits `r.updates` (in
/// order, best effort), issues the device write `r.write` if present (best
/// effort), and continues from `r.state`.
pub fn step(state: State, event: Event) -> (r: Step)
    requires
        event.wf(),
    ensures
        r.state == next_state(state, event),
        r.updates@ == next_updates(state, event),
        r.write == next_write(state, event),
{
    match (state, event) {
        (State::Ready, Event::ConnectFailed) => Step {
            state: State::Finished,
            updates: no_updates(),
            write: None,
        },
        (State::Ready, Event::Connected { current, max }) => {
            let mut updates = no_updates();
            updates.push(KeyboardBacklightUpdate::Sender);
            updates.push(KeyboardBacklightUpdate::Brightness(read_fraction(current, max)));
            proof {
                assert(updates@ =~= next_updates(state, event));
            }
            Step { state: State::Waiting, updates, write: None }
        },
        (State::Waiting, Event::Closed) => Step {
            state: State::Finished,
            updates: no_updates(),
            write: None,
        },
        (State::Waiting, Event::Command { request, current, max }) => match request {
            KeyboardBacklightRequest::Get => {
                let mut updates = no_updates();
                updates.push(KeyboardBacklightUpdate::Brightness(read_fraction(current, max)));
                proof {
                    assert(updates@ =~= next_updates(state, event));
                }
                Step { state: State::Waiting, updates, write: None }
            },
            KeyboardBacklightRequest::SetBrightness(f) => {
                let write: Option<i32> = match max {
                    Some(m) => if m >= 0 {
                        Some(write_units(f, m))
                    } else {
                        None
                    },
                    None => None,
                };
                Step { state: State::Waiting, updates: no_updates(), write }
            },
        },
        (State::Finished, _) => Step {
            state: State::Finished,
            updates: no_updates(),
            write: None,
        },
        (s0, _) => Step { state: s0, updates: no_updates(), write: None },
    }
}

/// The blocking work owed in phase `s`.
pub open spec fn action_of(s: State) -> Action {
    match s {
        State::Ready => Action::Connect,
        State::Waiting => Action::AwaitCommand,
        State::Finished => Action::Pend,
    }
}

/// Tells the driver what to do next: connect, await a command, or suspend
/// forever. In particular `Finished` prescribes suspension, never a busy
/// loop and never a fresh connection attempt.
pub fn next_action(state: State) -> (a: Action)
    ensures
        a == action_of(state),
{
    match state {
        State::Ready => Action::Connect,
        State::Waiting => Action::AwaitCommand,
        State::Finished => Action::Pend,
    }
}

/// Terminal phase: from `Finished`, any event leaves the phase `Finished`,
/// emits nothing, writes nothing, and the owed work is to suspend forever.
pub proof fn lemma_finished_is_terminal(e: Event)
    ensures
        next_state(State::Finished, e) == State::Finished,
        next_updates(State::Finished, e) == Seq::<KeyboardBacklightUpdate>::empty(),
        next_write(State::Finished, e) is None,
        action_of(State::Finished) == Action::Pend,
{
}

/// A connection is attempted only in `Ready`, and `Ready` is never
/// re-entered: a session makes at most one connection attempt.
pub proof fn lemma_no_reconnect(s: State, e: Event)
    ensures
        next_state(s, e) == State::Ready ==> s == State::Ready,
        action_of(next_state(s, e)) == Action::Connect ==> s == State::Ready,
{
}

/// On a successful connection the session emits exactly two updates: the
/// command-channel handle first, the initial brightness second.
pub proof fn lemma_initial_update_order(current: Option<i32>, max: Option<i32>)
    ensures
        ({
            let ups = next_updates(State::Ready, (Event::Connected { current, max }));
            &&& ups.len() == 2
            &&& ups[0] == KeyboardBacklightUpdate::Sender
            &&& ups[1] == KeyboardBacklightUpdate::Brightness(frac_of(current, max))
        }),
{
}

/// A device write can only be triggered from `Waiting`, and `Waiting` is
/// only ever entered through the connection step: no command takes effect
/// before the channel handle was emitted.
pub proof fn lemma_command_effects_only_after_connect(s: State, e: Event)
    ensures
        next_write(s, e) is Some ==> s == State::Waiting,
        next_state(s, e) == State::Waiting ==> s == State::Ready || s == State::Waiting,
{
}

/// The phase after running a whole sequence of events from `s`.
pub open spec fn run_state(s: State, events: Seq<Event>) -> State
    decreases events.len(),
{
    if events.len() == 0 {
        s
    } else {
        run_state(next_state(s, events[0]), events.skip(1))
    }
}

/// All updates emitted while running a sequence of events from `s`, in
/// the order they appear on the wire.
pub open spec fn run_updates(s: State, events: Seq<Event>) -> Seq<KeyboardBacklightUpdate>
    decreases events.len(),
{
    if events.len() == 0 {
        Seq::empty()
    } else {
        next_updates(s, events[0]) + run_updates(next_state(s, events[0]), events.skip(1))
    }
}

/// Once `Finished`, a session stays `Finished` and never emits another
/// update, however many further events occur.
pub proof fn lemma_finished_emits_nothing(events: Seq<Event>)
    ensures
        run_state(State::Finished, events) == State::Finished,
        run_updates(State::Finished, events) == Seq::<KeyboardBacklightUpdate>::empty(),
    decreases events.len(),
{
    if events.len() == 0 {
    } else {
        lemma_finished_emits_nothing(events.skip(1));
        assert(run_updates(State::Finished, events) =~= Seq::<KeyboardBacklightUpdate>::empty());
    }
}

/// In any run of a fresh session, the first update ever emitted is the
/// channel handle and the second is a brightness value: the UI holds the
/// sender, and sees the initial brightness, before anything else. (If the
/// connection fails, nothing is ever emitted at all.)
pub proof fn lemma_first_updates(events: Seq<Event>)
    ensures
        ({
            let ups = run_updates(State::Ready, events);
            &&& ups.len() > 0 ==> ups[0] == KeyboardBacklightUpdate::Sender
            &&& ups.len() > 1 ==> ups[1] matches KeyboardBacklightUpdate::Brightness(_)
        }),
    decreases events.len(),
{
    if events.len() == 0 {
    } else {
        let e = events[0];
        let rest = events.skip(1);
        match (State::Ready, e) {
            (State::Ready, Event::ConnectFailed) => {
                lemma_finished_emits_nothing(rest);
                assert(run_updates(State::Ready, events) =~= Seq::<
                    KeyboardBacklightUpdate,
                >::empty());
            },
            (State::Ready, Event::Connected { current, max }) => {
                let ups = run_updates(State::Ready, events);
                assert(ups[0] == KeyboardBacklightUpdate::Sender);
                assert(ups[1] == KeyboardBacklightUpdate::Brightness(frac_of(current, max)));
            },
            _ => {
                assert(next_state(State::Ready, e) == State::Ready);
                assert(next_updates(State::Ready, e) == Seq::<KeyboardBacklightUpdate>::empty());
                lemma_first_updates(rest);
                assert(run_updates(State::Ready, events) =~= run_updates(State::Ready, rest));
            },
        }
    }
}

} // verus!
