//! The capture subsystem: which observed input events enter a recording.
//!
//! A session takes the key and mouse button events in the order in which
//! they arrive. The host calls it under mutual exclusion, one event at a
//! time, and resolves the position of a click before it does so. Only the
//! stop hotkey ends a session; a resolution that is under way cannot be
//! cancelled.

use crate::event::{Button, Key, MacroEvent, MacroSequence};
use crate::resolver::ResolutionError;
use vstd::prelude::*;

verus! {

/// What a session did with an event.
#[derive(Clone, Copy, Debug, PartialEq, Eq, Structural)]
pub enum CaptureOutcome {
    /// The event was appended to the recording.
    Recorded,
    /// The key was the Escape that the picker leaves behind: it was dropped,
    /// and the next Escape will be taken as any other key.
    SuppressedEscape,
    /// The click had no position: it was dropped, with no retry.
    Unresolved,
    /// The key was the stop hotkey: the host removes the listeners, before
    /// anything else, and then signals completion.
    Stop,
    /// The session had stopped before the event came: nothing was done.
    Ignored,
}

/// What a recording session is, as plain values.
pub struct SessionView {
    /// The recorded events, in the order of arrival.
    pub events: Seq<MacroEvent>,
    /// Whether the next Escape is to be dropped.
    pub ignore_escape: bool,
    /// Whether the stop hotkey has been seen.
    pub stopped: bool,
    /// The key that ends the recording.
    pub stop_hotkey: Key,
}

/// What an input listener hands to a session.
#[derive(Clone, Copy, Debug)]
pub enum InputEvent {
    /// A key was pressed.
    Key(Key),
    /// A mouse button was pressed, and the resolver gave this answer for it.
    Button(Button, Result<(i32, i32), ResolutionError>),
}

/// A session that has recorded nothing yet.
pub open spec fn new_session(stop_hotkey: Key) -> SessionView {
    SessionView { events: Seq::empty(), ignore_escape: false, stopped: false, stop_hotkey }
}

/// What a session does with a key.
pub open spec fn key_outcome(session: SessionView, key: Key) -> CaptureOutcome {
    if session.stopped {
        CaptureOutcome::Ignored
    } else if session.ignore_escape && key == Key::Escape {
        CaptureOutcome::SuppressedEscape
    } else if key == session.stop_hotkey {
        CaptureOutcome::Stop
    } else {
        CaptureOutcome::Recorded
    }
}

/// The session after a key.
pub open spec fn after_key(session: SessionView, key: Key) -> SessionView {
    match key_outcome(session, key) {
        CaptureOutcome::SuppressedEscape => SessionView { ignore_escape: false, ..session },
        CaptureOutcome::Stop => SessionView { stopped: true, ..session },
        CaptureOutcome::Recorded => SessionView {
            events: session.events.push(MacroEvent::Key(key)),
            ..session
        },
        _ => session,
    }
}

/// What a session does with a mouse button whose position the resolver was
/// asked for.
pub open spec fn button_outcome(session: SessionView, resolution: Result<(i32, i32), ResolutionError>)
    -> CaptureOutcome {
    if session.stopped {
        CaptureOutcome::Ignored
    } else if resolution is Ok {
        CaptureOutcome::Recorded
    } else {
        CaptureOutcome::Unresolved
    }
}

/// The session after a mouse button. Every attempt to resolve a click, the
/// failed one too, arms the suppression of one Escape.
pub open spec fn after_button(
    session: SessionView,
    button: Button,
    resolution: Result<(i32, i32), ResolutionError>,
) -> SessionView {
    if session.stopped {
        session
    } else {
        match resolution {
            Ok((x, y)) => SessionView {
                events: session.events.push(MacroEvent::MouseClick(button, x, y)),
                ignore_escape: true,
                ..session
            },
            Err(_) => SessionView { ignore_escape: true, ..session },
        }
    }
}

/// What a session does with an input event.
pub open spec fn input_outcome(session: SessionView, input: InputEvent) -> CaptureOutcome {
    match input {
        InputEvent::Key(key) => key_outcome(session, key),
        InputEvent::Button(_button, resolution) => button_outcome(session, resolution),
    }
}

/// The session after an input event.
pub open spec fn after_input(session: SessionView, input: InputEvent) -> SessionView {
    match input {
        InputEvent::Key(key) => after_key(session, key),
        InputEvent::Button(button, resolution) => after_button(session, button, resolution),
    }
}

/// The session after all of `inputs`, in order.
pub open spec fn after_inputs(session: SessionView, inputs: Seq<InputEvent>) -> SessionView
    decreases inputs.len(),
{
    if inputs.len() == 0 {
        session
    } else {
        after_input(after_inputs(session, inputs.drop_last()), inputs.last())
    }
}

/// The state of one recording.
pub struct RecordingSession {
    events: Vec<MacroEvent>,
    ignore_escape: bool,
    stopped: bool,
    stop_hotkey: Key,
}

impl View for RecordingSession {
    type V = SessionView;

    closed spec fn view(&self) -> SessionView {
        SessionView {
            events: self.events@,
            ignore_escape: self.ignore_escape,
            stopped: self.stopped,
            stop_hotkey: self.stop_hotkey,
        }
    }
}

/// Starts a recording that the key `stop_hotkey` will end.
pub fn begin_recording(stop_hotkey: Key) -> (session: RecordingSession)
    ensures
        session@ == new_session(stop_hotkey),
{
    RecordingSession { events: Vec::new(), ignore_escape: false, stopped: false, stop_hotkey }
}

/// Hands over the recording of a session that has stopped: `Some` of the
/// recorded events, in the order of arrival, and the session keeps none.
/// While the stop hotkey has not been seen there is nothing to hand over:
/// `None`, and the session is as it was.
pub fn end_recording(session: &mut RecordingSession) -> (sequence: Option<MacroSequence>)
    ensures
        old(session)@.stopped ==> sequence is Some && sequence->Some_0@ == old(session)@.events
            && final(session)@ == (SessionView { events: Seq::empty(), ..old(session)@ }),
        !old(session)@.stopped ==> sequence is None && final(session)@ == old(session)@,
{
    if session.stopped {
        let mut events: Vec<MacroEvent> = Vec::new();
        events.append(&mut session.events);
        Some(events)
    } else {
        None
    }
}

impl RecordingSession {
    /// Takes a key event.
    pub fn on_key(&mut self, key: Key) -> (outcome: CaptureOutcome)
        ensures
            outcome == key_outcome(old(self)@, key),
            final(self)@ == after_key(old(self)@, key),
    {
        if self.stopped {
            CaptureOutcome::Ignored
        } else if self.ignore_escape && key == Key::Escape {
            self.ignore_escape = false;
            CaptureOutcome::SuppressedEscape
        } else if key == self.stop_hotkey {
            self.stopped = true;
            CaptureOutcome::Stop
        } else {
            self.events.push(MacroEvent::Key(key));
            CaptureOutcome::Recorded
        }
    }

    /// Takes a mouse button event, with the resolver's answer for it.
    pub fn on_button(&mut self, button: Button, resolution: Result<(i32, i32), ResolutionError>) -> (outcome:
        CaptureOutcome)
        ensures
            outcome == button_outcome(old(self)@, resolution),
            final(self)@ == after_button(old(self)@, button, resolution),
    {
        if self.stopped {
            return CaptureOutcome::Ignored;
        }
        self.ignore_escape = true;
        match resolution {
            Ok((x, y)) => {
                self.events.push(MacroEvent::MouseClick(button, x, y));
                CaptureOutcome::Recorded
            },
            Err(_) => CaptureOutcome::Unresolved,
        }
    }

    /// Takes an input event of either kind.
    pub fn on_input(&mut self, input: InputEvent) -> (outcome: CaptureOutcome)
        ensures
            outcome == input_outcome(old(self)@, input),
            final(self)@ == after_input(old(self)@, input),
    {
        match input {
            InputEvent::Key(key) => self.on_key(key),
            InputEvent::Button(button, resolution) => self.on_button(button, resolution),
        }
    }

    /// What has been recorded so far, in the order of arrival.
    pub fn recorded(&self) -> (events: &Vec<MacroEvent>)
        ensures
            events@ == self@.events,
    {
        &self.events
    }

    /// Whether the stop hotkey has been seen.
    pub fn is_stopped(&self) -> (stopped: bool)
        ensures
            stopped == self@.stopped,
    {
        self.stopped
    }
}

/// Records a whole stream of input events: `Some` of what a session that
/// `stop_hotkey` ends has recorded once all of `inputs` have come, and `None`
/// where the stream holds no stop.
pub fn record_macro(stop_hotkey: Key, inputs: &Vec<InputEvent>) -> (sequence: Option<MacroSequence>)
    ensures
        ({
            let end = after_inputs(new_session(stop_hotkey), inputs@);
            &&& end.stopped ==> sequence is Some && sequence->Some_0@ == end.events
            &&& !end.stopped ==> sequence is None
        }),
{
    let mut session = begin_recording(stop_hotkey);
    let mut i: usize = 0;
    while i < inputs.len()
        invariant
            i <= inputs.len(),
            session@ == after_inputs(new_session(stop_hotkey), inputs@.take(i as int)),
        decreases inputs.len() - i,
    {
        let _ = session.on_input(inputs[i]);
        proof {
            let next = inputs@.take(i + 1);
            assert(next.drop_last() == inputs@.take(i as int));
        }
        i += 1;
    }
    assert(inputs@.take(i as int) == inputs@);
    end_recording(&mut session)
}

} // verus!
