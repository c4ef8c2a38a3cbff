//! What holds of every recording session: a click without a position leaves
//! no trace in the recording, one Escape is dropped after each attempt to
//! place a click, and nothing enters a recording that has stopped.

use crate::capture::{
    after_button, after_input, after_inputs, after_key, button_outcome, input_outcome,
    key_outcome, CaptureOutcome, InputEvent, SessionView,
};
use crate::event::{Button, Key, MacroEvent};
use crate::resolver::ResolutionError;
use vstd::prelude::*;

verus! {

/// A click that the resolver could not place appends nothing and does not
/// end the session: the recording and the stop hotkey are as before, and the
/// events that follow are still taken. A key that follows is recorded,
/// unless it is the stop hotkey or the one Escape that the attempt has set
/// up to be dropped; a click that follows and has a position is recorded.
pub proof fn failed_resolution_keeps_recording(
    session: SessionView,
    button: Button,
    error: ResolutionError,
)
    requires
        !session.stopped,
    ensures
        button_outcome(session, Err(error)) == CaptureOutcome::Unresolved,
        after_button(session, button, Err(error)).events == session.events,
        !after_button(session, button, Err(error)).stopped,
        after_button(session, button, Err(error)).stop_hotkey == session.stop_hotkey,
        forall|key: Key|
            key != Key::Escape && key != session.stop_hotkey ==> #[trigger] after_key(
                after_button(session, button, Err(error)),
                key,
            ).events == session.events.push(MacroEvent::Key(key)),
        forall|next: Button, x: i32, y: i32|
            #[trigger] after_button(
                after_button(session, button, Err(error)),
                next,
                Ok((x, y)),
            ).events == session.events.push(MacroEvent::MouseClick(next, x, y)),
{
}

/// After an attempt to place a click, whether it succeeded or failed,
/// exactly one Escape is dropped: the first Escape that follows leaves the
/// recording as it is, and the second is taken as any other key, which
/// means that it is recorded unless Escape is the stop hotkey.
pub proof fn one_escape_is_suppressed_after_an_attempt(
    session: SessionView,
    button: Button,
    resolution: Result<(i32, i32), ResolutionError>,
)
    requires
        !session.stopped,
    ensures
        ({
            let attempted = after_button(session, button, resolution);
            let once = after_key(attempted, Key::Escape);
            let twice = after_key(once, Key::Escape);
            &&& key_outcome(attempted, Key::Escape) == CaptureOutcome::SuppressedEscape
            &&& once.events == attempted.events
            &&& !once.stopped
            &&& !once.ignore_escape
            &&& session.stop_hotkey != Key::Escape ==> key_outcome(once, Key::Escape)
                == CaptureOutcome::Recorded && twice.events == attempted.events.push(
                MacroEvent::Key(Key::Escape),
            )
            &&& session.stop_hotkey == Key::Escape ==> key_outcome(once, Key::Escape)
                == CaptureOutcome::Stop && twice.events == attempted.events
        }),
{
}

/// The keys that come between an attempt and the Escape it has set up to be
/// dropped do not use the suppression up: a key other than Escape and the
/// stop hotkey is recorded, and the next Escape is still the one dropped.
pub proof fn suppression_waits_for_escape(session: SessionView, key: Key)
    requires
        !session.stopped,
        session.ignore_escape,
        key != Key::Escape,
        key != session.stop_hotkey,
    ensures
        after_key(session, key).events == session.events.push(MacroEvent::Key(key)),
        after_key(session, key).ignore_escape,
        key_outcome(after_key(session, key), Key::Escape) == CaptureOutcome::SuppressedEscape,
{
}

/// Once the stop hotkey has been seen the cutoff is hard: whatever events
/// still arrive, the session stays exactly as it is.
pub proof fn stopped_session_takes_nothing(session: SessionView, inputs: Seq<InputEvent>)
    requires
        session.stopped,
    ensures
        after_inputs(session, inputs) == session,
    decreases inputs.len(),
{
    if inputs.len() > 0 {
        stopped_session_takes_nothing(session, inputs.drop_last());
    }
}

/// The host is told to stop at most once, and only by the event that stops
/// the session: an event is answered with `Stop` exactly when it takes a
/// running session to a stopped one.
pub proof fn stop_is_signalled_once(session: SessionView, input: InputEvent)
    ensures
        input_outcome(session, input) == CaptureOutcome::Stop <==> !session.stopped && after_input(
            session,
            input,
        ).stopped,
        session.stopped ==> input_outcome(session, input) == CaptureOutcome::Ignored,
{
}

/// A recording only grows, and only at its end: what a session has recorded
/// stays in place, in order, whatever events follow.
pub proof fn recording_is_append_only(session: SessionView, inputs: Seq<InputEvent>)
    ensures
        session.events.is_prefix_of(after_inputs(session, inputs).events),
        after_inputs(session, inputs).stop_hotkey == session.stop_hotkey,
    decreases inputs.len(),
{
    if inputs.len() > 0 {
        recording_is_append_only(session, inputs.drop_last());
    }
}

} // verus!
