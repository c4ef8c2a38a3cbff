use macro_recorder::capture::{
    begin_recording, end_recording, record_macro, CaptureOutcome, InputEvent,
};
use macro_recorder::event::{Button, Key, MacroEvent};
use macro_recorder::resolver::{parse_picker_output, resolve_next_click, ResolutionError};

#[test]
fn one_key_then_stop_records_the_key() {
    let inputs = vec![InputEvent::Key(Key::A), InputEvent::Key(Key::F1)];
    assert_eq!(record_macro(Key::F1, &inputs), Some(vec![MacroEvent::Key(Key::A)]));
}

#[test]
fn a_chord_is_recorded_key_by_key() {
    let inputs = vec![
        InputEvent::Key(Key::LeftControl),
        InputEvent::Key(Key::C),
        InputEvent::Key(Key::F1),
    ];
    assert_eq!(
        record_macro(Key::F1, &inputs),
        Some(vec![MacroEvent::Key(Key::LeftControl), MacroEvent::Key(Key::C)])
    );
}

#[test]
fn two_clicks_at_one_position_are_both_recorded() {
    let picked = parse_picker_output(b"20,20 1x1\n");
    assert_eq!(picked, Ok((10, 10)));
    let inputs = vec![
        InputEvent::Button(Button::Left, picked),
        InputEvent::Button(Button::Left, picked),
        InputEvent::Key(Key::F1),
    ];
    assert_eq!(
        record_macro(Key::F1, &inputs),
        Some(vec![
            MacroEvent::MouseClick(Button::Left, 10, 10),
            MacroEvent::MouseClick(Button::Left, 10, 10),
        ])
    );
}

#[test]
fn an_unresolved_click_is_dropped_and_recording_goes_on() {
    let mut session = begin_recording(Key::F1);
    assert_eq!(session.on_key(Key::A), CaptureOutcome::Recorded);
    let failed = resolve_next_click(Some(b"no position"));
    assert_eq!(failed, Err(ResolutionError::MissingComma));
    assert_eq!(session.on_button(Button::Left, failed), CaptureOutcome::Unresolved);
    assert_eq!(session.recorded(), &vec![MacroEvent::Key(Key::A)]);
    assert!(!session.is_stopped());
    assert_eq!(session.on_key(Key::B), CaptureOutcome::Recorded);
    assert_eq!(
        session.on_button(Button::Right, Ok((3, 4))),
        CaptureOutcome::Recorded
    );
    assert_eq!(session.on_key(Key::F1), CaptureOutcome::Stop);
    assert_eq!(
        end_recording(&mut session),
        Some(vec![
            MacroEvent::Key(Key::A),
            MacroEvent::Key(Key::B),
            MacroEvent::MouseClick(Button::Right, 3, 4),
        ])
    );
}

#[test]
fn every_resolution_error_drops_the_click() {
    for error in [
        ResolutionError::PickerUnavailable,
        ResolutionError::InvalidUtf8,
        ResolutionError::MissingSpace,
        ResolutionError::MissingComma,
        ResolutionError::InvalidNumber,
    ] {
        let inputs = vec![
            InputEvent::Button(Button::Middle, Err(error)),
            InputEvent::Key(Key::Q),
            InputEvent::Key(Key::F1),
        ];
        assert_eq!(record_macro(Key::F1, &inputs), Some(vec![MacroEvent::Key(Key::Q)]));
    }
}

#[test]
fn one_escape_after_a_click_is_suppressed() {
    let mut session = begin_recording(Key::F1);
    assert_eq!(session.on_button(Button::Left, Ok((1, 1))), CaptureOutcome::Recorded);
    assert_eq!(session.on_key(Key::Escape), CaptureOutcome::SuppressedEscape);
    assert_eq!(session.recorded(), &vec![MacroEvent::MouseClick(Button::Left, 1, 1)]);
    assert_eq!(session.on_key(Key::Escape), CaptureOutcome::Recorded);
    assert_eq!(
        session.recorded(),
        &vec![MacroEvent::MouseClick(Button::Left, 1, 1), MacroEvent::Key(Key::Escape)]
    );
}

#[test]
fn one_escape_after_a_failed_attempt_is_suppressed() {
    let mut session = begin_recording(Key::F1);
    assert_eq!(
        session.on_button(Button::Left, Err(ResolutionError::MissingSpace)),
        CaptureOutcome::Unresolved
    );
    assert_eq!(session.on_key(Key::Escape), CaptureOutcome::SuppressedEscape);
    assert!(session.recorded().is_empty());
    assert_eq!(session.on_key(Key::Escape), CaptureOutcome::Recorded);
    assert_eq!(session.recorded(), &vec![MacroEvent::Key(Key::Escape)]);
}

#[test]
fn an_escape_without_a_click_is_recorded() {
    let inputs = vec![InputEvent::Key(Key::Escape), InputEvent::Key(Key::F1)];
    assert_eq!(record_macro(Key::F1, &inputs), Some(vec![MacroEvent::Key(Key::Escape)]));
}

#[test]
fn the_suppression_waits_for_the_escape() {
    let inputs = vec![
        InputEvent::Button(Button::Left, Ok((7, 8))),
        InputEvent::Key(Key::A),
        InputEvent::Key(Key::B),
        InputEvent::Key(Key::Escape),
        InputEvent::Key(Key::Escape),
        InputEvent::Key(Key::F1),
    ];
    assert_eq!(
        record_macro(Key::F1, &inputs),
        Some(vec![
            MacroEvent::MouseClick(Button::Left, 7, 8),
            MacroEvent::Key(Key::A),
            MacroEvent::Key(Key::B),
            MacroEvent::Key(Key::Escape),
        ])
    );
}

#[test]
fn two_clicks_suppress_one_escape() {
    let inputs = vec![
        InputEvent::Button(Button::Left, Ok((7, 8))),
        InputEvent::Button(Button::Left, Ok((9, 8))),
        InputEvent::Key(Key::Escape),
        InputEvent::Key(Key::Escape),
        InputEvent::Key(Key::F1),
    ];
    assert_eq!(
        record_macro(Key::F1, &inputs),
        Some(vec![
            MacroEvent::MouseClick(Button::Left, 7, 8),
            MacroEvent::MouseClick(Button::Left, 9, 8),
            MacroEvent::Key(Key::Escape),
        ])
    );
}

#[test]
fn escape_as_stop_hotkey_is_suppressed_first() {
    let mut session = begin_recording(Key::Escape);
    assert_eq!(session.on_button(Button::Left, Ok((1, 2))), CaptureOutcome::Recorded);
    assert_eq!(session.on_key(Key::Escape), CaptureOutcome::SuppressedEscape);
    assert!(!session.is_stopped());
    assert_eq!(session.on_key(Key::Escape), CaptureOutcome::Stop);
    assert!(session.is_stopped());
    assert_eq!(
        end_recording(&mut session),
        Some(vec![MacroEvent::MouseClick(Button::Left, 1, 2)])
    );
}

#[test]
fn nothing_is_recorded_after_the_stop() {
    let mut session = begin_recording(Key::F1);
    assert_eq!(session.on_key(Key::A), CaptureOutcome::Recorded);
    assert_eq!(session.on_key(Key::F1), CaptureOutcome::Stop);
    assert_eq!(session.on_key(Key::B), CaptureOutcome::Ignored);
    assert_eq!(session.on_button(Button::Left, Ok((1, 1))), CaptureOutcome::Ignored);
    assert_eq!(
        session.on_button(Button::Left, Err(ResolutionError::InvalidNumber)),
        CaptureOutcome::Ignored
    );
    assert_eq!(session.on_key(Key::Escape), CaptureOutcome::Ignored);
    assert_eq!(session.on_key(Key::F1), CaptureOutcome::Ignored);
    assert_eq!(session.recorded(), &vec![MacroEvent::Key(Key::A)]);
    assert_eq!(end_recording(&mut session), Some(vec![MacroEvent::Key(Key::A)]));

    let inputs = vec![
        InputEvent::Key(Key::A),
        InputEvent::Key(Key::F1),
        InputEvent::Key(Key::B),
        InputEvent::Button(Button::Left, Ok((5, 5))),
        InputEvent::Key(Key::F1),
    ];
    assert_eq!(record_macro(Key::F1, &inputs), Some(vec![MacroEvent::Key(Key::A)]));
}

#[test]
fn a_running_session_hands_nothing_over() {
    let mut session = begin_recording(Key::F1);
    assert_eq!(session.on_key(Key::A), CaptureOutcome::Recorded);
    assert_eq!(end_recording(&mut session), None);
    assert_eq!(session.recorded(), &vec![MacroEvent::Key(Key::A)]);
    assert!(!session.is_stopped());
    assert_eq!(session.on_input(InputEvent::Key(Key::B)), CaptureOutcome::Recorded);
    assert_eq!(session.on_input(InputEvent::Key(Key::F1)), CaptureOutcome::Stop);
    assert_eq!(
        end_recording(&mut session),
        Some(vec![MacroEvent::Key(Key::A), MacroEvent::Key(Key::B)])
    );
    assert!(session.recorded().is_empty());
    assert!(session.is_stopped());
}

#[test]
fn a_stream_without_a_stop_gives_no_macro() {
    assert_eq!(record_macro(Key::F1, &Vec::new()), None);
    let inputs = vec![InputEvent::Key(Key::A), InputEvent::Button(Button::Left, Ok((1, 1)))];
    assert_eq!(record_macro(Key::F1, &inputs), None);
}

#[test]
fn an_immediate_stop_records_nothing() {
    assert_eq!(record_macro(Key::F1, &vec![InputEvent::Key(Key::F1)]), Some(Vec::new()));
}

#[test]
fn the_stop_hotkey_is_chosen_by_the_caller() {
    let inputs = vec![
        InputEvent::Key(Key::F1),
        InputEvent::Key(Key::A),
        InputEvent::Key(Key::F9),
    ];
    assert_eq!(
        record_macro(Key::F9, &inputs),
        Some(vec![MacroEvent::Key(Key::F1), MacroEvent::Key(Key::A)])
    );
}

#[test]
fn keys_and_clicks_keep_their_order() {
    let inputs = vec![
        InputEvent::Key(Key::A),
        InputEvent::Button(Button::Left, Ok((1, 2))),
        InputEvent::Key(Key::B),
        InputEvent::Button(Button::Right, Ok((3, 4))),
        InputEvent::Button(Button::Right, Ok((3, 4))),
        InputEvent::Key(Key::A),
        InputEvent::Key(Key::F1),
    ];
    assert_eq!(
        record_macro(Key::F1, &inputs),
        Some(vec![
            MacroEvent::Key(Key::A),
            MacroEvent::MouseClick(Button::Left, 1, 2),
            MacroEvent::Key(Key::B),
            MacroEvent::MouseClick(Button::Right, 3, 4),
            MacroEvent::MouseClick(Button::Right, 3, 4),
            MacroEvent::Key(Key::A),
        ])
    );
}
