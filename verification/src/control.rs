//! The control state machine: the lifecycle of the recorder, driven by the
//! two global hotkeys and by the end of the session that is running.
//!
//! In interactive mode the start hotkey begins a recording, the recording
//! is replayed when it ends, and the recorder is idle again after that. In
//! the two one-shot modes the start hotkey begins the one cycle the mode
//! names, and the process exits when that cycle has ended.

use vstd::prelude::*;
use vstd::string::StringExecFns;

verus! {

/// What the program was started to do.
#[derive(Clone, Copy, Debug, PartialEq, Eq, Structural)]
pub enum Mode {
    /// Record and replay, again and again, until the exit hotkey.
    Interactive,
    /// Record one macro and store it.
    Record,
    /// Load one macro and replay it.
    Play,
}

/// The mode selector was none of the known words.
#[derive(Clone, Copy, Debug, PartialEq, Eq, Structural)]
pub enum UsageError {
    UnknownAction,
}

/// Where the recorder is in its lifecycle.
#[derive(Clone, Copy, Debug, PartialEq, Eq, Structural)]
pub enum ControlState {
    /// Interactive: both hotkeys are armed and no session is running.
    Idle,
    /// Interactive: a recording session is running.
    Recording,
    /// Interactive: a playback is running.
    Playing,
    /// One-shot: the start hotkey is armed and the cycle has not begun.
    AwaitingTrigger,
    /// One-shot: the cycle is running.
    Running,
    /// The process is to end. Nothing follows.
    Exited,
}

/// What the host reports to the state machine.
#[derive(Clone, Copy, Debug, PartialEq, Eq, Structural)]
pub enum ControlEvent {
    /// The start hotkey was pressed.
    StartHotkey,
    /// The exit hotkey was pressed.
    ExitHotkey,
    /// The session that was running has ended as it should.
    SessionEnded,
    /// The session that was running has ended with an error.
    SessionFailed,
}

/// What the host is to do after an event.
#[derive(Clone, Copy, Debug, PartialEq, Eq, Structural)]
pub enum ControlAction {
    /// Nothing.
    Nothing,
    /// Disarm the hotkeys and run a recording session.
    BeginRecording,
    /// Replay what was just recorded.
    BeginPlayback,
    /// Arm the start hotkey and the exit hotkey again.
    Rearm,
    /// Record one macro and store it under the sequence file's name.
    RecordToFile,
    /// Load the macro under the sequence file's name and replay it.
    PlayFromFile,
    /// End the process.
    Terminate,
}

/// The state a recorder starts in.
pub open spec fn initial_state(mode: Mode) -> ControlState {
    match mode {
        Mode::Interactive => ControlState::Idle,
        _ => ControlState::AwaitingTrigger,
    }
}

/// Whether a recorder in mode `mode` can be in state `state`.
pub open spec fn state_of_mode(mode: Mode, state: ControlState) -> bool {
    match mode {
        Mode::Interactive => state is Idle || state is Recording || state is Playing
            || state is Exited,
        _ => state is AwaitingTrigger || state is Running || state is Exited,
    }
}

/// The state after an event. An event that the state does not wait for
/// changes nothing.
pub open spec fn next_state(mode: Mode, state: ControlState, event: ControlEvent)
    -> ControlState {
    match (state, event) {
        (ControlState::Idle, ControlEvent::StartHotkey) => ControlState::Recording,
        (ControlState::Idle, ControlEvent::ExitHotkey) => ControlState::Exited,
        (ControlState::Recording, ControlEvent::SessionEnded) => ControlState::Playing,
        (ControlState::Recording, ControlEvent::SessionFailed) => ControlState::Idle,
        (ControlState::Playing, ControlEvent::SessionEnded) => ControlState::Idle,
        (ControlState::Playing, ControlEvent::SessionFailed) => ControlState::Idle,
        (ControlState::AwaitingTrigger, ControlEvent::StartHotkey) => if mode
            == Mode::Interactive {
            state
        } else {
            ControlState::Running
        },
        (ControlState::Running, ControlEvent::SessionEnded) => ControlState::Exited,
        (ControlState::Running, ControlEvent::SessionFailed) => ControlState::Exited,
        _ => state,
    }
}

/// What the host is to do after an event.
pub open spec fn action_for(mode: Mode, state: ControlState, event: ControlEvent)
    -> ControlAction {
    match (state, event) {
        (ControlState::Idle, ControlEvent::StartHotkey) => ControlAction::BeginRecording,
        (ControlState::Idle, ControlEvent::ExitHotkey) => ControlAction::Terminate,
        (ControlState::Recording, ControlEvent::SessionEnded) => ControlAction::BeginPlayback,
        (ControlState::Recording, ControlEvent::SessionFailed) => ControlAction::Rearm,
        (ControlState::Playing, ControlEvent::SessionEnded) => ControlAction::Rearm,
        (ControlState::Playing, ControlEvent::SessionFailed) => ControlAction::Rearm,
        (ControlState::AwaitingTrigger, ControlEvent::StartHotkey) => match mode {
            Mode::Interactive => ControlAction::Nothing,
            Mode::Record => ControlAction::RecordToFile,
            Mode::Play => ControlAction::PlayFromFile,
        },
        (ControlState::Running, ControlEvent::SessionEnded) => ControlAction::Terminate,
        (ControlState::Running, ControlEvent::SessionFailed) => ControlAction::Terminate,
        _ => ControlAction::Nothing,
    }
}

/// The state after all of `events`, in order.
pub open spec fn state_after(mode: Mode, state: ControlState, events: Seq<ControlEvent>)
    -> ControlState
    decreases events.len(),
{
    if events.len() == 0 {
        state
    } else {
        next_state(mode, state_after(mode, state, events.drop_last()), events.last())
    }
}

/// The lifecycle of one recorder.
pub struct Controller {
    mode: Mode,
    state: ControlState,
}

impl Controller {
    /// The mode the recorder was started in.
    pub closed spec fn spec_mode(&self) -> Mode {
        self.mode
    }

    /// The state the recorder is in.
    pub closed spec fn spec_state(&self) -> ControlState {
        self.state
    }

    /// A recorder in the state that `mode` starts in.
    pub fn new(mode: Mode) -> (controller: Self)
        ensures
            controller.spec_mode() == mode,
            controller.spec_state() == initial_state(mode),
    {
        let state = match mode {
            Mode::Interactive => ControlState::Idle,
            _ => ControlState::AwaitingTrigger,
        };
        Controller { mode, state }
    }

    /// The mode the recorder was started in.
    #[verifier::when_used_as_spec(spec_mode)]
    pub fn mode(&self) -> (mode: Mode)
        ensures
            mode == self.spec_mode(),
    {
        self.mode
    }

    /// The state the recorder is in.
    #[verifier::when_used_as_spec(spec_state)]
    pub fn state(&self) -> (state: ControlState)
        ensures
            state == self.spec_state(),
    {
        self.state
    }

    /// Takes an event: moves to the next state and says what the host is
    /// to do.
    pub fn handle(&mut self, event: ControlEvent) -> (action: ControlAction)
        ensures
            action == action_for(old(self).spec_mode(), old(self).spec_state(), event),
            final(self).spec_state() == next_state(
                old(self).spec_mode(),
                old(self).spec_state(),
                event,
            ),
            final(self).spec_mode() == old(self).spec_mode(),
    {
        let (state, action) = match (self.state, event) {
            (ControlState::Idle, ControlEvent::StartHotkey) => (
                ControlState::Recording,
                ControlAction::BeginRecording,
            ),
            (ControlState::Idle, ControlEvent::ExitHotkey) => (
                ControlState::Exited,
                ControlAction::Terminate,
            ),
            (ControlState::Recording, ControlEvent::SessionEnded) => (
                ControlState::Playing,
                ControlAction::BeginPlayback,
            ),
            (ControlState::Recording, ControlEvent::SessionFailed)
            | (ControlState::Playing, ControlEvent::SessionEnded)
            | (ControlState::Playing, ControlEvent::SessionFailed) => (
                ControlState::Idle,
                ControlAction::Rearm,
            ),
            (ControlState::AwaitingTrigger, ControlEvent::StartHotkey) => match self.mode {
                Mode::Interactive => (self.state, ControlAction::Nothing),
                Mode::Record => (ControlState::Running, ControlAction::RecordToFile),
                Mode::Play => (ControlState::Running, ControlAction::PlayFromFile),
            },
            (ControlState::Running, ControlEvent::SessionEnded)
            | (ControlState::Running, ControlEvent::SessionFailed) => (
                ControlState::Exited,
                ControlAction::Terminate,
            ),
            _ => (self.state, ControlAction::Nothing),
        };
        self.state = state;
        action
    }
}

/// The mode that the first command-line argument selects: interactive
/// without one, recording for `record`, playback for `play`, and an error
/// for any other word.
pub fn select_mode(action: Option<&String>) -> (mode: Result<Mode, UsageError>)
    ensures
        mode == (match action {
            None => Ok::<Mode, UsageError>(Mode::Interactive),
            Some(word) => if word@ == "record"@ {
                Ok(Mode::Record)
            } else if word@ == "play"@ {
                Ok(Mode::Play)
            } else {
                Err(UsageError::UnknownAction)
            },
        }),
{
    match action {
        None => Ok(Mode::Interactive),
        Some(word) => {
            let record = "record".to_owned();
            let play = "play".to_owned();
            if *word == record {
                Ok(Mode::Record)
            } else if *word == play {
                Ok(Mode::Play)
            } else {
                Err(UsageError::UnknownAction)
            }
        },
    }
}

/// The name of the file that holds the macro: the given name, or `default`
/// where none is given, with `.json` behind it.
pub fn sequence_file_name(name: Option<String>) -> (file: String)
    ensures
        file@ == (match name {
            Some(given) => given@,
            None => "default"@,
        }) + ".json"@,
{
    let stem = match name {
        Some(given) => given,
        None => "default".to_owned(),
    };
    stem.concat(".json")
}

/// In interactive mode a session always comes back to idle: a recording
/// that ends is replayed, and after the playback, or after an error in
/// either, the recorder is idle with both hotkeys armed again.
pub proof fn interactive_cycle_returns_to_idle(recording_fails: bool, playback_fails: bool)
    ensures
        ({
            let started = next_state(
                Mode::Interactive,
                ControlState::Idle,
                ControlEvent::StartHotkey,
            );
            let recorded = next_state(
                Mode::Interactive,
                started,
                if recording_fails {
                    ControlEvent::SessionFailed
                } else {
                    ControlEvent::SessionEnded
                },
            );
            let played = next_state(
                Mode::Interactive,
                recorded,
                if playback_fails {
                    ControlEvent::SessionFailed
                } else {
                    ControlEvent::SessionEnded
                },
            );
            &&& started == ControlState::Recording
            &&& recording_fails ==> recorded == ControlState::Idle
            &&& !recording_fails ==> recorded == ControlState::Playing && played
                == ControlState::Idle
        }),
{
}

/// The hotkeys act only while no session is running: in `Recording`,
/// `Playing` and `Running` neither of them changes the state or asks
/// anything of the host. So at most one session is ever active, and the
/// exit hotkey ends the process only from `Idle`.
pub proof fn hotkeys_wait_for_the_session(mode: Mode, state: ControlState, event: ControlEvent)
    requires
        state is Recording || state is Playing || state is Running,
        event is StartHotkey || event is ExitHotkey,
    ensures
        next_state(mode, state, event) == state,
        action_for(mode, state, event) == ControlAction::Nothing,
{
}

/// A one-shot recorder runs exactly one cycle: from any events whatever it
/// never reaches a state of interactive mode, and once it has exited it
/// stays so. The same holds, with the states of its own mode, of an
/// interactive recorder.
pub proof fn states_stay_in_their_mode(mode: Mode, state: ControlState, events: Seq<ControlEvent>)
    requires
        state_of_mode(mode, state),
    ensures
        state_of_mode(mode, state_after(mode, state, events)),
        state is Exited ==> state_after(mode, state, events) is Exited,
    decreases events.len(),
{
    if events.len() > 0 {
        states_stay_in_their_mode(mode, state, events.drop_last());
    }
}

} // verus!
