//! The playback engine: which synthesized actions a recorded sequence
//! turns into.
//!
//! A modifier key is pressed and held; the next key that is no modifier is
//! clicked, and the held keys are then released in the order in which they
//! were pressed. A mouse click is preceded by a move and a settle delay
//! unless the same playback has last sent the pointer to the same position;
//! the first click of a playback is always preceded by them.

use crate::event::{Button, Key, MacroEvent, MacroSequence};
use vstd::prelude::*;

verus! {

/// Milliseconds to wait after a move before the click that follows it.
pub const SETTLE_MILLIS: u64 = 300;

/// One call into the input-synthesis backend, or the wait after a move.
#[derive(Clone, Copy, Debug, PartialEq, Eq, Structural)]
pub enum SynthAction {
    /// Press a key and keep it down.
    Press(Key),
    /// Press and release a key.
    Click(Key),
    /// Release a key that is down.
    Release(Key),
    /// Move the pointer to an absolute position.
    MoveTo(i32, i32),
    /// Wait `SETTLE_MILLIS` for a move to land.
    Settle,
    /// Press and release a mouse button where the pointer is.
    ClickButton(Button),
}

/// The keys that are held rather than clicked when they are replayed.
pub struct ModifierSet {
    keys: Vec<Key>,
}

impl View for ModifierSet {
    type V = Set<Key>;

    closed spec fn view(&self) -> Set<Key> {
        self.keys@.to_set()
    }
}

/// Membership in the set that `ModifierSet::standard` gives: the control,
/// alt and windows keys of both sides.
pub open spec fn is_standard_modifier(key: Key) -> bool {
    ||| key == Key::LeftControl
    ||| key == Key::LeftAlt
    ||| key == Key::LeftWindows
    ||| key == Key::RightControl
    ||| key == Key::RightAlt
    ||| key == Key::RightWindows
}

impl ModifierSet {
    /// The set of the given keys.
    pub fn new(keys: Vec<Key>) -> (set: Self)
        ensures
            set@ == keys@.to_set(),
    {
        ModifierSet { keys }
    }

    /// The control, alt and windows keys of both sides.
    pub fn standard() -> (set: Self)
        ensures
            set@ == Set::new(|key: Key| is_standard_modifier(key)),
    {
        let mut keys: Vec<Key> = Vec::new();
        keys.push(Key::LeftControl);
        keys.push(Key::LeftAlt);
        keys.push(Key::LeftWindows);
        keys.push(Key::RightControl);
        keys.push(Key::RightAlt);
        keys.push(Key::RightWindows);
        proof {
            assert(keys@[0] == Key::LeftControl);
            assert(keys@[1] == Key::LeftAlt);
            assert(keys@[2] == Key::LeftWindows);
            assert(keys@[3] == Key::RightControl);
            assert(keys@[4] == Key::RightAlt);
            assert(keys@[5] == Key::RightWindows);
        }
        ModifierSet { keys }
    }

    /// Whether `key` is in the set.
    pub fn contains(&self, key: Key) -> (found: bool)
        ensures
            found == self@.contains(key),
    {
        let mut i: usize = 0;
        while i < self.keys.len()
            invariant
                i <= self.keys.len(),
                forall|j: int| 0 <= j < i ==> self.keys@[j] != key,
            decreases self.keys.len() - i,
        {
            if self.keys[i] == key {
                return true;
            }
            i += 1;
        }
        false
    }
}

/// What a playback remembers between two events.
pub struct PlaybackView {
    /// The modifier keys that are down, in the order in which they were
    /// pressed.
    pub held: Seq<Key>,
    /// The position this playback has last sent the pointer to, or `None`
    /// while it has sent it nowhere.
    pub last_position: Option<(i32, i32)>,
}

/// The state a playback starts in: no key held, and the pointer sent
/// nowhere yet.
pub open spec fn initial_playback() -> PlaybackView {
    PlaybackView { held: Seq::empty(), last_position: None }
}

/// One release for each held key, in the order in which they were pressed.
pub open spec fn releases(held: Seq<Key>) -> Seq<SynthAction> {
    Seq::new(held.len(), |i: int| SynthAction::Release(held[i]))
}

/// The actions that replaying `event` in state `state` issues.
pub open spec fn step_actions(modifiers: Set<Key>, state: PlaybackView, event: MacroEvent) -> Seq<
    SynthAction,
> {
    match event {
        MacroEvent::Key(key) => if modifiers.contains(key) {
            seq![SynthAction::Press(key)]
        } else {
            seq![SynthAction::Click(key)] + releases(state.held)
        },
        MacroEvent::MouseClick(button, x, y) => if state.last_position != Some((x, y)) {
            seq![SynthAction::MoveTo(x, y), SynthAction::Settle, SynthAction::ClickButton(button)]
        } else {
            seq![SynthAction::ClickButton(button)]
        },
    }
}

/// The state after replaying `event` in state `state`.
pub open spec fn step_state(modifiers: Set<Key>, state: PlaybackView, event: MacroEvent)
    -> PlaybackView {
    match event {
        MacroEvent::Key(key) => if modifiers.contains(key) {
            PlaybackView { held: state.held.push(key), last_position: state.last_position }
        } else {
            PlaybackView { held: Seq::empty(), last_position: state.last_position }
        },
        MacroEvent::MouseClick(_button, x, y) => PlaybackView {
            held: state.held,
            last_position: Some((x, y)),
        },
    }
}

/// The state after replaying all of `events`, in order, from `state`.
pub open spec fn replay_state(modifiers: Set<Key>, state: PlaybackView, events: Seq<MacroEvent>)
    -> PlaybackView
    decreases events.len(),
{
    if events.len() == 0 {
        state
    } else {
        step_state(modifiers, replay_state(modifiers, state, events.drop_last()), events.last())
    }
}

/// The actions that replaying all of `events`, in order, from `state`
/// issues.
pub open spec fn replay_actions(modifiers: Set<Key>, state: PlaybackView, events: Seq<MacroEvent>)
    -> Seq<SynthAction>
    decreases events.len(),
{
    if events.len() == 0 {
        Seq::empty()
    } else {
        replay_actions(modifiers, state, events.drop_last()) + step_actions(
            modifiers,
            replay_state(modifiers, state, events.drop_last()),
            events.last(),
        )
    }
}

/// The state of one playback: the held modifier keys and the position the
/// pointer was last sent to.
pub struct PlaybackState {
    held: Vec<Key>,
    last_position: Option<(i32, i32)>,
}

impl View for PlaybackState {
    type V = PlaybackView;

    closed spec fn view(&self) -> PlaybackView {
        PlaybackView { held: self.held@, last_position: self.last_position }
    }
}

impl PlaybackState {
    /// The state a playback starts in.
    pub fn new() -> (state: Self)
        ensures
            state@ == initial_playback(),
    {
        PlaybackState { held: Vec::new(), last_position: None }
    }

    /// The modifier keys that are down, in the order in which they were
    /// pressed.
    pub fn held_keys(&self) -> (held: &Vec<Key>)
        ensures
            held@ == self@.held,
    {
        &self.held
    }

    /// The position this playback has last sent the pointer to, or `None`
    /// while it has sent it nowhere.
    pub fn last_position(&self) -> (position: Option<(i32, i32)>)
        ensures
            position == self@.last_position,
    {
        self.last_position
    }

    /// Replays one event: returns the actions to issue, in order, and
    /// remembers what they leave held and where they leave the pointer.
    pub fn step(&mut self, modifiers: &ModifierSet, event: MacroEvent) -> (actions: Vec<
        SynthAction,
    >)
        ensures
            actions@ == step_actions(modifiers@, old(self)@, event),
            final(self)@ == step_state(modifiers@, old(self)@, event),
    {
        let mut actions: Vec<SynthAction> = Vec::new();
        match event {
            MacroEvent::Key(key) => {
                if modifiers.contains(key) {
                    actions.push(SynthAction::Press(key));
                    self.held.push(key);
                } else {
                    actions.push(SynthAction::Click(key));
                    let mut i: usize = 0;
                    while i < self.held.len()
                        invariant
                            i <= self.held.len(),
                            self.held == old(self).held,
                            self.last_position == old(self).last_position,
                            actions@ == seq![SynthAction::Click(key)] + releases(
                                self.held@.take(i as int),
                            ),
                        decreases self.held.len() - i,
                    {
                        actions.push(SynthAction::Release(self.held[i]));
                        i += 1;
                    }
                    self.held.clear();
                }
            },
            MacroEvent::MouseClick(button, x, y) => {
                let already_there = match self.last_position {
                    Some((last_x, last_y)) => last_x == x && last_y == y,
                    None => false,
                };
                if !already_there {
                    actions.push(SynthAction::MoveTo(x, y));
                    actions.push(SynthAction::Settle);
                    self.last_position = Some((x, y));
                }
                actions.push(SynthAction::ClickButton(button));
            },
        }
        actions
    }
}

/// The actions that replaying `sequence` from the start issues, in order.
///
/// Modifier keys that are still held when the sequence ends are left held:
/// no release is issued for them.
pub fn plan_playback(sequence: &MacroSequence, modifiers: &ModifierSet) -> (actions: Vec<
    SynthAction,
>)
    ensures
        actions@ == replay_actions(modifiers@, initial_playback(), sequence@),
{
    let mut state = PlaybackState::new();
    let mut actions: Vec<SynthAction> = Vec::new();
    let mut i: usize = 0;
    while i < sequence.len()
        invariant
            i <= sequence.len(),
            state@ == replay_state(modifiers@, initial_playback(), sequence@.take(i as int)),
            actions@ == replay_actions(modifiers@, initial_playback(), sequence@.take(i as int)),
        decreases sequence.len() - i,
    {
        let mut issued = state.step(modifiers, sequence[i]);
        actions.append(&mut issued);
        proof {
            let next = sequence@.take(i + 1);
            assert(next.drop_last() == sequence@.take(i as int));
        }
        i += 1;
    }
    assert(sequence@.take(i as int) == sequence@);
    actions
}

/// How far a playback has come.
#[derive(Clone, Copy, Debug, PartialEq, Eq, Structural)]
pub enum PlaybackStatus {
    /// An action is waiting to be issued.
    Running,
    /// Every action was issued and none failed.
    Finished,
    /// An action failed; none is issued after it.
    Aborted,
}

/// What a `Playback` is, as plain values.
pub struct PlaybackRunView {
    /// All the actions of the sequence, in order.
    pub plan: Seq<SynthAction>,
    /// How many of them were issued and succeeded.
    pub issued: nat,
    /// Whether an action has failed.
    pub aborted: bool,
}

/// The action that is to be issued next, if there is one.
pub open spec fn pending_action(run: PlaybackRunView) -> Option<SynthAction> {
    if !run.aborted && run.issued < run.plan.len() {
        Some(run.plan[run.issued as int])
    } else {
        None
    }
}

/// The run after the backend has reported on the pending action: one more
/// action is issued if it succeeded, the run is aborted if it failed. With
/// no action pending a report changes nothing.
pub open spec fn after_report(run: PlaybackRunView, succeeded: bool) -> PlaybackRunView {
    if pending_action(run) is None {
        run
    } else if succeeded {
        PlaybackRunView { plan: run.plan, issued: run.issued + 1, aborted: false }
    } else {
        PlaybackRunView { plan: run.plan, issued: run.issued, aborted: true }
    }
}

/// One playback of a sequence, action by action.
///
/// The caller asks for the next action, issues it, and reports whether the
/// backend accepted it. Actions come strictly in order, one at a time. After
/// the first failure no further action is handed out, and what was issued
/// before it is not undone. Nothing else ends a playback early: there is no
/// way to cancel one that has started.
pub struct Playback {
    plan: Vec<SynthAction>,
    issued: usize,
    aborted: bool,
}

impl View for Playback {
    type V = PlaybackRunView;

    closed spec fn view(&self) -> PlaybackRunView {
        PlaybackRunView { plan: self.plan@, issued: self.issued as nat, aborted: self.aborted }
    }
}

impl Playback {
    #[verifier::type_invariant]
    spec fn in_bounds(self) -> bool {
        self.issued <= self.plan.len()
    }

    /// A playback of `sequence` from the start, with nothing issued yet.
    pub fn start(sequence: &MacroSequence, modifiers: &ModifierSet) -> (run: Self)
        ensures
            run@.plan == replay_actions(modifiers@, initial_playback(), sequence@),
            run@.issued == 0,
            !run@.aborted,
    {
        Playback { plan: plan_playback(sequence, modifiers), issued: 0, aborted: false }
    }

    /// The action to issue next; `None` once all are issued or one has
    /// failed.
    pub fn next_action(&self) -> (action: Option<SynthAction>)
        ensures
            action == pending_action(self@),
    {
        proof {
            use_type_invariant(self);
        }
        if !self.aborted && self.issued < self.plan.len() {
            Some(self.plan[self.issued])
        } else {
            None
        }
    }

    /// Takes the backend's answer for the action that `next_action` handed
    /// out.
    pub fn report(&mut self, succeeded: bool)
        ensures
            final(self)@ == after_report(old(self)@, succeeded),
    {
        proof {
            use_type_invariant(&*self);
        }
        if !self.aborted && self.issued < self.plan.len() {
            if succeeded {
                self.issued = self.issued + 1;
            } else {
                self.aborted = true;
            }
        }
    }

    /// Whether the playback is running, has finished, or was aborted.
    pub fn status(&self) -> (status: PlaybackStatus)
        ensures
            status == (if self@.aborted {
                PlaybackStatus::Aborted
            } else if self@.issued < self@.plan.len() {
                PlaybackStatus::Running
            } else {
                PlaybackStatus::Finished
            }),
    {
        proof {
            use_type_invariant(self);
        }
        if self.aborted {
            PlaybackStatus::Aborted
        } else if self.issued < self.plan.len() {
            PlaybackStatus::Running
        } else {
            PlaybackStatus::Finished
        }
    }

    /// How many actions were issued and succeeded.
    pub fn issued(&self) -> (count: usize)
        ensures
            count == self@.issued,
    {
        self.issued
    }
}

} // verus!
