//! What holds of every replay: each event is answered by one action of its
//! own, in order; each pressed modifier is released once, in the order of
//! pressing; and a run of clicks at one position moves the pointer at most
//! once.

use crate::event::{Key, MacroEvent};
use crate::playback::{
    initial_playback, releases, replay_actions, replay_state, step_actions, step_state,
    PlaybackView, SynthAction,
};
use vstd::prelude::*;

verus! {

/// The action that answers an event itself: the press of a modifier, the
/// click of any other key, the click of a mouse button. Releases, moves and
/// settle delays accompany these.
pub open spec fn primary_action(modifiers: Set<Key>, event: MacroEvent) -> SynthAction {
    match event {
        MacroEvent::Key(key) => if modifiers.contains(key) {
            SynthAction::Press(key)
        } else {
            SynthAction::Click(key)
        },
        MacroEvent::MouseClick(button, _x, _y) => SynthAction::ClickButton(button),
    }
}

/// Whether an action is a press, a key click or a button click.
pub open spec fn is_primary(action: SynthAction) -> bool {
    action is Press || action is Click || action is ClickButton
}

/// The presses, key clicks and button clicks among `actions`, in order.
pub open spec fn primary_actions(actions: Seq<SynthAction>) -> Seq<SynthAction>
    decreases actions.len(),
{
    if actions.len() == 0 {
        Seq::empty()
    } else if is_primary(actions.last()) {
        primary_actions(actions.drop_last()).push(actions.last())
    } else {
        primary_actions(actions.drop_last())
    }
}

/// The keys that `actions` release, in order.
pub open spec fn released_keys(actions: Seq<SynthAction>) -> Seq<Key>
    decreases actions.len(),
{
    if actions.len() == 0 {
        Seq::empty()
    } else {
        match actions.last() {
            SynthAction::Release(key) => released_keys(actions.drop_last()).push(key),
            _ => released_keys(actions.drop_last()),
        }
    }
}

/// The keys of the modifier key events among `events`, in order.
pub open spec fn modifier_keys(modifiers: Set<Key>, events: Seq<MacroEvent>) -> Seq<Key>
    decreases events.len(),
{
    if events.len() == 0 {
        Seq::empty()
    } else {
        match events.last() {
            MacroEvent::Key(key) => if modifiers.contains(key) {
                modifier_keys(modifiers, events.drop_last()).push(key)
            } else {
                modifier_keys(modifiers, events.drop_last())
            },
            _ => modifier_keys(modifiers, events.drop_last()),
        }
    }
}

/// How many moves of the pointer are among `actions`.
pub open spec fn move_count(actions: Seq<SynthAction>) -> nat
    decreases actions.len(),
{
    if actions.len() == 0 {
        0
    } else if actions.last() is MoveTo {
        move_count(actions.drop_last()) + 1
    } else {
        move_count(actions.drop_last())
    }
}

/// How many settle delays are among `actions`.
pub open spec fn settle_count(actions: Seq<SynthAction>) -> nat
    decreases actions.len(),
{
    if actions.len() == 0 {
        0
    } else if actions.last() is Settle {
        settle_count(actions.drop_last()) + 1
    } else {
        settle_count(actions.drop_last())
    }
}

/// Whether every event of `events` is a mouse click at `(x, y)`.
pub open spec fn is_click_run(events: Seq<MacroEvent>, x: i32, y: i32) -> bool {
    forall|i: int|
        0 <= i < events.len() ==> (#[trigger] events[i] matches MacroEvent::MouseClick(_, ex, ey)
            && ex == x && ey == y)
}

/// One button click for each event of a run of mouse clicks, in order.
pub open spec fn button_clicks(events: Seq<MacroEvent>) -> Seq<SynthAction> {
    Seq::new(events.len(), |i: int| SynthAction::ClickButton(events[i]->MouseClick_0))
}

proof fn primary_actions_of_concat(first: Seq<SynthAction>, second: Seq<SynthAction>)
    ensures
        primary_actions(first + second) == primary_actions(first) + primary_actions(second),
    decreases second.len(),
{
    if second.len() > 0 {
        assert((first + second).drop_last() == first + second.drop_last());
        primary_actions_of_concat(first, second.drop_last());
    }
}

proof fn released_keys_of_concat(first: Seq<SynthAction>, second: Seq<SynthAction>)
    ensures
        released_keys(first + second) == released_keys(first) + released_keys(second),
    decreases second.len(),
{
    if second.len() > 0 {
        assert((first + second).drop_last() == first + second.drop_last());
        released_keys_of_concat(first, second.drop_last());
    }
}

proof fn counts_of_concat(first: Seq<SynthAction>, second: Seq<SynthAction>)
    ensures
        move_count(first + second) == move_count(first) + move_count(second),
        settle_count(first + second) == settle_count(first) + settle_count(second),
    decreases second.len(),
{
    if second.len() > 0 {
        assert((first + second).drop_last() == first + second.drop_last());
        counts_of_concat(first, second.drop_last());
    }
}

proof fn releases_hold_only_releases(held: Seq<Key>)
    ensures
        primary_actions(releases(held)) == Seq::<SynthAction>::empty(),
        released_keys(releases(held)) == held,
        move_count(releases(held)) == 0,
        settle_count(releases(held)) == 0,
    decreases held.len(),
{
    if held.len() > 0 {
        assert(releases(held).drop_last() == releases(held.drop_last()));
        releases_hold_only_releases(held.drop_last());
    }
}

proof fn button_clicks_hold_only_clicks(events: Seq<MacroEvent>)
    ensures
        move_count(button_clicks(events)) == 0,
        settle_count(button_clicks(events)) == 0,
    decreases events.len(),
{
    if events.len() > 0 {
        assert(button_clicks(events).drop_last() == button_clicks(events.drop_last()));
        button_clicks_hold_only_clicks(events.drop_last());
    }
}

/// What one step issues, seen through the four measures above.
proof fn step_measures(modifiers: Set<Key>, state: PlaybackView, event: MacroEvent)
    ensures
        primary_actions(step_actions(modifiers, state, event)) == seq![
            primary_action(modifiers, event),
        ],
        released_keys(step_actions(modifiers, state, event)) + step_state(
            modifiers,
            state,
            event,
        ).held == state.held + modifier_keys(modifiers, seq![event]),
        move_count(step_actions(modifiers, state, event)) == settle_count(
            step_actions(modifiers, state, event),
        ),
{
    reveal_with_fuel(primary_actions, 4);
    reveal_with_fuel(released_keys, 4);
    reveal_with_fuel(move_count, 4);
    reveal_with_fuel(settle_count, 4);
    reveal_with_fuel(modifier_keys, 2);
    if let MacroEvent::Key(key) = event {
        if !modifiers.contains(key) {
            let click = seq![SynthAction::Click(key)];
            primary_actions_of_concat(click, releases(state.held));
            released_keys_of_concat(click, releases(state.held));
            counts_of_concat(click, releases(state.held));
            releases_hold_only_releases(state.held);
        }
    }
}

proof fn modifier_keys_of_push(modifiers: Set<Key>, events: Seq<MacroEvent>, event: MacroEvent)
    ensures
        modifier_keys(modifiers, events.push(event)) == modifier_keys(modifiers, events)
            + modifier_keys(modifiers, seq![event]),
{
    reveal_with_fuel(modifier_keys, 2);
    assert(events.push(event).drop_last() == events);
}

/// Replaying one sequence after another is replaying their concatenation:
/// the second starts in the state the first has left, and its actions
/// follow those of the first.
pub proof fn replay_of_concatenation(
    modifiers: Set<Key>,
    state: PlaybackView,
    first: Seq<MacroEvent>,
    second: Seq<MacroEvent>,
)
    ensures
        replay_state(modifiers, state, first + second) == replay_state(
            modifiers,
            replay_state(modifiers, state, first),
            second,
        ),
        replay_actions(modifiers, state, first + second) == replay_actions(modifiers, state, first)
            + replay_actions(modifiers, replay_state(modifiers, state, first), second),
    decreases second.len(),
{
    if second.len() > 0 {
        assert((first + second).drop_last() == first + second.drop_last());
        replay_of_concatenation(modifiers, state, first, second.drop_last());
    }
}

/// From any state, a replay answers every event with exactly one action of
/// its own, in the order of the events: a press for a modifier key, a click
/// for any other key, a button click for a mouse click. The keys it
/// releases, followed by the keys it leaves held, are the keys that were
/// held before followed by the modifier keys of the events, in order: no
/// key is released that was not pressed, none twice, and none out of turn.
/// Moves and settle delays come in equal number.
pub proof fn replay_accounts_for_every_event(
    modifiers: Set<Key>,
    state: PlaybackView,
    events: Seq<MacroEvent>,
)
    ensures
        primary_actions(replay_actions(modifiers, state, events)) == events.map_values(
            |event: MacroEvent| primary_action(modifiers, event),
        ),
        released_keys(replay_actions(modifiers, state, events)) + replay_state(
            modifiers,
            state,
            events,
        ).held == state.held + modifier_keys(modifiers, events),
        move_count(replay_actions(modifiers, state, events)) == settle_count(
            replay_actions(modifiers, state, events),
        ),
    decreases events.len(),
{
    if events.len() > 0 {
        let before = events.drop_last();
        let middle = replay_state(modifiers, state, before);
        let earlier = replay_actions(modifiers, state, before);
        let issued = step_actions(modifiers, middle, events.last());
        replay_accounts_for_every_event(modifiers, state, before);
        step_measures(modifiers, middle, events.last());
        primary_actions_of_concat(earlier, issued);
        released_keys_of_concat(earlier, issued);
        counts_of_concat(earlier, issued);
        assert(before.push(events.last()) == events);
        modifier_keys_of_push(modifiers, before, events.last());
        assert(released_keys(earlier) + (middle.held + modifier_keys(
            modifiers,
            seq![events.last()],
        )) == (released_keys(earlier) + middle.held) + modifier_keys(
            modifiers,
            seq![events.last()],
        ));
    }
}

/// A replay from the start that leaves no key held issues exactly one
/// action of its own per event, in the order of the events, and releases
/// exactly the modifier keys of the sequence, each once, in the order in
/// which it pressed them.
pub proof fn replay_releases_what_it_pressed(modifiers: Set<Key>, events: Seq<MacroEvent>)
    requires
        replay_state(modifiers, initial_playback(), events).held.len() == 0,
    ensures
        primary_actions(replay_actions(modifiers, initial_playback(), events))
            == events.map_values(|event: MacroEvent| primary_action(modifiers, event)),
        primary_actions(replay_actions(modifiers, initial_playback(), events)).len()
            == events.len(),
        released_keys(replay_actions(modifiers, initial_playback(), events)) == modifier_keys(
            modifiers,
            events,
        ),
{
    replay_accounts_for_every_event(modifiers, initial_playback(), events);
}

/// A run of mouse clicks at one position moves the pointer at most once,
/// whatever the state it starts in: there is one move and one settle delay
/// before the first click if the pointer was last sent elsewhere or nowhere
/// yet, none if it was last sent there, and every click after the first
/// follows at once.
pub proof fn click_run_moves_at_most_once(
    modifiers: Set<Key>,
    state: PlaybackView,
    run: Seq<MacroEvent>,
    x: i32,
    y: i32,
)
    requires
        is_click_run(run, x, y),
    ensures
        replay_actions(modifiers, state, run) == (if run.len() > 0 && state.last_position
            != Some((x, y)) {
            seq![SynthAction::MoveTo(x, y), SynthAction::Settle]
        } else {
            Seq::empty()
        }) + button_clicks(run),
        move_count(replay_actions(modifiers, state, run)) <= 1,
        settle_count(replay_actions(modifiers, state, run)) <= 1,
        replay_state(modifiers, state, run).held == state.held,
        run.len() > 0 ==> replay_state(modifiers, state, run).last_position == Some((x, y)),
    decreases run.len(),
{
    let lead = if run.len() > 0 && state.last_position != Some((x, y)) {
        seq![SynthAction::MoveTo(x, y), SynthAction::Settle]
    } else {
        Seq::empty()
    };
    reveal_with_fuel(move_count, 3);
    reveal_with_fuel(settle_count, 3);
    button_clicks_hold_only_clicks(run);
    counts_of_concat(lead, button_clicks(run));
    if run.len() > 0 {
        click_run_moves_at_most_once(modifiers, state, run.drop_last(), x, y);
        assert(replay_actions(modifiers, state, run) == lead + button_clicks(run));
    }
}

/// At every point of a replay the releases are behind the presses: what
/// was released after the first `count` events is a prefix of the modifier
/// keys among those events, and what was issued for them is a prefix of
/// what is issued for the whole sequence.
pub proof fn releases_follow_presses(modifiers: Set<Key>, events: Seq<MacroEvent>, count: int)
    requires
        0 <= count <= events.len(),
    ensures
        released_keys(
            replay_actions(modifiers, initial_playback(), events.take(count)),
        ).is_prefix_of(modifier_keys(modifiers, events.take(count))),
        replay_actions(modifiers, initial_playback(), events.take(count)).is_prefix_of(
            replay_actions(modifiers, initial_playback(), events),
        ),
{
    let early = events.take(count);
    replay_accounts_for_every_event(modifiers, initial_playback(), early);
    assert(early + events.skip(count) == events);
    replay_of_concatenation(modifiers, initial_playback(), early, events.skip(count));
}

/// Wherever a run of mouse clicks at one position stands in a sequence, the
/// replay of the sequence issues for it at most one move and one settle
/// delay: between what it issues for the events before the run and what it
/// issues for the events after it stand the button clicks of the run, led by
/// one move and one settle delay unless the pointer was last sent there.
pub proof fn click_run_in_a_sequence_moves_at_most_once(
    modifiers: Set<Key>,
    before: Seq<MacroEvent>,
    run: Seq<MacroEvent>,
    after: Seq<MacroEvent>,
    x: i32,
    y: i32,
)
    requires
        is_click_run(run, x, y),
    ensures
        ({
            let start = initial_playback();
            let reached = replay_state(modifiers, start, before);
            let left = replay_state(modifiers, reached, run);
            let lead = if run.len() > 0 && reached.last_position != Some((x, y)) {
                seq![SynthAction::MoveTo(x, y), SynthAction::Settle]
            } else {
                Seq::empty()
            };
            replay_actions(modifiers, start, before + run + after) == replay_actions(
                modifiers,
                start,
                before,
            ) + (lead + button_clicks(run)) + replay_actions(modifiers, left, after)
        }),
{
    let start = initial_playback();
    replay_of_concatenation(modifiers, start, before + run, after);
    replay_of_concatenation(modifiers, start, before, run);
    click_run_moves_at_most_once(modifiers, replay_state(modifiers, start, before), run, x, y);
}

/// Whether no event of `events` is a key that is clicked: each is a
/// modifier key or a mouse click.
pub open spec fn holds_no_plain_key(modifiers: Set<Key>, events: Seq<MacroEvent>) -> bool {
    forall|i: int|
        0 <= i < events.len() ==> (#[trigger] events[i] matches MacroEvent::Key(key)
            ==> modifiers.contains(key))
}

/// Until a key is clicked, every modifier key stays held.
proof fn modifiers_collect(modifiers: Set<Key>, state: PlaybackView, events: Seq<MacroEvent>)
    requires
        holds_no_plain_key(modifiers, events),
    ensures
        replay_state(modifiers, state, events).held == state.held + modifier_keys(
            modifiers,
            events,
        ),
    decreases events.len(),
{
    if events.len() > 0 {
        modifiers_collect(modifiers, state, events.drop_last());
    }
}

/// The keys that a replay leaves held are the modifier keys that come after
/// the last key that was clicked. So a sequence leaves none held exactly
/// when no modifier key follows its last clicked key; and one in which no
/// key is clicked at all leaves every modifier key of it held.
pub proof fn held_keys_are_the_trailing_modifiers(
    modifiers: Set<Key>,
    state: PlaybackView,
    before: Seq<MacroEvent>,
    key: Key,
    after: Seq<MacroEvent>,
)
    requires
        !modifiers.contains(key),
        holds_no_plain_key(modifiers, after),
    ensures
        replay_state(modifiers, state, before + seq![MacroEvent::Key(key)] + after).held
            == modifier_keys(modifiers, after),
        replay_state(modifiers, state, after).held == state.held + modifier_keys(
            modifiers,
            after,
        ),
{
    let clicked = seq![MacroEvent::Key(key)];
    replay_of_concatenation(modifiers, state, before + clicked, after);
    replay_of_concatenation(modifiers, state, before, clicked);
    let reached = replay_state(modifiers, state, before);
    let released = replay_state(modifiers, reached, clicked);
    modifiers_collect(modifiers, released, after);
    modifiers_collect(modifiers, state, after);
}

} // verus!
