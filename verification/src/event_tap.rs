//! The two filters behind the global event taps. The mouse filter decides
//! whether a left-button release plausibly ends a text selection (gesture
//! shape only); the keyboard filter recognises exactly one chord, a bare
//! Cmd+A that is not an autorepeat. Reading the raw events, and measuring
//! how far the pointer travelled, happens where the taps are installed.

use vstd::prelude::*;
use crate::keys::{
    flag_held, EVENT_FLAG_ALTERNATE, EVENT_FLAG_COMMAND, EVENT_FLAG_CONTROL, EVENT_FLAG_SHIFT,
    KEYCODE_A,
};
use crate::platform::InputEvent;

verus! {

/// The bits of the four standard modifiers in an event's flag word.
pub const EVENT_STANDARD_MODIFIERS: u64 = 0x001E_0000;

/// Does a left-button release plausibly end a text selection? Control
/// held: no (Control+click opens a context menu). Double- or triple-click:
/// yes. A single click: only when the pointer travelled at least the drag
/// threshold between press and release.
pub open spec fn selection_shaped(flags: u64, click_count: i64, dragged: bool) -> bool {
    !flag_held(flags, EVENT_FLAG_CONTROL) && (click_count >= 2 || dragged)
}

/// The bare select-all chord: the A key with Command held and none of
/// Control, Option and Shift. Caps Lock and Fn do not matter.
pub open spec fn select_all_chord(keycode: i64, flags: u64) -> bool {
    &&& keycode == KEYCODE_A
    &&& flag_held(flags, EVENT_FLAG_COMMAND)
    &&& !flag_held(flags, EVENT_FLAG_CONTROL)
    &&& !flag_held(flags, EVENT_FLAG_ALTERNATE)
    &&& !flag_held(flags, EVENT_FLAG_SHIFT)
}

/// A key-down as the keyboard tap reads it: keycode, autorepeat field and
/// flag word.
pub type KeyDown = (i64, i64, u64);

/// The event a key-down produces: only the initial press (autorepeat field
/// 0) of the bare select-all chord gives one.
pub open spec fn key_down_output(key: KeyDown) -> Option<InputEvent> {
    if key.1 == 0 && select_all_chord(key.0, key.2) {
        Some(InputEvent::SelectAllPressed)
    } else {
        None
    }
}

/// Whether a key-down produces an event.
pub open spec fn triggers_select_all(key: KeyDown) -> bool {
    key_down_output(key) is Some
}

/// What the keyboard tap sends, in order, for a stream of key-downs.
pub open spec fn forwarded_events(keys: Seq<KeyDown>) -> Seq<InputEvent> {
    keys.filter_map(|key: KeyDown| key_down_output(key))
}

/// The gesture-shape filter. `dragged` says whether the pointer travelled
/// at least the drag threshold since the press began.
pub fn is_selection_shaped(flags: u64, click_count: i64, dragged: bool) -> (shaped: bool)
    ensures
        shaped == selection_shaped(flags, click_count, dragged),
{
    if flags & EVENT_FLAG_CONTROL != 0 {
        return false;
    }
    if click_count >= 2 {
        return true;
    }
    dragged
}

/// True while a key is held down and the system generates repeat events
/// (the event's autorepeat field is nonzero).
pub fn is_autorepeat(autorepeat_field: i64) -> (repeat: bool)
    ensures
        repeat == (autorepeat_field != 0),
{
    autorepeat_field != 0
}

/// The select-all chord filter: bare Cmd+A and nothing else.
pub fn is_select_all_chord(keycode: i64, flags: u64) -> (chord: bool)
    ensures
        chord == select_all_chord(keycode, flags),
{
    if keycode != KEYCODE_A {
        return false;
    }
    proof {
        assert((flags & (0x0004_0000u64 | 0x0008_0000u64 | 0x0002_0000u64) != 0) == (flags
            & 0x0004_0000u64 != 0 || flags & 0x0008_0000u64 != 0 || flags & 0x0002_0000u64 != 0))
            by (bit_vector);
    }
    flags & EVENT_FLAG_COMMAND != 0 && flags & (EVENT_FLAG_CONTROL | EVENT_FLAG_ALTERNATE
        | EVENT_FLAG_SHIFT) == 0
}

/// The event a left-button release produces, if any.
pub fn mouse_up_event(flags: u64, click_count: i64, dragged: bool) -> (event: Option<InputEvent>)
    ensures
        event == (if selection_shaped(flags, click_count, dragged) {
            Some(InputEvent::PotentialSelection)
        } else {
            None
        }),
{
    if is_selection_shaped(flags, click_count, dragged) {
        Some(InputEvent::PotentialSelection)
    } else {
        None
    }
}

/// The event a key-down produces, if any: only the initial press of the
/// bare select-all chord qualifies, never an autorepeat.
pub fn key_down_event(keycode: i64, autorepeat_field: i64, flags: u64) -> (event: Option<
    InputEvent,
>)
    ensures
        event == key_down_output((keycode, autorepeat_field, flags)),
{
    if !is_autorepeat(autorepeat_field) && is_select_all_chord(keycode, flags) {
        Some(InputEvent::SelectAllPressed)
    } else {
        None
    }
}

/// Only the four standard modifiers decide the select-all chord: Caps
/// Lock, Fn and every other flag bit can be cleared without changing it.
pub proof fn lemma_select_all_chord_ignores_other_flags(keycode: i64, flags: u64)
    ensures
        select_all_chord(keycode, flags) == select_all_chord(keycode, flags & EVENT_STANDARD_MODIFIERS),
{
    assert(((flags & 0x0010_0000u64) != 0) == (((flags & 0x001E_0000u64) & 0x0010_0000u64) != 0))
        by (bit_vector);
    assert(((flags & 0x0002_0000u64) != 0) == (((flags & 0x001E_0000u64) & 0x0002_0000u64) != 0))
        by (bit_vector);
    assert(((flags & 0x0004_0000u64) != 0) == (((flags & 0x001E_0000u64) & 0x0004_0000u64) != 0))
        by (bit_vector);
    assert(((flags & 0x0008_0000u64) != 0) == (((flags & 0x001E_0000u64) & 0x0008_0000u64) != 0))
        by (bit_vector);
}

/// The keyboard tap sends one select-all event per non-repeat bare Cmd+A
/// in the stream, and nothing for any other key-down.
pub proof fn lemma_one_event_per_select_all(keys: Seq<KeyDown>)
    ensures
        forwarded_events(keys) == Seq::new(
            keys.filter(|key: KeyDown| triggers_select_all(key)).len(),
            |i: int| InputEvent::SelectAllPressed,
        ),
    decreases keys.len(),
{
    reveal_with_fuel(Seq::filter, 1);
    if keys.len() > 0 {
        lemma_one_event_per_select_all(keys.drop_last());
        let rest = keys.drop_last();
        let prev = Seq::new(
            rest.filter(|key: KeyDown| triggers_select_all(key)).len(),
            |i: int| InputEvent::SelectAllPressed,
        );
        assert(prev + seq![InputEvent::SelectAllPressed] =~= Seq::new(
            prev.len() + 1,
            |i: int| InputEvent::SelectAllPressed,
        ));
        assert(forwarded_events(keys) =~= Seq::new(
            keys.filter(|key: KeyDown| triggers_select_all(key)).len(),
            |i: int| InputEvent::SelectAllPressed,
        ));
    }
}

/// Every keystroke other than a non-repeat bare Cmd+A is dropped: two
/// key-down streams that hold the same such chords, in the same order,
/// make the tap send the same events, whatever else was typed.
pub proof fn lemma_other_keystrokes_are_dropped(keys: Seq<KeyDown>, other: Seq<KeyDown>)
    requires
        keys.filter(|key: KeyDown| triggers_select_all(key)) == other.filter(
            |key: KeyDown| triggers_select_all(key),
        ),
    ensures
        forwarded_events(keys) == forwarded_events(other),
{
    lemma_one_event_per_select_all(keys);
    lemma_one_event_per_select_all(other);
}

/// Only the A key is the select-all chord: a key-down of any other
/// keycode never produces an event, whatever the modifiers; with bare
/// Command held and no autorepeat, the A key always does.
pub proof fn lemma_only_the_a_key_selects_all(keycode: i64, autorepeat: i64, flags: u64)
    ensures
        key_down_output((keycode, autorepeat, flags)) is Some ==> keycode == 0 && autorepeat == 0,
        key_down_output((keycode, 0, EVENT_FLAG_COMMAND)) is Some <==> keycode == 0,
{
    assert(0x0010_0000u64 & 0x0010_0000u64 != 0 && 0x0010_0000u64 & 0x0004_0000u64 == 0
        && 0x0010_0000u64 & 0x0008_0000u64 == 0 && 0x0010_0000u64 & 0x0002_0000u64 == 0)
        by (bit_vector);
}

/// The select-all chord, as one comparison of the four standard modifier
/// bits: the A key, and among Shift, Control, Option and Command exactly
/// Command.
pub proof fn lemma_select_all_chord_is_a_with_command_alone(keycode: i64, flags: u64)
    ensures
        select_all_chord(keycode, flags) <==> keycode == 0 && flags & 0x001E_0000u64
            == 0x0010_0000u64,
{
    assert((flags & 0x001E_0000u64 == 0x0010_0000u64) == (flags & 0x0010_0000u64 != 0 && flags
        & 0x0004_0000u64 == 0 && flags & 0x0008_0000u64 == 0 && flags & 0x0002_0000u64 == 0))
        by (bit_vector);
}

/// A release with fewer than two clicks and no drag is never a selection,
/// whatever modifiers are held; a release with Control held never is; a
/// double or triple click without Control always is; and so is any drag
/// without Control.
pub proof fn lemma_plain_clicks_are_ignored(flags: u64, click_count: i64, dragged: bool)
    ensures
        click_count < 2 ==> !selection_shaped(flags, click_count, false),
        flags & 0x0004_0000u64 != 0 ==> !selection_shaped(flags, click_count, dragged),
        flags & 0x0004_0000u64 == 0 && click_count >= 2 ==> selection_shaped(flags, click_count, dragged),
        flags & 0x0004_0000u64 == 0 ==> selection_shaped(flags, click_count, true),
        selection_shaped(flags, click_count, dragged) ==> click_count >= 2 || dragged,
{
}

} // verus!
