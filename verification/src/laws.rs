//! What holds of the controller as a whole, proved from its transitions.

use vstd::prelude::*;
use crate::command::Command;
use crate::control::editing::{normalized_pointer, octave_span, pointer_edits, snapshot};
use crate::control::playing::key_note_id;
use crate::control::{dispatch, dispatch_all, Control, EditTarget, Mode, OscillatorTarget};
use crate::input::{ButtonState, Input, WindowSize};
use crate::key::Key;
use crate::patch::{
    DETUNE_MAX, DETUNE_MIN, LFO_FREQ_MAX, OCTAVE_SHIFT_MAX, OCTAVE_SHIFT_MIN, VOICES_MAX,
    VOICES_MIN,
};
use crate::scale::{lemma_scaled_in_range, UNIT};

verus! {

/// The event of a key changing its state.
pub open spec fn key_input(state: ButtonState, key: Key) -> Input {
    match state {
        ButtonState::Press => Input::KeyPress(key),
        ButtonState::Release => Input::KeyRelease(key),
    }
}

/// The keys that play or control the performance when pressed.
pub open spec fn performance_key(key: Key) -> bool {
    ||| key.row() is Some
    ||| key.digit() is Some
    ||| (key.function_number() matches Some(number) && number <= 10)
    ||| key == Key::Space
    ||| key == Key::Up
    ||| key == Key::Down
    ||| key == Key::Left
    ||| key == Key::Right
    ||| key == Key::Minus
    ||| key == Key::Equals
    ||| key == Key::LeftBracket
    ||| key == Key::RightBracket
}

/// The keys of the top-level edit menu.
pub open spec fn menu_key(key: Key) -> bool {
    ||| key == Key::Tab
    ||| key == Key::Escape
    ||| key == Key::O
    ||| key == Key::F
    ||| key == Key::A
    ||| key == Key::L
}

/// The keys that edit the patch in the editor of a target.
pub open spec fn edit_key(target: EditTarget, key: Key) -> bool {
    match target {
        EditTarget::Oscillator(_) => key.digit() matches Some(digit) && 1 <= digit <= 5,
        EditTarget::Filter => key.digit() matches Some(digit) && 1 <= digit <= 4,
        EditTarget::Arpeggiator => {
            ||| (key.digit() matches Some(digit) && digit <= 5)
            ||| (key.function_number() matches Some(number) && number <= 3)
            ||| key == Key::Minus
            ||| key == Key::Equals
        },
        EditTarget::LFO => {
            ||| (key.digit() matches Some(digit) && digit <= 4)
            ||| (key.function_number() matches Some(number) && number <= 3)
        },
        EditTarget::Envelope => false,
    }
}

/// The keys that are bound in a mode, for each of the two things that can
/// happen to a key.
pub open spec fn bound(mode: Mode, state: ButtonState, key: Key) -> bool {
    match (mode, state) {
        (Mode::Playing, ButtonState::Press) => performance_key(key),
        (Mode::Playing, ButtonState::Release) => key.row() is Some || key == Key::Tab,
        (Mode::Editing(_), ButtonState::Press) => key == Key::Space,
        (Mode::Editing(target), ButtonState::Release) => {
            ||| key == Key::Space
            ||| menu_key(key)
            ||| (target matches Some(t) && edit_key(t, key))
        },
    }
}

/// A key that is not bound in the current mode does nothing: no command is
/// sent and the state stays as it is.
pub proof fn lemma_unbound_key_is_ignored(
    control: Control,
    state: ButtonState,
    key: Key,
    window_size: WindowSize,
)
    requires
        !bound(control.mode, state, key),
    ensures
        dispatch(control, key_input(state, key), window_size) == (control, Seq::<Command>::empty()),
{
}

/// A key that is bound in the current mode sends a command, unless it is a
/// key that only switches the mode: `Tab` while playing, a menu key while
/// editing.
pub proof fn lemma_bound_key_acts(
    control: Control,
    state: ButtonState,
    key: Key,
    window_size: WindowSize,
)
    requires
        bound(control.mode, state, key),
    ensures
        ({
            let (after, sent) = dispatch(control, key_input(state, key), window_size);
            ||| sent.len() >= 1
            ||| (state == ButtonState::Release && control.mode == Mode::Playing && key == Key::Tab
                && after.mode == Mode::Editing(None))
            ||| (state == ButtonState::Release && control.mode is Editing && menu_key(key))
        }),
{
}

/// Opening the edit menu and leaving it again, by `Tab` or by `Escape`,
/// leads back to playing with the patch untouched and nothing sent.
pub proof fn lemma_menu_round_trip(control: Control, back: Key, window_size: WindowSize)
    requires
        control.mode == Mode::Playing,
        back == Key::Tab || back == Key::Escape,
    ensures
        ({
            let (menu, entering) = dispatch(control, Input::KeyRelease(Key::Tab), window_size);
            let (after, leaving) = dispatch(menu, Input::KeyRelease(back), window_size);
            &&& menu.mode == Mode::Editing(None)
            &&& menu.instrument == control.instrument
            &&& menu.arpeggiator == control.arpeggiator
            &&& after == control
            &&& entering == Seq::<Command>::empty()
            &&& leaving == Seq::<Command>::empty()
        }),
{
}

/// From the edit menu and from every editor, `Tab` and `Escape` lead back to
/// playing; the patch stays as it is and nothing is sent.
pub proof fn lemma_return_key_leaves_editing(control: Control, back: Key, window_size: WindowSize)
    requires
        control.mode is Editing,
        back == Key::Tab || back == Key::Escape,
    ensures
        dispatch(control, Input::KeyRelease(back), window_size) == (
            Control { mode: Mode::Playing, ..control },
            Seq::<Command>::empty(),
        ),
{
}

/// Whatever events arrive, in whatever order, a patch whose settings are
/// inside their ranges stays so: the number of voices stays in `[1, 40]`,
/// the octave range stays a range of octave shifts, every continuous
/// setting stays between its bounds.
pub proof fn lemma_settings_stay_in_range(
    control: Control,
    inputs: Seq<Input>,
    window_size: WindowSize,
)
    requires
        control.wf(),
    ensures
        dispatch_all(control, inputs, window_size).0.wf(),
    decreases inputs.len(),
{
    if inputs.len() > 0 {
        lemma_settings_stay_in_range(control, inputs.drop_last(), window_size);
        let before = dispatch_all(control, inputs.drop_last(), window_size).0;
        lemma_step_keeps_ranges(before, inputs.last(), window_size);
    }
}

/// One event keeps the settings inside their ranges.
pub proof fn lemma_step_keeps_ranges(control: Control, input: Input, window_size: WindowSize)
    requires
        control.wf(),
    ensures
        dispatch(control, input, window_size).0.wf(),
{
    if control.mode is Editing && pointer_edits(control.mode) && window_size.has_area() {
        match input {
            Input::PointerMoveAbsolute(x, y) => {
                let (norm_x, norm_y) = normalized_pointer(x, y, window_size);
                lemma_scaled_in_range(norm_x, 0, UNIT as int);
                lemma_scaled_in_range(norm_y, 0, UNIT as int);
                lemma_scaled_in_range(norm_y, VOICES_MIN as int, VOICES_MAX as int);
                lemma_scaled_in_range(norm_x, DETUNE_MIN as int, DETUNE_MAX as int);
                lemma_scaled_in_range(norm_x, 0, LFO_FREQ_MAX as int);
                lemma_scaled_in_range(norm_y, OCTAVE_SHIFT_MIN as int, OCTAVE_SHIFT_MAX as int);
                lemma_scaled_in_range(norm_x, 0, octave_span());
            },
            _ => {},
        }
    }
}

/// Choosing the mix while the oscillator is a mix already keeps the number
/// of voices, the detune and the waveform, and changes the seed.
pub proof fn lemma_mix_again_changes_seed(control: Control, window_size: WindowSize)
    requires
        control.mode matches Mode::Editing(Some(EditTarget::Oscillator(_))),
        control.instrument.oscillator is Mix,
    ensures
        ({
            let (after, sent) = dispatch(control, Input::KeyRelease(Key::D5), window_size);
            &&& after.mode == Mode::Editing(
                Some(EditTarget::Oscillator(Some(OscillatorTarget::Mix))),
            )
            &&& after.instrument.oscillator is Mix
            &&& after.instrument.oscillator->n_voices == control.instrument.oscillator->n_voices
            &&& after.instrument.oscillator->detune_amount
                == control.instrument.oscillator->detune_amount
            &&& after.instrument.oscillator->base_kind == control.instrument.oscillator->base_kind
            &&& after.instrument.oscillator->random_seed
                != control.instrument.oscillator->random_seed
            &&& sent == snapshot(after)
        }),
{
}

/// Choosing the mix, moving the pointer, and choosing the mix again: the
/// second choice keeps the number of voices and the detune that the
/// pointer left, and its seed differs from that of the first choice.
pub proof fn lemma_mix_twice_in_a_row(control: Control, x: i32, y: i32, window_size: WindowSize)
    requires
        control.mode matches Mode::Editing(Some(EditTarget::Oscillator(_))),
    ensures
        ({
            let first = dispatch(control, Input::KeyRelease(Key::D5), window_size).0;
            let moved = dispatch(first, Input::PointerMoveAbsolute(x, y), window_size).0;
            let second = dispatch(moved, Input::KeyRelease(Key::D5), window_size).0;
            &&& first.instrument.oscillator is Mix
            &&& moved.instrument.oscillator is Mix
            &&& second.instrument.oscillator is Mix
            &&& second.instrument.oscillator->n_voices == moved.instrument.oscillator->n_voices
            &&& second.instrument.oscillator->detune_amount
                == moved.instrument.oscillator->detune_amount
            &&& second.instrument.oscillator->random_seed
                != first.instrument.oscillator->random_seed
        }),
{
}

/// While playing, pressing a key of the playable rows starts its note and
/// releasing it stops the note of the same identity; the state is the same
/// before and after.
pub proof fn lemma_note_on_then_off(control: Control, key: Key, window_size: WindowSize)
    requires
        control.mode == Mode::Playing,
        key.row() is Some,
    ensures
        ({
            let (held, on) = dispatch(control, Input::KeyPress(key), window_size);
            let (after, off) = dispatch(held, Input::KeyRelease(key), window_size);
            &&& key_note_id(key) is Some
            &&& on == seq![
                Command::NoteOn(key_note_id(key)->0.pitch, UNIT, key_note_id(key)->0),
            ]
            &&& off == seq![Command::NoteOff(key_note_id(key)->0)]
            &&& held == control
            &&& after == control
        }),
{
}

/// The notes of two different keys have different identities, also where
/// the two keys have the same pitch: the discriminator of a note is the row
/// of its key.
pub proof fn lemma_note_ids_distinct(a: Key, b: Key)
    requires
        a.row() is Some,
        b.row() is Some,
        a != b,
    ensures
        key_note_id(a) is Some,
        key_note_id(b) is Some,
        key_note_id(a) != key_note_id(b),
        key_note_id(a)->0.discriminator == a.row()->0,
{
}

/// The engine never holds a stale patch: an event that changes the
/// instrument or the arpeggiator sends both, whole, the instrument first.
/// No event sends more than these two commands, and playing changes
/// neither.
pub proof fn lemma_patch_change_is_sent(control: Control, input: Input, window_size: WindowSize)
    ensures
        ({
            let (after, sent) = dispatch(control, input, window_size);
            &&& (after.instrument != control.instrument || after.arpeggiator
                != control.arpeggiator) ==> sent == snapshot(after)
            &&& sent.len() <= 2
            &&& sent.len() == 2 ==> sent == snapshot(after)
            &&& control.mode == Mode::Playing ==> after.instrument == control.instrument
                && after.arpeggiator == control.arpeggiator
        }),
{
}

/// The settings that the pointer moves in the editor of the current mode
/// are inside their ranges. Where the setting is missing (an oscillator of
/// another kind, no LFO, no arpeggiator) there is nothing to say.
pub open spec fn pointer_settings_in_range(control: Control) -> bool {
    match control.mode {
        Mode::Editing(Some(EditTarget::Oscillator(Some(OscillatorTarget::Pulse)))) => {
            control.instrument.oscillator is Pulse ==> control.instrument.oscillator.wf()
        },
        Mode::Editing(Some(EditTarget::Oscillator(Some(OscillatorTarget::Mix)))) => {
            control.instrument.oscillator is Mix ==> control.instrument.oscillator.wf()
        },
        Mode::Editing(Some(EditTarget::Filter)) => control.instrument.filter.wf(),
        Mode::Editing(Some(EditTarget::LFO)) => {
            control.instrument.lfo matches Some(lfo) ==> lfo.wf()
        },
        Mode::Editing(Some(EditTarget::Arpeggiator)) => {
            control.arpeggiator matches Some(arpeggiator) ==> arpeggiator.wf()
        },
        _ => true,
    }
}

/// A pointer event, by position or by motion, puts the settings that it
/// moves inside their ranges, whatever they were before, and leaves the
/// mode as it is.
pub proof fn lemma_pointer_settings_in_range(
    control: Control,
    input: Input,
    window_size: WindowSize,
)
    requires
        input is PointerMoveAbsolute || input is PointerMoveRelative,
        pointer_edits(control.mode),
        window_size.has_area(),
    ensures
        ({
            let (after, sent) = dispatch(control, input, window_size);
            &&& after.mode == control.mode
            &&& pointer_settings_in_range(after)
            &&& sent == snapshot(after)
        }),
{
    if let Input::PointerMoveAbsolute(x, y) = input {
        let (norm_x, norm_y) = normalized_pointer(x, y, window_size);
        lemma_scaled_in_range(norm_x, 0, UNIT as int);
        lemma_scaled_in_range(norm_y, 0, UNIT as int);
        lemma_scaled_in_range(norm_y, VOICES_MIN as int, VOICES_MAX as int);
        lemma_scaled_in_range(norm_x, DETUNE_MIN as int, DETUNE_MAX as int);
        lemma_scaled_in_range(norm_x, 0, LFO_FREQ_MAX as int);
        lemma_scaled_in_range(norm_y, OCTAVE_SHIFT_MIN as int, OCTAVE_SHIFT_MAX as int);
        lemma_scaled_in_range(norm_x, 0, octave_span());
    }
}

/// One event keeps the oscillator editor on the sub-target of the
/// oscillator that is in place.
pub proof fn lemma_step_keeps_coherence(control: Control, input: Input, window_size: WindowSize)
    requires
        control.coherent(),
    ensures
        dispatch(control, input, window_size).0.coherent(),
{
}

/// From the state at startup, whatever events arrive, the oscillator
/// editor never shows the settings of an oscillator that is not in place,
/// and every setting is inside its range.
pub proof fn lemma_reachable_states_are_sound(inputs: Seq<Input>, window_size: WindowSize)
    ensures
        dispatch_all(Control::initial(), inputs, window_size).0.coherent(),
        dispatch_all(Control::initial(), inputs, window_size).0.wf(),
    decreases inputs.len(),
{
    lemma_settings_stay_in_range(Control::initial(), inputs, window_size);
    if inputs.len() > 0 {
        lemma_reachable_states_are_sound(inputs.drop_last(), window_size);
        let before = dispatch_all(Control::initial(), inputs.drop_last(), window_size).0;
        lemma_step_keeps_coherence(before, inputs.last(), window_size);
    }
}

/// The pointer leaves the mode as it is, and a pointer position that
/// arrives twice does the second time what it did the first time.
pub proof fn lemma_pointer_position_is_idempotent(
    control: Control,
    x: i32,
    y: i32,
    window_size: WindowSize,
)
    ensures
        ({
            let input = Input::PointerMoveAbsolute(x, y);
            let once = dispatch(control, input, window_size);
            let twice = dispatch(once.0, input, window_size);
            &&& once.0.mode == control.mode
            &&& twice == once
        }),
{
}

} // verus!
