//! Editing mode: keys choose what to edit and set categorical settings, the
//! pointer moves the continuous and discrete settings of the active target.
//!
//! After every edit the engine gets the whole patch again, instrument
//! first, arpeggiator second.
//!
//! The pointer is read in one of two ways. A position sets each setting of
//! the active target to the point of its range that the position selects;
//! a motion moves each setting by its share of the motion and holds it
//! inside its range. A host feeds the controller one of the two kinds of
//! event, not both.

use vstd::prelude::*;
use crate::command::Command;
use crate::control::{Control, EditTarget, Mode, OscillatorTarget};
use crate::input::{ButtonState, Input, WindowSize};
use crate::key::Key;
use crate::patch::{
    ArpeggiatorSpec, BasicKind, Chord, Direction, FilterModTarget, FilterSpec, FilterType,
    InstrumentSpec, LFOSpec, ModTarget, OctaveShift, OscillatorModTarget, OscillatorSpec,
    PhraseSpec, DETUNE_MAX, DETUNE_MIN, LFO_FREQ_MAX, OCTAVE_SHIFT_MAX, OCTAVE_SHIFT_MIN,
    VOICES_MAX, VOICES_MIN,
};
use crate::pitch::{id_discr, NoteId, Pitch, PitchClass};
use crate::scale::{
    accumulate_continuous, accumulate_discrete, accumulated, clamped, fraction, ratio,
    scale_continuous, scale_discrete, scaled, UNIT,
};

verus! {

/// The whole patch as two commands.
pub open spec fn snapshot(control: Control) -> Seq<Command> {
    seq![
        Command::ReplaceInstrumentPatch(control.instrument),
        Command::ReplaceArpeggiatorPatch(control.arpeggiator),
    ]
}

/// The identity of the note that the space bar plays while editing.
pub open spec fn preview_id() -> NoteId {
    NoteId { pitch: Pitch::concert(), discriminator: 0 }
}

/// Where a key of the top-level menu leads: `Tab` and `Escape` back to
/// playing, a letter to the editor of that name. Other keys lead nowhere.
pub open spec fn menu_mode(mode: Mode, key: Key) -> Mode {
    match key {
        Key::Tab | Key::Escape => Mode::Playing,
        Key::O => Mode::Editing(Some(EditTarget::Oscillator(None))),
        Key::F => Mode::Editing(Some(EditTarget::Filter)),
        Key::A => Mode::Editing(Some(EditTarget::Arpeggiator)),
        Key::L => Mode::Editing(Some(EditTarget::LFO)),
        _ => mode,
    }
}

/// The seed after `seed`; after the greatest comes 0.
pub open spec fn next_seed(seed: u64) -> u64 {
    if seed == u64::MAX {
        0
    } else {
        (seed + 1) as u64
    }
}

/// The mix that choosing the mix puts in place of `old`: a mix keeps its
/// settings and gets the next seed, anything else gives way to a mix of 8
/// saw voices detuned by `3.0`.
pub open spec fn mix_after(old: OscillatorSpec) -> OscillatorSpec {
    match old {
        OscillatorSpec::Mix { n_voices, detune_amount, base_kind, random_seed } => {
            OscillatorSpec::Mix {
                n_voices,
                detune_amount,
                base_kind,
                random_seed: next_seed(random_seed),
            }
        },
        _ => OscillatorSpec::Mix {
            n_voices: 8,
            detune_amount: 3_000_000,
            base_kind: BasicKind::Saw,
            random_seed: 0,
        },
    }
}

/// The oscillator that a key of the oscillator editor chooses, with the
/// sub-target that the editor then shows.
pub open spec fn oscillator_choice(old: OscillatorSpec, key: Key) -> Option<
    (OscillatorSpec, Option<OscillatorTarget>),
> {
    match key {
        Key::D1 => Some((OscillatorSpec::Basic(BasicKind::Sine), None)),
        Key::D2 => Some((OscillatorSpec::Basic(BasicKind::Saw), None)),
        Key::D3 => Some((OscillatorSpec::Basic(BasicKind::Square), None)),
        Key::D4 => Some((OscillatorSpec::Pulse(500_000), Some(OscillatorTarget::Pulse))),
        Key::D5 => Some((mix_after(old), Some(OscillatorTarget::Mix))),
        _ => None,
    }
}

/// The filter type that a key of the filter editor chooses.
pub open spec fn filter_choice(key: Key) -> Option<FilterType> {
    match key {
        Key::D1 => Some(FilterType::LPF),
        Key::D2 => Some(FilterType::HPF),
        Key::D3 => Some(FilterType::BPF),
        Key::D4 => Some(FilterType::Notch),
        _ => None,
    }
}

/// The phrase after a key of the arpeggiator editor: digits choose the
/// chord, `F1` to `F3` the direction, `-` halves and `=` doubles the note
/// length where that is possible and leaves it where it is not.
pub open spec fn phrase_choice(old: PhraseSpec, key: Key) -> Option<PhraseSpec> {
    match key {
        Key::D1 => Some(PhraseSpec { chord: Chord::Octaves, ..old }),
        Key::D2 => Some(PhraseSpec { chord: Chord::Triad, ..old }),
        Key::D3 => Some(PhraseSpec { chord: Chord::Fantasy, ..old }),
        Key::D4 => Some(PhraseSpec { chord: Chord::Tetra, ..old }),
        Key::D5 => Some(PhraseSpec { chord: Chord::Penta, ..old }),
        Key::F1 => Some(PhraseSpec { direction: Direction::Up, ..old }),
        Key::F2 => Some(PhraseSpec { direction: Direction::Down, ..old }),
        Key::F3 => Some(PhraseSpec { direction: Direction::UpDown, ..old }),
        Key::Minus => Some(
            match old.duration.halved() {
                Some(duration) => PhraseSpec { duration, ..old },
                None => old,
            },
        ),
        Key::Equals => Some(
            match old.duration.doubled() {
                Some(duration) => PhraseSpec { duration, ..old },
                None => old,
            },
        ),
        _ => None,
    }
}

/// The LFO after a key of the LFO editor: digits choose what it drives,
/// `F1` to `F3` its waveform.
pub open spec fn lfo_choice(old: LFOSpec, key: Key) -> Option<LFOSpec> {
    match key {
        Key::D1 => Some(LFOSpec { target: ModTarget::Volume, ..old }),
        Key::D2 => Some(LFOSpec { target: ModTarget::Filter(FilterModTarget::Cutoff), ..old }),
        Key::D3 => Some(LFOSpec { target: ModTarget::Filter(FilterModTarget::QFactor), ..old }),
        Key::D4 => Some(
            LFOSpec { target: ModTarget::Oscillator(OscillatorModTarget::PulseDuty), ..old },
        ),
        Key::F1 => Some(LFOSpec { oscillator: BasicKind::Sine, ..old }),
        Key::F2 => Some(LFOSpec { oscillator: BasicKind::Saw, ..old }),
        Key::F3 => Some(LFOSpec { oscillator: BasicKind::Square, ..old }),
        _ => None,
    }
}

/// The phrase that arpeggiator edits start from: the current one, or the
/// initial one while the arpeggiator is off.
pub open spec fn current_phrase(control: Control) -> PhraseSpec {
    match control.arpeggiator {
        Some(arpeggiator) => arpeggiator.phrase,
        None => PhraseSpec::initial(),
    }
}

/// The LFO that LFO edits start from: the current one, or the initial one
/// while there is none.
pub open spec fn current_lfo(control: Control) -> LFOSpec {
    match control.instrument.lfo {
        Some(lfo) => lfo,
        None => LFOSpec::initial(),
    }
}

/// The state after a key of the oscillator editor put an oscillator in
/// place, or `None` where the key chooses none. The editor then shows the
/// sub-target of the chosen oscillator.
pub open spec fn oscillator_edit(control: Control, key: Key) -> Option<Control> {
    match oscillator_choice(control.instrument.oscillator, key) {
        Some((oscillator, target)) => Some(
            Control {
                mode: Mode::Editing(Some(EditTarget::Oscillator(target))),
                instrument: InstrumentSpec { oscillator, ..control.instrument },
                ..control
            },
        ),
        None => None,
    }
}

/// The state after a key of the filter editor chose a filter type, or
/// `None` where the key chooses none. The chosen type starts from the
/// initial cutoff and resonance.
pub open spec fn filter_edit(control: Control, key: Key) -> Option<Control> {
    match filter_choice(key) {
        Some(filter_type) => Some(
            Control {
                instrument: InstrumentSpec {
                    filter: FilterSpec::of_type(filter_type),
                    ..control.instrument
                },
                ..control
            },
        ),
        None => None,
    }
}

/// The state after an edit key of the arpeggiator editor, or `None` where
/// the key edits nothing. `0` switches the arpeggiator off; any other edit
/// switches it on in the key of C.
pub open spec fn arpeggiator_edit(control: Control, key: Key) -> Option<Control> {
    match key {
        Key::D0 => Some(Control { arpeggiator: None, ..control }),
        _ => match phrase_choice(current_phrase(control), key) {
            Some(phrase) => Some(
                Control {
                    arpeggiator: Some(ArpeggiatorSpec { key: PitchClass::C, phrase }),
                    ..control
                },
            ),
            None => None,
        },
    }
}

/// The state after an edit key of the LFO editor, or `None` where the key
/// edits nothing. `0` removes the LFO; any other edit puts one in place.
pub open spec fn lfo_edit(control: Control, key: Key) -> Option<Control> {
    match key {
        Key::D0 => Some(
            Control { instrument: InstrumentSpec { lfo: None, ..control.instrument }, ..control },
        ),
        _ => match lfo_choice(current_lfo(control), key) {
            Some(lfo) => Some(
                Control {
                    instrument: InstrumentSpec { lfo: Some(lfo), ..control.instrument },
                    ..control
                },
            ),
            None => None,
        },
    }
}

/// A step of the top-level menu: the mode may change, nothing is sent.
pub open spec fn menu_step(control: Control, key: Key) -> (Control, Seq<Command>) {
    (Control { mode: menu_mode(control.mode, key), ..control }, Seq::empty())
}

/// What an editor does with a key: where the key makes an edit, the edited
/// state with the whole patch as commands; where it makes none, a step of
/// the menu.
pub open spec fn edit_or_menu(control: Control, edited: Option<Control>, key: Key) -> (
    Control,
    Seq<Command>,
) {
    match edited {
        Some(after) => (after, snapshot(after)),
        None => menu_step(control, key),
    }
}

/// The state after the edit that a key makes in the active editor, or
/// `None` where the key edits nothing there.
pub open spec fn key_edit(control: Control, key: Key) -> Option<Control> {
    match control.mode {
        Mode::Editing(Some(EditTarget::Oscillator(_))) => oscillator_edit(control, key),
        Mode::Editing(Some(EditTarget::Filter)) => filter_edit(control, key),
        Mode::Editing(Some(EditTarget::Arpeggiator)) => arpeggiator_edit(control, key),
        Mode::Editing(Some(EditTarget::LFO)) => lfo_edit(control, key),
        _ => None,
    }
}

/// The transition on the release of a key other than the space bar: the
/// key goes to the editor of the active target. Outside editing mode
/// nothing happens.
pub open spec fn release_step(control: Control, key: Key) -> (Control, Seq<Command>) {
    match control.mode {
        Mode::Playing => (control, Seq::empty()),
        Mode::Editing(_) => edit_or_menu(control, key_edit(control, key), key),
    }
}

/// The transition on a key event.
///
/// The space bar plays a preview note at concert pitch whatever is being
/// edited. Other keys act when they are released.
pub open spec fn button_step(control: Control, state: ButtonState, key: Key) -> (
    Control,
    Seq<Command>,
) {
    match (state, key) {
        (ButtonState::Press, Key::Space) => (
            control,
            seq![Command::NoteOn(Pitch::concert(), UNIT, preview_id())],
        ),
        (ButtonState::Release, Key::Space) => (control, seq![Command::NoteOff(preview_id())]),
        (ButtonState::Press, _) => (control, Seq::empty()),
        (ButtonState::Release, _) => release_step(control, key),
    }
}

/// The pointer position normalized against the viewport and clamped to
/// `[0, UNIT]`, the vertical coordinate counted upwards from the bottom
/// edge.
pub open spec fn normalized_pointer(x: i32, y: i32, window_size: WindowSize) -> (int, int) {
    (
        clamped(fraction(x as int, window_size.width as int), 0, UNIT as int),
        clamped(UNIT - fraction(y as int, window_size.height as int), 0, UNIT as int),
    )
}

/// The pointer motion as fractions of the viewport, upwards positive.
pub open spec fn normalized_motion(dx: i32, dy: i32, window_size: WindowSize) -> (int, int) {
    (fraction(dx as int, window_size.width as int), -fraction(dy as int, window_size.height as int))
}

/// The modes in which the pointer moves settings of the patch.
pub open spec fn pointer_edits(mode: Mode) -> bool {
    match mode {
        Mode::Editing(Some(EditTarget::Oscillator(Some(_)))) => true,
        Mode::Editing(Some(EditTarget::Filter)) => true,
        Mode::Editing(Some(EditTarget::LFO)) => true,
        Mode::Editing(Some(EditTarget::Arpeggiator)) => true,
        _ => false,
    }
}

/// The widest octave range, in octaves.
pub open spec fn octave_span() -> int {
    OCTAVE_SHIFT_MAX - OCTAVE_SHIFT_MIN
}

/// The octave range of given bottom and width, cut off at the highest
/// shift.
pub open spec fn octave_range(bottom: int, width: int) -> (OctaveShift, OctaveShift) {
    let top = if bottom + width > OCTAVE_SHIFT_MAX {
        OCTAVE_SHIFT_MAX as int
    } else {
        bottom + width
    };
    (OctaveShift::of_octaves(bottom), OctaveShift::of_octaves(top))
}

/// The octave range at a normalized pointer position: the horizontal
/// coordinate gives the width of the range, the vertical one its bottom.
pub open spec fn octaves_at(x: int, y: int) -> (OctaveShift, OctaveShift) {
    octave_range(
        scaled(y, OCTAVE_SHIFT_MIN as int, OCTAVE_SHIFT_MAX as int),
        scaled(x, 0, octave_span()),
    )
}

/// The octave range after a normalized pointer motion: the horizontal
/// motion widens or narrows the range, the vertical one moves its bottom.
pub open spec fn octaves_moved(old: (OctaveShift, OctaveShift), dx: int, dy: int) -> (
    OctaveShift,
    OctaveShift,
) {
    octave_range(
        accumulated(old.0.octaves(), dy, OCTAVE_SHIFT_MIN as int, OCTAVE_SHIFT_MAX as int),
        accumulated(old.1.octaves() - old.0.octaves(), dx, 0, octave_span()),
    )
}

/// The state after the pointer came to the normalized position `(x, y)`.
///
/// Where the setting that the active target moves is missing (an
/// oscillator of another kind, no LFO, no arpeggiator), nothing changes.
pub open spec fn moved_to(control: Control, x: int, y: int) -> Control {
    let instrument = control.instrument;
    match control.mode {
        Mode::Editing(Some(EditTarget::Oscillator(Some(OscillatorTarget::Pulse)))) => {
            match instrument.oscillator {
                OscillatorSpec::Pulse(_) => Control {
                    instrument: InstrumentSpec {
                        oscillator: OscillatorSpec::Pulse(scaled(x, 0, UNIT as int) as i64),
                        ..instrument
                    },
                    ..control
                },
                _ => control,
            }
        },
        Mode::Editing(Some(EditTarget::Oscillator(Some(OscillatorTarget::Mix)))) => {
            match instrument.oscillator {
                OscillatorSpec::Mix { base_kind, random_seed, .. } => Control {
                    instrument: InstrumentSpec {
                        oscillator: OscillatorSpec::Mix {
                            n_voices: scaled(y, VOICES_MIN as int, VOICES_MAX as int) as u8,
                            detune_amount: scaled(x, DETUNE_MIN as int, DETUNE_MAX as int) as i64,
                            base_kind,
                            random_seed,
                        },
                        ..instrument
                    },
                    ..control
                },
                _ => control,
            }
        },
        Mode::Editing(Some(EditTarget::Filter)) => Control {
            instrument: InstrumentSpec {
                filter: FilterSpec {
                    cutoff: scaled(y, 0, UNIT as int) as i64,
                    resonance: scaled(x, 0, UNIT as int) as i64,
                    ..instrument.filter
                },
                ..instrument
            },
            ..control
        },
        Mode::Editing(Some(EditTarget::Arpeggiator)) => match control.arpeggiator {
            Some(arpeggiator) => {
                let (octave_min, octave_max) = octaves_at(x, y);
                Control {
                    arpeggiator: Some(
                        ArpeggiatorSpec {
                            phrase: PhraseSpec { octave_min, octave_max, ..arpeggiator.phrase },
                            ..arpeggiator
                        },
                    ),
                    ..control
                }
            },
            None => control,
        },
        Mode::Editing(Some(EditTarget::LFO)) => match instrument.lfo {
            Some(lfo) => Control {
                instrument: InstrumentSpec {
                    lfo: Some(
                        LFOSpec {
                            amount: scaled(y, 0, UNIT as int) as i64,
                            freq: scaled(x, 0, LFO_FREQ_MAX as int) as i64,
                            ..lfo
                        },
                    ),
                    ..instrument
                },
                ..control
            },
            None => control,
        },
        _ => control,
    }
}

/// The state after the pointer moved by the normalized amounts
/// `(dx, dy)`: each setting that `moved_to` would set is moved by its
/// share of the motion instead and held inside its range.
pub open spec fn moved_by(control: Control, dx: int, dy: int) -> Control {
    let instrument = control.instrument;
    match control.mode {
        Mode::Editing(Some(EditTarget::Oscillator(Some(OscillatorTarget::Pulse)))) => {
            match instrument.oscillator {
                OscillatorSpec::Pulse(duty) => Control {
                    instrument: InstrumentSpec {
                        oscillator: OscillatorSpec::Pulse(
                            accumulated(duty as int, dx, 0, UNIT as int) as i64,
                        ),
                        ..instrument
                    },
                    ..control
                },
                _ => control,
            }
        },
        Mode::Editing(Some(EditTarget::Oscillator(Some(OscillatorTarget::Mix)))) => {
            match instrument.oscillator {
                OscillatorSpec::Mix { n_voices, detune_amount, base_kind, random_seed } => Control {
                    instrument: InstrumentSpec {
                        oscillator: OscillatorSpec::Mix {
                            n_voices: accumulated(
                                n_voices as int,
                                dy,
                                VOICES_MIN as int,
                                VOICES_MAX as int,
                            ) as u8,
                            detune_amount: accumulated(
                                detune_amount as int,
                                dx,
                                DETUNE_MIN as int,
                                DETUNE_MAX as int,
                            ) as i64,
                            base_kind,
                            random_seed,
                        },
                        ..instrument
                    },
                    ..control
                },
                _ => control,
            }
        },
        Mode::Editing(Some(EditTarget::Filter)) => Control {
            instrument: InstrumentSpec {
                filter: FilterSpec {
                    cutoff: accumulated(instrument.filter.cutoff as int, dy, 0, UNIT as int) as i64,
                    resonance: accumulated(
                        instrument.filter.resonance as int,
                        dx,
                        0,
                        UNIT as int,
                    ) as i64,
                    ..instrument.filter
                },
                ..instrument
            },
            ..control
        },
        Mode::Editing(Some(EditTarget::Arpeggiator)) => match control.arpeggiator {
            Some(arpeggiator) => {
                let (octave_min, octave_max) = octaves_moved(
                    (arpeggiator.phrase.octave_min, arpeggiator.phrase.octave_max),
                    dx,
                    dy,
                );
                Control {
                    arpeggiator: Some(
                        ArpeggiatorSpec {
                            phrase: PhraseSpec { octave_min, octave_max, ..arpeggiator.phrase },
                            ..arpeggiator
                        },
                    ),
                    ..control
                }
            },
            None => control,
        },
        Mode::Editing(Some(EditTarget::LFO)) => match instrument.lfo {
            Some(lfo) => Control {
                instrument: InstrumentSpec {
                    lfo: Some(
                        LFOSpec {
                            amount: accumulated(lfo.amount as int, dy, 0, UNIT as int) as i64,
                            freq: accumulated(lfo.freq as int, dx, 0, LFO_FREQ_MAX as int) as i64,
                            ..lfo
                        },
                    ),
                    ..instrument
                },
                ..control
            },
            None => control,
        },
        _ => control,
    }
}

/// The transition on a pointer event. In a mode in which the pointer edits
/// and with a viewport that has an area, the edit is made and the whole
/// patch sent; else nothing happens.
pub open spec fn pointer_step(control: Control, input: Input, window_size: WindowSize) -> (
    Control,
    Seq<Command>,
) {
    if pointer_edits(control.mode) && window_size.has_area() {
        match input {
            Input::PointerMoveAbsolute(x, y) => {
                let (norm_x, norm_y) = normalized_pointer(x, y, window_size);
                let edited = moved_to(control, norm_x, norm_y);
                (edited, snapshot(edited))
            },
            Input::PointerMoveRelative(dx, dy) => {
                let (norm_dx, norm_dy) = normalized_motion(dx, dy, window_size);
                let edited = moved_by(control, norm_dx, norm_dy);
                (edited, snapshot(edited))
            },
            _ => (control, Seq::empty()),
        }
    } else {
        (control, Seq::empty())
    }
}

/// The transition of editing mode.
pub open spec fn step(control: Control, input: Input, window_size: WindowSize) -> (
    Control,
    Seq<Command>,
) {
    match input {
        Input::KeyPress(key) => button_step(control, ButtonState::Press, key),
        Input::KeyRelease(key) => button_step(control, ButtonState::Release, key),
        _ => pointer_step(control, input, window_size),
    }
}

/// Handles one event in editing mode.
pub fn handle_input(input: &Input, window_size: WindowSize, control: &mut Control) -> (commands:
    Vec<Command>)
    ensures
        (*final(control), commands@) == step(*old(control), *input, window_size),
        old(control).wf() ==> final(control).wf(),
{
    match *input {
        Input::KeyPress(key) => handle_button(ButtonState::Press, key, control),
        Input::KeyRelease(key) => handle_button(ButtonState::Release, key, control),
        _ => handle_mouse(input, control, window_size),
    }
}

/// Handles a key: the space bar at once, any other key on its release.
pub fn handle_button(state: ButtonState, key: Key, control: &mut Control) -> (commands: Vec<
    Command,
>)
    ensures
        (*final(control), commands@) == button_step(*old(control), state, key),
        old(control).wf() ==> final(control).wf(),
{
    match (state, key) {
        (_, Key::Space) => handle_spacebar(state),
        (ButtonState::Release, _) => handle_key(key, control),
        _ => Vec::new(),
    }
}

/// The preview note: on with the press of the space bar, off with its
/// release.
pub fn handle_spacebar(state: ButtonState) -> (commands: Vec<Command>)
    ensures
        commands@ == (match state {
            ButtonState::Press => seq![Command::NoteOn(Pitch::concert(), UNIT, preview_id())],
            ButtonState::Release => seq![Command::NoteOff(preview_id())],
        }),
{
    let pitch: Pitch = Pitch::default();
    let id: NoteId = id_discr(pitch, 0);
    match state {
        ButtonState::Press => vec![Command::NoteOn(pitch, UNIT, id)],
        ButtonState::Release => vec![Command::NoteOff(id)],
    }
}

/// Routes a released key to the editor of the active target.
pub fn handle_key(key: Key, control: &mut Control) -> (commands: Vec<Command>)
    ensures
        (*final(control), commands@) == release_step(*old(control), key),
        old(control).wf() ==> final(control).wf(),
{
    match control.mode {
        Mode::Editing(None) => main_menu(key, control),
        Mode::Editing(Some(EditTarget::Oscillator(_))) => oscillator(key, control),
        Mode::Editing(Some(EditTarget::Filter)) => filter(key, control),
        Mode::Editing(Some(EditTarget::Arpeggiator)) => arpeggiator(key, control),
        Mode::Editing(Some(EditTarget::LFO)) => lfo(key, control),
        Mode::Editing(Some(EditTarget::Envelope)) => main_menu(key, control),
        Mode::Playing => Vec::new(),
    }
}

/// The top-level menu; the editors hand it the keys that they do not use.
pub fn main_menu(key: Key, control: &mut Control) -> (commands: Vec<Command>)
    ensures
        (*final(control), commands@) == menu_step(*old(control), key),
{
    match key {
        Key::Tab | Key::Escape => {
            control.mode = Mode::Playing;
        },
        Key::O => {
            control.mode = Mode::Editing(Some(EditTarget::Oscillator(None)));
        },
        Key::F => {
            control.mode = Mode::Editing(Some(EditTarget::Filter));
        },
        Key::A => {
            control.mode = Mode::Editing(Some(EditTarget::Arpeggiator));
        },
        Key::L => {
            control.mode = Mode::Editing(Some(EditTarget::LFO));
        },
        _ => {},
    }
    Vec::new()
}

/// The oscillator that follows `old` when the mix is chosen.
pub fn next_mix(old: OscillatorSpec) -> (mix: OscillatorSpec)
    ensures
        mix == mix_after(old),
        old.wf() ==> mix.wf(),
{
    match old {
        OscillatorSpec::Mix { n_voices, detune_amount, base_kind, random_seed } => {
            let seed: u64 = if random_seed == u64::MAX {
                0
            } else {
                random_seed + 1
            };
            OscillatorSpec::Mix { n_voices, detune_amount, base_kind, random_seed: seed }
        },
        _ => OscillatorSpec::Mix {
            n_voices: 8,
            detune_amount: 3_000_000,
            base_kind: BasicKind::Saw,
            random_seed: 0,
        },
    }
}

/// Puts an oscillator in place, shows its sub-target and sends the patch.
fn set_oscillator(
    oscillator: OscillatorSpec,
    target: Option<OscillatorTarget>,
    control: &mut Control,
) -> (commands: Vec<Command>)
    ensures
        *final(control) == (Control {
            mode: Mode::Editing(Some(EditTarget::Oscillator(target))),
            instrument: InstrumentSpec { oscillator, ..old(control).instrument },
            ..*old(control)
        }),
        commands@ == snapshot(*final(control)),
{
    control.instrument.oscillator = oscillator;
    control.mode = Mode::Editing(Some(EditTarget::Oscillator(target)));
    update_specs(control)
}

/// The oscillator editor.
pub fn oscillator(key: Key, control: &mut Control) -> (commands: Vec<Command>)
    ensures
        (*final(control), commands@) == edit_or_menu(
            *old(control),
            oscillator_edit(*old(control), key),
            key,
        ),
        old(control).wf() ==> final(control).wf(),
{
    match key {
        Key::D1 => set_oscillator(OscillatorSpec::Basic(BasicKind::Sine), None, control),
        Key::D2 => set_oscillator(OscillatorSpec::Basic(BasicKind::Saw), None, control),
        Key::D3 => set_oscillator(OscillatorSpec::Basic(BasicKind::Square), None, control),
        Key::D4 => set_oscillator(
            OscillatorSpec::Pulse(500_000),
            Some(OscillatorTarget::Pulse),
            control,
        ),
        Key::D5 => {
            let mix: OscillatorSpec = next_mix(control.instrument.oscillator);
            set_oscillator(mix, Some(OscillatorTarget::Mix), control)
        },
        _ => main_menu(key, control),
    }
}

/// The filter editor. A chosen type starts from the initial cutoff and
/// resonance.
pub fn filter(key: Key, control: &mut Control) -> (commands: Vec<Command>)
    ensures
        (*final(control), commands@) == edit_or_menu(
            *old(control),
            filter_edit(*old(control), key),
            key,
        ),
        old(control).wf() ==> final(control).wf(),
{
    let chosen: Option<FilterType> = match key {
        Key::D1 => Some(FilterType::LPF),
        Key::D2 => Some(FilterType::HPF),
        Key::D3 => Some(FilterType::BPF),
        Key::D4 => Some(FilterType::Notch),
        _ => None,
    };
    match chosen {
        Some(filter_type) => {
            control.instrument.filter = FilterSpec::with_type(filter_type);
            update_specs(control)
        },
        None => main_menu(key, control),
    }
}

/// The phrase after a key of the arpeggiator editor, if the key is one.
fn chosen_phrase(old: PhraseSpec, key: Key) -> (phrase: Option<PhraseSpec>)
    ensures
        phrase == phrase_choice(old, key),
        phrase matches Some(p) ==> (p.octave_min == old.octave_min && p.octave_max
            == old.octave_max),
{
    match key {
        Key::D1 => Some(PhraseSpec { chord: Chord::Octaves, ..old }),
        Key::D2 => Some(PhraseSpec { chord: Chord::Triad, ..old }),
        Key::D3 => Some(PhraseSpec { chord: Chord::Fantasy, ..old }),
        Key::D4 => Some(PhraseSpec { chord: Chord::Tetra, ..old }),
        Key::D5 => Some(PhraseSpec { chord: Chord::Penta, ..old }),
        Key::F1 => Some(PhraseSpec { direction: Direction::Up, ..old }),
        Key::F2 => Some(PhraseSpec { direction: Direction::Down, ..old }),
        Key::F3 => Some(PhraseSpec { direction: Direction::UpDown, ..old }),
        Key::Minus => match old.duration.half() {
            Some(duration) => Some(PhraseSpec { duration, ..old }),
            None => Some(old),
        },
        Key::Equals => match old.duration.double() {
            Some(duration) => Some(PhraseSpec { duration, ..old }),
            None => Some(old),
        },
        _ => None,
    }
}

/// The arpeggiator editor.
pub fn arpeggiator(key: Key, control: &mut Control) -> (commands: Vec<Command>)
    ensures
        (*final(control), commands@) == edit_or_menu(
            *old(control),
            arpeggiator_edit(*old(control), key),
            key,
        ),
        old(control).wf() ==> final(control).wf(),
{
    match key {
        Key::D0 => {
            control.arpeggiator = None;
            update_specs(control)
        },
        _ => {
            let old: PhraseSpec = match control.arpeggiator {
                Some(arpeggiator) => arpeggiator.phrase,
                None => PhraseSpec::default(),
            };
            match chosen_phrase(old, key) {
                Some(phrase) => {
                    control.arpeggiator = Some(ArpeggiatorSpec { key: PitchClass::C, phrase });
                    update_specs(control)
                },
                None => main_menu(key, control),
            }
        },
    }
}

/// The LFO after a key of the LFO editor, if the key is one.
fn chosen_lfo(old: LFOSpec, key: Key) -> (lfo: Option<LFOSpec>)
    ensures
        lfo == lfo_choice(old, key),
        lfo matches Some(l) ==> (l.amount == old.amount && l.freq == old.freq),
{
    match key {
        Key::D1 => Some(LFOSpec { target: ModTarget::Volume, ..old }),
        Key::D2 => Some(LFOSpec { target: ModTarget::Filter(FilterModTarget::Cutoff), ..old }),
        Key::D3 => Some(LFOSpec { target: ModTarget::Filter(FilterModTarget::QFactor), ..old }),
        Key::D4 => Some(
            LFOSpec { target: ModTarget::Oscillator(OscillatorModTarget::PulseDuty), ..old },
        ),
        Key::F1 => Some(LFOSpec { oscillator: BasicKind::Sine, ..old }),
        Key::F2 => Some(LFOSpec { oscillator: BasicKind::Saw, ..old }),
        Key::F3 => Some(LFOSpec { oscillator: BasicKind::Square, ..old }),
        _ => None,
    }
}

/// The LFO editor.
pub fn lfo(key: Key, control: &mut Control) -> (commands: Vec<Command>)
    ensures
        (*final(control), commands@) == edit_or_menu(
            *old(control),
            lfo_edit(*old(control), key),
            key,
        ),
        old(control).wf() ==> final(control).wf(),
{
    match key {
        Key::D0 => {
            control.instrument.lfo = None;
            update_specs(control)
        },
        _ => {
            let old: LFOSpec = match control.instrument.lfo {
                Some(lfo) => lfo,
                None => LFOSpec::default(),
            };
            match chosen_lfo(old, key) {
                Some(lfo) => {
                    control.instrument.lfo = Some(lfo);
                    update_specs(control)
                },
                None => main_menu(key, control),
            }
        },
    }
}

/// Whether the pointer moves settings of the patch in this mode.
pub fn is_pointer_target(mode: Mode) -> (edits: bool)
    ensures
        edits == pointer_edits(mode),
{
    match mode {
        Mode::Editing(Some(EditTarget::Oscillator(Some(_)))) => true,
        Mode::Editing(Some(EditTarget::Filter)) => true,
        Mode::Editing(Some(EditTarget::LFO)) => true,
        Mode::Editing(Some(EditTarget::Arpeggiator)) => true,
        _ => false,
    }
}

/// Handles a pointer event: makes the edit of the active target and sends
/// the patch.
pub fn handle_mouse(input: &Input, control: &mut Control, window_size: WindowSize) -> (commands:
    Vec<Command>)
    ensures
        (*final(control), commands@) == pointer_step(*old(control), *input, window_size),
        old(control).wf() ==> final(control).wf(),
{
    if !is_pointer_target(control.mode) || window_size.width == 0 || window_size.height == 0 {
        return Vec::new();
    }
    match *input {
        Input::PointerMoveAbsolute(x, y) => {
            handle_move(x, y, control, window_size);
            update_specs(control)
        },
        Input::PointerMoveRelative(dx, dy) => {
            handle_move_relative(dx, dy, control, window_size);
            update_specs(control)
        },
        _ => Vec::new(),
    }
}

/// Sets the settings of the active target from the pointer position.
pub fn handle_move(x: i32, y: i32, control: &mut Control, window_size: WindowSize)
    requires
        window_size.has_area(),
    ensures
        ({
            let (norm_x, norm_y) = normalized_pointer(x, y, window_size);
            *final(control) == moved_to(*old(control), norm_x, norm_y)
        }),
        old(control).wf() ==> final(control).wf(),
{
    let (norm_x, norm_y) = normalized_mouse(x, y, window_size);
    match control.mode {
        Mode::Editing(Some(EditTarget::Oscillator(Some(OscillatorTarget::Pulse)))) => {
            match control.instrument.oscillator {
                OscillatorSpec::Pulse(_) => {
                    control.instrument.oscillator = OscillatorSpec::Pulse(
                        scale_continuous(norm_x, 0, UNIT),
                    );
                },
                _ => {},
            }
        },
        Mode::Editing(Some(EditTarget::Oscillator(Some(OscillatorTarget::Mix)))) => {
            match control.instrument.oscillator {
                OscillatorSpec::Mix { base_kind, random_seed, .. } => {
                    let n_voices: i32 = scale_discrete(
                        norm_y,
                        VOICES_MIN as i32,
                        VOICES_MAX as i32,
                    );
                    let detune_amount: i64 = scale_continuous(norm_x, DETUNE_MIN, DETUNE_MAX);
                    control.instrument.oscillator = OscillatorSpec::Mix {
                        n_voices: n_voices as u8,
                        detune_amount,
                        base_kind,
                        random_seed,
                    };
                },
                _ => {},
            }
        },
        Mode::Editing(Some(EditTarget::Filter)) => {
            control.instrument.filter.cutoff = scale_continuous(norm_y, 0, UNIT);
            control.instrument.filter.resonance = scale_continuous(norm_x, 0, UNIT);
        },
        Mode::Editing(Some(EditTarget::Arpeggiator)) => {
            match control.arpeggiator {
                Some(arpeggiator) => {
                    let (octave_min, octave_max) = octaves_from_mouse(norm_x, norm_y);
                    control.arpeggiator = Some(
                        ArpeggiatorSpec {
                            phrase: PhraseSpec { octave_min, octave_max, ..arpeggiator.phrase },
                            ..arpeggiator
                        },
                    );
                },
                None => {},
            }
        },
        Mode::Editing(Some(EditTarget::LFO)) => {
            match control.instrument.lfo {
                Some(lfo) => {
                    control.instrument.lfo = Some(
                        LFOSpec {
                            amount: scale_continuous(norm_y, 0, UNIT),
                            freq: scale_continuous(norm_x, 0, LFO_FREQ_MAX),
                            ..lfo
                        },
                    );
                },
                None => {},
            }
        },
        _ => {},
    }
}

/// Moves the settings of the active target by the pointer motion.
pub fn handle_move_relative(dx: i32, dy: i32, control: &mut Control, window_size: WindowSize)
    requires
        window_size.has_area(),
    ensures
        ({
            let (norm_dx, norm_dy) = normalized_motion(dx, dy, window_size);
            *final(control) == moved_by(*old(control), norm_dx, norm_dy)
        }),
        old(control).wf() ==> final(control).wf(),
{
    let (norm_dx, norm_dy) = normalized_motion_of(dx, dy, window_size);
    match control.mode {
        Mode::Editing(Some(EditTarget::Oscillator(Some(OscillatorTarget::Pulse)))) => {
            match control.instrument.oscillator {
                OscillatorSpec::Pulse(duty) => {
                    control.instrument.oscillator = OscillatorSpec::Pulse(
                        accumulate_continuous(duty, norm_dx, 0, UNIT),
                    );
                },
                _ => {},
            }
        },
        Mode::Editing(Some(EditTarget::Oscillator(Some(OscillatorTarget::Mix)))) => {
            match control.instrument.oscillator {
                OscillatorSpec::Mix { n_voices, detune_amount, base_kind, random_seed } => {
                    let voices: i32 = accumulate_discrete(
                        n_voices as i32,
                        norm_dy,
                        VOICES_MIN as i32,
                        VOICES_MAX as i32,
                    );
                    let detune: i64 = accumulate_continuous(
                        detune_amount,
                        norm_dx,
                        DETUNE_MIN,
                        DETUNE_MAX,
                    );
                    control.instrument.oscillator = OscillatorSpec::Mix {
                        n_voices: voices as u8,
                        detune_amount: detune,
                        base_kind,
                        random_seed,
                    };
                },
                _ => {},
            }
        },
        Mode::Editing(Some(EditTarget::Filter)) => {
            let cutoff: i64 = accumulate_continuous(
                control.instrument.filter.cutoff,
                norm_dy,
                0,
                UNIT,
            );
            let resonance: i64 = accumulate_continuous(
                control.instrument.filter.resonance,
                norm_dx,
                0,
                UNIT,
            );
            control.instrument.filter.cutoff = cutoff;
            control.instrument.filter.resonance = resonance;
        },
        Mode::Editing(Some(EditTarget::Arpeggiator)) => {
            match control.arpeggiator {
                Some(arpeggiator) => {
                    let (octave_min, octave_max) = octaves_from_motion(
                        arpeggiator.phrase.octave_min,
                        arpeggiator.phrase.octave_max,
                        norm_dx,
                        norm_dy,
                    );
                    control.arpeggiator = Some(
                        ArpeggiatorSpec {
                            phrase: PhraseSpec { octave_min, octave_max, ..arpeggiator.phrase },
                            ..arpeggiator
                        },
                    );
                },
                None => {},
            }
        },
        Mode::Editing(Some(EditTarget::LFO)) => {
            match control.instrument.lfo {
                Some(lfo) => {
                    control.instrument.lfo = Some(
                        LFOSpec {
                            amount: accumulate_continuous(lfo.amount, norm_dy, 0, UNIT),
                            freq: accumulate_continuous(lfo.freq, norm_dx, 0, LFO_FREQ_MAX),
                            ..lfo
                        },
                    );
                },
                None => {},
            }
        },
        _ => {},
    }
}

/// The pointer position as two normalized coordinates in `[0, UNIT]`, the
/// second counted upwards from the bottom edge of the viewport.
pub fn normalized_mouse(x: i32, y: i32, window_size: WindowSize) -> (normalized: (i64, i64))
    requires
        window_size.has_area(),
    ensures
        (normalized.0 as int, normalized.1 as int) == normalized_pointer(x, y, window_size),
        0 <= normalized.0 <= UNIT,
        0 <= normalized.1 <= UNIT,
{
    let across: i64 = ratio(x, window_size.width);
    let down: i64 = ratio(y, window_size.height);
    (clamp_unit(across), clamp_unit(UNIT - down))
}

/// The pointer motion as two fractions of the viewport, upwards positive.
pub fn normalized_motion_of(dx: i32, dy: i32, window_size: WindowSize) -> (normalized: (
    i64,
    i64,
))
    requires
        window_size.has_area(),
    ensures
        (normalized.0 as int, normalized.1 as int) == normalized_motion(dx, dy, window_size),
{
    let across: i64 = ratio(dx, window_size.width);
    let down: i64 = ratio(dy, window_size.height);
    (across, -down)
}

/// A fixed-point number limited to `[0, UNIT]`.
fn clamp_unit(value: i64) -> (limited: i64)
    ensures
        limited == clamped(value as int, 0, UNIT as int),
{
    if value < 0 {
        0
    } else if value > UNIT {
        UNIT
    } else {
        value
    }
}

/// The octave shifts for a bottom inside `[-3, 3]` and a width of at least
/// zero octaves.
fn octave_range_of(bottom: i32, width: i32) -> (range: (OctaveShift, OctaveShift))
    requires
        OCTAVE_SHIFT_MIN <= bottom <= OCTAVE_SHIFT_MAX,
        0 <= width <= octave_span(),
    ensures
        range == octave_range(bottom as int, width as int),
        range.0.octaves() == bottom,
        range.0.octaves() <= range.1.octaves(),
{
    let top: i32 = if bottom + width > OCTAVE_SHIFT_MAX as i32 {
        OCTAVE_SHIFT_MAX as i32
    } else {
        bottom + width
    };
    let bottom_octave: Option<OctaveShift> = OctaveShift::from_i8(bottom as i8);
    let top_octave: Option<OctaveShift> = OctaveShift::from_i8(top as i8);
    (bottom_octave.unwrap(), top_octave.unwrap())
}

/// The octave range at a normalized pointer position. Both ends are
/// inside the octave shifts by construction: the numbers are limited
/// before they are looked up.
pub fn octaves_from_mouse(x: i64, y: i64) -> (range: (OctaveShift, OctaveShift))
    requires
        0 <= x <= UNIT,
        0 <= y <= UNIT,
    ensures
        range == octaves_at(x as int, y as int),
        range.0.octaves() <= range.1.octaves(),
{
    let max_range: i32 = OCTAVE_SHIFT_MAX as i32 - OCTAVE_SHIFT_MIN as i32;
    let width: i32 = scale_discrete(x, 0, max_range);
    let bottom: i32 = scale_discrete(y, OCTAVE_SHIFT_MIN as i32, OCTAVE_SHIFT_MAX as i32);
    octave_range_of(bottom, width)
}

/// The octave range after a normalized pointer motion.
pub fn octaves_from_motion(octave_min: OctaveShift, octave_max: OctaveShift, dx: i64, dy: i64) -> (
    range: (OctaveShift, OctaveShift)
)
    ensures
        range == octaves_moved((octave_min, octave_max), dx as int, dy as int),
        range.0.octaves() <= range.1.octaves(),
{
    let max_range: i32 = OCTAVE_SHIFT_MAX as i32 - OCTAVE_SHIFT_MIN as i32;
    let old_bottom: i32 = octave_min.to_i8() as i32;
    let old_width: i32 = octave_max.to_i8() as i32 - old_bottom;
    let width: i32 = accumulate_discrete(old_width, dx, 0, max_range);
    let bottom: i32 = accumulate_discrete(
        old_bottom,
        dy,
        OCTAVE_SHIFT_MIN as i32,
        OCTAVE_SHIFT_MAX as i32,
    );
    octave_range_of(bottom, width)
}

/// The whole patch as two commands: the instrument, then the arpeggiator.
pub fn update_specs(control: &Control) -> (commands: Vec<Command>)
    ensures
        commands@ == snapshot(*control),
{
    vec![
        Command::ReplaceInstrumentPatch(control.instrument),
        Command::ReplaceArpeggiatorPatch(control.arpeggiator),
    ]
}

} // verus!
