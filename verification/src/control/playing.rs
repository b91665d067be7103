//! Playing mode: keys are notes and performance controls, the pointer is a
//! modulation source.

use vstd::prelude::*;
use crate::command::Command;
use crate::control::{Control, Mode};
use crate::input::{ButtonState, Input, WindowSize};
use crate::key::Key;
use crate::pitch::{id_discr, Discriminator, NoteId, Pitch, PitchClass};
use crate::scale::{fraction, ratio, UNIT};

verus! {

/// The degree of the C major scale at which each playable row starts: `A`.
pub open spec fn row_start_degree() -> int {
    5
}

/// The pitch and the discriminator on a key of the three playable rows.
///
/// Each row ascends the natural notes from `A`, one key per note, and the
/// octave number goes up at each `C`. The bottom row starts at `A2`, the
/// home row at `A3`, the top row at `A4`; the discriminator is the number
/// of the row.
pub open spec fn key_pitch(key: Key) -> Option<(Pitch, Discriminator)> {
    match (key.row(), key.column()) {
        (Some(row), Some(column)) => {
            let degree = row_start_degree() + column;
            Some(
                (
                    Pitch {
                        class: PitchClass::natural(degree),
                        octave: (row + 1 + degree / 7) as u8,
                    },
                    row as u8,
                ),
            )
        },
        _ => None,
    }
}

/// The identity of the note on a playable key.
pub open spec fn key_note_id(key: Key) -> Option<NoteId> {
    match key_pitch(key) {
        Some((pitch, discriminator)) => Some(NoteId { pitch, discriminator }),
        None => None,
    }
}

/// Pressing a playable key starts its note at full velocity.
pub open spec fn note_on_command(key: Key) -> Option<Command> {
    match key_pitch(key) {
        Some((pitch, discriminator)) => Some(
            Command::NoteOn(pitch, UNIT, NoteId { pitch, discriminator }),
        ),
        None => None,
    }
}

/// Releasing a playable key stops its note.
pub open spec fn note_off_command(key: Key) -> Option<Command> {
    match key_note_id(key) {
        Some(id) => Some(Command::NoteOff(id)),
        None => None,
    }
}

/// The digit keys select the patch slots: `1` to `9` the first nine, `0`
/// the tenth.
pub open spec fn patch_command(key: Key) -> Option<Command> {
    match key.digit() {
        Some(digit) => Some(Command::SelectPatchSlot(((digit + 9) % 10) as usize)),
        None => None,
    }
}

/// `F1` to `F5` toggle the playback of the five loops, `F6` to `F10` their
/// recording.
pub open spec fn loop_command(key: Key) -> Option<Command> {
    match key.function_number() {
        Some(number) => if number <= 5 {
            Some(Command::ToggleLoopPlayback((number - 1) as usize))
        } else if number <= 10 {
            Some(Command::ToggleLoopRecording((number - 6) as usize))
        } else {
            None
        },
        None => None,
    }
}

/// The space bar taps the tempo.
pub open spec fn tap_tempo_command(key: Key) -> Option<Command> {
    match key {
        Key::Space => Some(Command::TapTempo),
        _ => None,
    }
}

/// The arrows shift by octaves (up and down the pitch, left and right the
/// keyboard), `-` and `=` shift the pitch by semitones, the brackets move
/// the key.
pub open spec fn transpose_command(key: Key) -> Option<Command> {
    match key {
        Key::Down => Some(Command::ShiftPitch((-12) as i8)),
        Key::Up => Some(Command::ShiftPitch(12)),
        Key::Left => Some(Command::ShiftKeyboardOctave((-1) as i8)),
        Key::Right => Some(Command::ShiftKeyboardOctave(1)),
        Key::Minus => Some(Command::ShiftPitch((-1) as i8)),
        Key::Equals => Some(Command::ShiftPitch(1)),
        Key::LeftBracket => Some(Command::TransposeKey((-1) as i8)),
        Key::RightBracket => Some(Command::TransposeKey(1)),
        _ => None,
    }
}

/// `first` where it is something, else `second`.
pub open spec fn first_of(first: Option<Command>, second: Option<Command>) -> Option<Command> {
    if first is Some {
        first
    } else {
        second
    }
}

/// The command of a key press: the first of note, patch slot, loop, tap
/// tempo and transposition that the key is bound to.
pub open spec fn press_command(key: Key) -> Option<Command> {
    first_of(
        note_on_command(key),
        first_of(
            patch_command(key),
            first_of(loop_command(key), first_of(tap_tempo_command(key), transpose_command(key))),
        ),
    )
}

/// The mode after the release of a key that stops no note: `Tab` opens the
/// edit menu.
pub open spec fn mode_after_release(mode: Mode, key: Key) -> Mode {
    match key {
        Key::Tab => Mode::Editing(None),
        _ => mode,
    }
}

/// No command or one.
pub open spec fn zero_or_one(command: Option<Command>) -> Seq<Command> {
    match command {
        Some(c) => seq![c],
        None => Seq::empty(),
    }
}

/// The pointer position as a modulation command: each coordinate as a
/// fraction of the extent of the viewport, not clamped. A viewport without
/// area gives no command.
pub open spec fn modulation(x: i32, y: i32, window_size: WindowSize) -> Seq<Command> {
    if window_size.has_area() {
        seq![
            Command::ModulationXY(
                fraction(x as int, window_size.width as int) as i64,
                fraction(y as int, window_size.height as int) as i64,
            ),
        ]
    } else {
        Seq::empty()
    }
}

/// The transition on a key event: a press sends the command that the key
/// is bound to; a release stops the note of a playable key, and the
/// release of any other key may switch the mode.
pub open spec fn button_step(control: Control, state: ButtonState, key: Key) -> (
    Control,
    Seq<Command>,
) {
    match state {
        ButtonState::Press => (control, zero_or_one(press_command(key))),
        ButtonState::Release => match note_off_command(key) {
            Some(command) => (control, seq![command]),
            None => (
                Control { mode: mode_after_release(control.mode, key), ..control },
                Seq::empty(),
            ),
        },
    }
}

/// The transition of playing mode. Pointer motion that comes without a
/// position is not used.
pub open spec fn step(control: Control, input: Input, window_size: WindowSize) -> (
    Control,
    Seq<Command>,
) {
    match input {
        Input::KeyPress(key) => button_step(control, ButtonState::Press, key),
        Input::KeyRelease(key) => button_step(control, ButtonState::Release, key),
        Input::PointerMoveAbsolute(x, y) => (control, modulation(x, y, window_size)),
        Input::PointerMoveRelative(_, _) => (control, Seq::empty()),
    }
}

/// Handles one event in playing mode.
pub fn handle_input(input: &Input, window_size: WindowSize, control: &mut Control) -> (commands:
    Vec<Command>)
    ensures
        (*final(control), commands@) == step(*old(control), *input, window_size),
        final(control).instrument == old(control).instrument,
        final(control).arpeggiator == old(control).arpeggiator,
{
    match *input {
        Input::KeyPress(key) => handle_button(ButtonState::Press, key, control),
        Input::KeyRelease(key) => handle_button(ButtonState::Release, key, control),
        Input::PointerMoveAbsolute(x, y) => handle_move(x, y, window_size),
        Input::PointerMoveRelative(_, _) => Vec::new(),
    }
}

/// Handles a key: a press may send a command, a release may stop a note or
/// open the edit menu.
pub fn handle_button(state: ButtonState, key: Key, control: &mut Control) -> (commands: Vec<
    Command,
>)
    ensures
        (*final(control), commands@) == button_step(*old(control), state, key),
        final(control).instrument == old(control).instrument,
        final(control).arpeggiator == old(control).arpeggiator,
{
    match state {
        ButtonState::Press => one_or_none(press(key)),
        ButtonState::Release => {
            let stop: Option<Command> = note_off(key);
            if stop.is_none() {
                mode(key, control);
            }
            one_or_none(stop)
        },
    }
}

fn one_or_none(command: Option<Command>) -> (commands: Vec<Command>)
    ensures
        commands@ == zero_or_one(command),
{
    match command {
        Some(c) => vec![c],
        None => Vec::new(),
    }
}

/// The command of a key press, if the key is bound.
pub fn press(key: Key) -> (command: Option<Command>)
    ensures
        command == press_command(key),
{
    let note: Option<Command> = note_on(key);
    if note.is_some() {
        return note;
    }
    let patch: Option<Command> = patches(key);
    if patch.is_some() {
        return patch;
    }
    let looping: Option<Command> = loop_rec(key);
    if looping.is_some() {
        return looping;
    }
    let tap: Option<Command> = tap_tempo(key);
    if tap.is_some() {
        return tap;
    }
    transpose(key)
}

/// The pointer position as a modulation command.
pub fn handle_move(x: i32, y: i32, window_size: WindowSize) -> (commands: Vec<Command>)
    ensures
        commands@ == modulation(x, y, window_size),
{
    if window_size.width == 0 || window_size.height == 0 {
        return Vec::new();
    }
    let norm_x: i64 = ratio(x, window_size.width);
    let norm_y: i64 = ratio(y, window_size.height);
    vec![Command::ModulationXY(norm_x, norm_y)]
}

/// The command that starts the note of a playable key.
pub fn note_on(key: Key) -> (command: Option<Command>)
    ensures
        command == note_on_command(key),
{
    match pitches(key) {
        Some((pitch, discriminator)) => Some(
            Command::NoteOn(pitch, UNIT, id_discr(pitch, discriminator)),
        ),
        None => None,
    }
}

/// The command that stops the note of a playable key.
pub fn note_off(key: Key) -> (command: Option<Command>)
    ensures
        command == note_off_command(key),
{
    match pitches(key) {
        Some((pitch, discriminator)) => Some(Command::NoteOff(id_discr(pitch, discriminator))),
        None => None,
    }
}

/// The pitch and the discriminator on a playable key.
pub fn pitches(key: Key) -> (note: Option<(Pitch, Discriminator)>)
    ensures
        note == key_pitch(key),
{
    match key {
        // top row
        Key::Q => Some((Pitch::new(PitchClass::A, 4), 3)),
        Key::W => Some((Pitch::new(PitchClass::B, 4), 3)),
        Key::E => Some((Pitch::new(PitchClass::C, 5), 3)),
        Key::R => Some((Pitch::new(PitchClass::D, 5), 3)),
        Key::T => Some((Pitch::new(PitchClass::E, 5), 3)),
        Key::Y => Some((Pitch::new(PitchClass::F, 5), 3)),
        Key::U => Some((Pitch::new(PitchClass::G, 5), 3)),
        Key::I => Some((Pitch::new(PitchClass::A, 5), 3)),
        Key::O => Some((Pitch::new(PitchClass::B, 5), 3)),
        Key::P => Some((Pitch::new(PitchClass::C, 6), 3)),
        // home row
        Key::A => Some((Pitch::new(PitchClass::A, 3), 2)),
        Key::S => Some((Pitch::new(PitchClass::B, 3), 2)),
        Key::D => Some((Pitch::new(PitchClass::C, 4), 2)),
        Key::F => Some((Pitch::new(PitchClass::D, 4), 2)),
        Key::G => Some((Pitch::new(PitchClass::E, 4), 2)),
        Key::H => Some((Pitch::new(PitchClass::F, 4), 2)),
        Key::J => Some((Pitch::new(PitchClass::G, 4), 2)),
        Key::K => Some((Pitch::new(PitchClass::A, 4), 2)),
        Key::L => Some((Pitch::new(PitchClass::B, 4), 2)),
        Key::Semicolon => Some((Pitch::new(PitchClass::C, 5), 2)),
        // bottom row
        Key::Z => Some((Pitch::new(PitchClass::A, 2), 1)),
        Key::X => Some((Pitch::new(PitchClass::B, 2), 1)),
        Key::C => Some((Pitch::new(PitchClass::C, 3), 1)),
        Key::V => Some((Pitch::new(PitchClass::D, 3), 1)),
        Key::B => Some((Pitch::new(PitchClass::E, 3), 1)),
        Key::N => Some((Pitch::new(PitchClass::F, 3), 1)),
        Key::M => Some((Pitch::new(PitchClass::G, 3), 1)),
        Key::Comma => Some((Pitch::new(PitchClass::A, 3), 1)),
        Key::Period => Some((Pitch::new(PitchClass::B, 3), 1)),
        Key::Slash => Some((Pitch::new(PitchClass::C, 4), 1)),
        _ => None,
    }
}

/// The command that selects the patch slot of a digit key.
pub fn patches(key: Key) -> (command: Option<Command>)
    ensures
        command == patch_command(key),
{
    match key {
        Key::D1 => Some(Command::SelectPatchSlot(0)),
        Key::D2 => Some(Command::SelectPatchSlot(1)),
        Key::D3 => Some(Command::SelectPatchSlot(2)),
        Key::D4 => Some(Command::SelectPatchSlot(3)),
        Key::D5 => Some(Command::SelectPatchSlot(4)),
        Key::D6 => Some(Command::SelectPatchSlot(5)),
        Key::D7 => Some(Command::SelectPatchSlot(6)),
        Key::D8 => Some(Command::SelectPatchSlot(7)),
        Key::D9 => Some(Command::SelectPatchSlot(8)),
        Key::D0 => Some(Command::SelectPatchSlot(9)),
        _ => None,
    }
}

/// The command that toggles the loop of a function key.
pub fn loop_rec(key: Key) -> (command: Option<Command>)
    ensures
        command == loop_command(key),
{
    match key {
        Key::F1 => Some(Command::ToggleLoopPlayback(0)),
        Key::F2 => Some(Command::ToggleLoopPlayback(1)),
        Key::F3 => Some(Command::ToggleLoopPlayback(2)),
        Key::F4 => Some(Command::ToggleLoopPlayback(3)),
        Key::F5 => Some(Command::ToggleLoopPlayback(4)),
        Key::F6 => Some(Command::ToggleLoopRecording(0)),
        Key::F7 => Some(Command::ToggleLoopRecording(1)),
        Key::F8 => Some(Command::ToggleLoopRecording(2)),
        Key::F9 => Some(Command::ToggleLoopRecording(3)),
        Key::F10 => Some(Command::ToggleLoopRecording(4)),
        _ => None,
    }
}

/// The tap of the tempo on the space bar.
pub fn tap_tempo(key: Key) -> (command: Option<Command>)
    ensures
        command == tap_tempo_command(key),
{
    match key {
        Key::Space => Some(Command::TapTempo),
        _ => None,
    }
}

/// The transposition that a key asks for.
pub fn transpose(key: Key) -> (command: Option<Command>)
    ensures
        command == transpose_command(key),
{
    match key {
        Key::Down => Some(Command::ShiftPitch(-12)),
        Key::Up => Some(Command::ShiftPitch(12)),
        Key::Left => Some(Command::ShiftKeyboardOctave(-1)),
        Key::Right => Some(Command::ShiftKeyboardOctave(1)),
        Key::Minus => Some(Command::ShiftPitch(-1)),
        Key::Equals => Some(Command::ShiftPitch(1)),
        Key::LeftBracket => Some(Command::TransposeKey(-1)),
        Key::RightBracket => Some(Command::TransposeKey(1)),
        _ => None,
    }
}

/// Switches to the edit menu on the release of `Tab`.
pub fn mode(key: Key, control: &mut Control)
    ensures
        *final(control) == (Control {
            mode: mode_after_release(old(control).mode, key),
            ..*old(control)
        }),
{
    match key {
        Key::Tab => {
            control.mode = Mode::Editing(None);
        },
        _ => {},
    }
}

} // verus!
