//! What the controller sends to the synthesis engine.

use vstd::prelude::*;
use crate::patch::{ArpeggiatorSpec, InstrumentSpec};
use crate::pitch::{NoteId, Pitch};

verus! {

/// One instruction for the engine.
#[derive(Clone, Copy, Debug, PartialEq, Eq)]
pub enum Command {
    /// Start a note: its pitch, its velocity in fixed point, its identity.
    NoteOn(Pitch, i64, NoteId),
    /// Stop the note of that identity.
    NoteOff(NoteId),
    /// Load the patch stored in a slot, slots counted from 0.
    SelectPatchSlot(usize),
    ToggleLoopPlayback(usize),
    ToggleLoopRecording(usize),
    TapTempo,
    /// Shift what is played by a number of semitones.
    ShiftPitch(i8),
    /// Shift the keyboard by a number of octaves.
    ShiftKeyboardOctave(i8),
    /// Move the key by a number of steps.
    TransposeKey(i8),
    /// Replace the whole instrument patch.
    ReplaceInstrumentPatch(InstrumentSpec),
    /// Replace the whole arpeggiator patch; `None` switches it off.
    ReplaceArpeggiatorPatch(Option<ArpeggiatorSpec>),
    /// Continuous modulation by the pointer: its position as fractions of
    /// the viewport, in fixed point.
    ModulationXY(i64, i64),
}

} // verus!
