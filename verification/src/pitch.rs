//! Pitches, and the identity under which the engine tracks a sounding note.

use vstd::prelude::*;

verus! {

/// The twelve pitch classes of the chromatic scale.
#[derive(Clone, Copy, Debug, PartialEq, Eq, Hash)]
pub enum PitchClass {
    C, Db, D, Eb, E, F, Gb, G, Ab, A, Bb, B,
}

impl PitchClass {
    /// The natural pitch class at a degree of the C major scale, degrees
    /// counted from 0 at `C` and taken modulo 7.
    pub open spec fn natural(degree: int) -> PitchClass {
        let step = degree % 7;
        if step == 0 {
            PitchClass::C
        } else if step == 1 {
            PitchClass::D
        } else if step == 2 {
            PitchClass::E
        } else if step == 3 {
            PitchClass::F
        } else if step == 4 {
            PitchClass::G
        } else if step == 5 {
            PitchClass::A
        } else {
            PitchClass::B
        }
    }
}

/// A pitch class in an octave.
#[derive(Clone, Copy, Debug, PartialEq, Eq, Hash)]
pub struct Pitch {
    pub class: PitchClass,
    pub octave: u8,
}

impl Pitch {
    /// The pitch of a class in an octave.
    pub fn new(class: PitchClass, octave: u8) -> (pitch: Pitch)
        ensures
            pitch == (Pitch { class, octave }),
    {
        Pitch { class, octave }
    }

    /// Concert pitch, A in octave 4.
    pub open spec fn concert() -> Pitch {
        Pitch { class: PitchClass::A, octave: 4 }
    }
}

impl Default for Pitch {
    /// Concert pitch.
    fn default() -> (pitch: Pitch)
        ensures
            pitch == Pitch::concert(),
    {
        Pitch { class: PitchClass::A, octave: 4 }
    }
}

/// Tells apart notes of one pitch that come from different sources.
pub type Discriminator = u8;

/// The identity of a sounding note: its pitch together with the
/// discriminator of its source. Two notes are the same note to the engine
/// exactly when both parts agree.
#[derive(Clone, Copy, Debug, PartialEq, Eq, Hash)]
pub struct NoteId {
    pub pitch: Pitch,
    pub discriminator: Discriminator,
}

/// The identity of the note of pitch `pitch` from source `discriminator`.
pub fn id_discr(pitch: Pitch, discriminator: Discriminator) -> (id: NoteId)
    ensures
        id == (NoteId { pitch, discriminator }),
{
    NoteId { pitch, discriminator }
}

} // verus!
