//! The sound patch: oscillator, filter, LFO and arpeggiator settings.
//!
//! Continuous settings are fixed-point numbers (`UNIT` is `1.0`). Each type
//! has a predicate `wf` that holds when its settings are inside their
//! ranges; the ranges are inclusive.

use vstd::prelude::*;
use crate::pitch::PitchClass;
use crate::scale::UNIT;

verus! {

/// Fewest voices of a detuned mix.
pub const VOICES_MIN: u8 = 1;

/// Most voices of a detuned mix.
pub const VOICES_MAX: u8 = 40;

/// Least detune of a mix, `0.001`.
pub const DETUNE_MIN: i64 = 1_000;

/// Greatest detune of a mix, `32.0`.
pub const DETUNE_MAX: i64 = 32_000_000;

/// Greatest LFO frequency, `55.0`.
pub const LFO_FREQ_MAX: i64 = 55_000_000;

/// The basic waveforms.
#[derive(Clone, Copy, Debug, PartialEq, Eq)]
pub enum BasicKind {
    Sine,
    Saw,
    Square,
}

/// What the oscillator produces.
#[derive(Clone, Copy, Debug, PartialEq, Eq)]
pub enum OscillatorSpec {
    Basic(BasicKind),
    /// A pulse wave with the given duty cycle.
    Pulse(i64),
    /// Several detuned voices of one basic waveform. `random_seed` fixes
    /// how the voices are spread.
    Mix { n_voices: u8, detune_amount: i64, base_kind: BasicKind, random_seed: u64 },
}

impl OscillatorSpec {
    /// The duty cycle of a pulse is in `[0, 1]`; a mix has 1 to 40 voices
    /// and a detune in `[0.001, 32]`.
    pub open spec fn wf(self) -> bool {
        match self {
            OscillatorSpec::Basic(_) => true,
            OscillatorSpec::Pulse(duty) => 0 <= duty <= UNIT,
            OscillatorSpec::Mix { n_voices, detune_amount, .. } => {
                &&& VOICES_MIN <= n_voices <= VOICES_MAX
                &&& DETUNE_MIN <= detune_amount <= DETUNE_MAX
            },
        }
    }
}

/// Low-pass, high-pass, band-pass and notch.
#[derive(Clone, Copy, Debug, PartialEq, Eq)]
pub enum FilterType {
    LPF,
    HPF,
    BPF,
    Notch,
}

/// The filter: its type, cutoff and resonance.
#[derive(Clone, Copy, Debug, PartialEq, Eq)]
pub struct FilterSpec {
    pub filter_type: FilterType,
    pub cutoff: i64,
    pub resonance: i64,
}

impl FilterSpec {
    /// Cutoff and resonance are in `[0, 1]`.
    pub open spec fn wf(self) -> bool {
        &&& 0 <= self.cutoff <= UNIT
        &&& 0 <= self.resonance <= UNIT
    }

    /// A filter of the given type with the cutoff fully open and a
    /// resonance of `0.05`.
    pub open spec fn of_type(filter_type: FilterType) -> FilterSpec {
        FilterSpec { filter_type, cutoff: UNIT, resonance: 50_000 }
    }

    /// The filter that a freshly chosen filter type starts from.
    pub fn with_type(filter_type: FilterType) -> (filter: FilterSpec)
        ensures
            filter == FilterSpec::of_type(filter_type),
            filter.wf(),
    {
        FilterSpec { filter_type, cutoff: UNIT, resonance: 50_000 }
    }
}

impl Default for FilterSpec {
    /// An open low-pass filter.
    fn default() -> (filter: FilterSpec)
        ensures
            filter == FilterSpec::of_type(FilterType::LPF),
    {
        FilterSpec::with_type(FilterType::LPF)
    }
}

/// A filter setting that an LFO can drive.
#[derive(Clone, Copy, Debug, PartialEq, Eq)]
pub enum FilterModTarget {
    Cutoff,
    QFactor,
}

/// An oscillator setting that an LFO can drive.
#[derive(Clone, Copy, Debug, PartialEq, Eq)]
pub enum OscillatorModTarget {
    PulseDuty,
}

/// What an LFO drives.
#[derive(Clone, Copy, Debug, PartialEq, Eq)]
pub enum ModTarget {
    Volume,
    Filter(FilterModTarget),
    Oscillator(OscillatorModTarget),
}

/// A low-frequency oscillator: what it drives, its waveform, depth and
/// frequency.
#[derive(Clone, Copy, Debug, PartialEq, Eq)]
pub struct LFOSpec {
    pub target: ModTarget,
    pub oscillator: BasicKind,
    pub amount: i64,
    pub freq: i64,
}

impl LFOSpec {
    /// The amount is in `[0, 1]`, the frequency in `[0, 55]`.
    pub open spec fn wf(self) -> bool {
        &&& 0 <= self.amount <= UNIT
        &&& 0 <= self.freq <= LFO_FREQ_MAX
    }

    /// A sine LFO on the volume, at `1.0` cycles and with no depth yet.
    pub open spec fn initial() -> LFOSpec {
        LFOSpec { target: ModTarget::Volume, oscillator: BasicKind::Sine, amount: 0, freq: UNIT }
    }
}

impl Default for LFOSpec {
    fn default() -> (lfo: LFOSpec)
        ensures
            lfo == LFOSpec::initial(),
            lfo.wf(),
    {
        LFOSpec { target: ModTarget::Volume, oscillator: BasicKind::Sine, amount: 0, freq: UNIT }
    }
}

/// The instrument patch.
#[derive(Clone, Copy, Debug, PartialEq, Eq)]
pub struct InstrumentSpec {
    pub oscillator: OscillatorSpec,
    pub filter: FilterSpec,
    pub lfo: Option<LFOSpec>,
    pub volume: i64,
}

impl InstrumentSpec {
    /// Every part is inside its ranges, and the volume is in `[0, 1]`.
    pub open spec fn wf(self) -> bool {
        &&& self.oscillator.wf()
        &&& self.filter.wf()
        &&& self.lfo matches Some(lfo) ==> lfo.wf()
        &&& 0 <= self.volume <= UNIT
    }

    /// A sine wave through an open low-pass filter, at full volume and
    /// without LFO.
    pub open spec fn initial() -> InstrumentSpec {
        InstrumentSpec {
            oscillator: OscillatorSpec::Basic(BasicKind::Sine),
            filter: FilterSpec::of_type(FilterType::LPF),
            lfo: None,
            volume: UNIT,
        }
    }
}

impl Default for InstrumentSpec {
    fn default() -> (instrument: InstrumentSpec)
        ensures
            instrument == InstrumentSpec::initial(),
            instrument.wf(),
    {
        InstrumentSpec {
            oscillator: OscillatorSpec::Basic(BasicKind::Sine),
            filter: FilterSpec::with_type(FilterType::LPF),
            lfo: None,
            volume: UNIT,
        }
    }
}

/// The notes that the arpeggiator builds a phrase from.
#[derive(Clone, Copy, Debug, PartialEq, Eq)]
pub enum Chord {
    Octaves,
    Triad,
    Fantasy,
    Tetra,
    Penta,
}

/// The order in which the arpeggiator runs through the notes.
#[derive(Clone, Copy, Debug, PartialEq, Eq)]
pub enum Direction {
    Up,
    Down,
    UpDown,
}

/// A shift by whole octaves, from three down to three up.
#[derive(Clone, Copy, Debug, PartialEq, Eq)]
pub enum OctaveShift {
    Down3,
    Down2,
    Down1,
    Same,
    Up1,
    Up2,
    Up3,
}

/// The lowest octave shift, as a number of octaves.
pub const OCTAVE_SHIFT_MIN: i8 = -3;

/// The highest octave shift, as a number of octaves.
pub const OCTAVE_SHIFT_MAX: i8 = 3;

impl OctaveShift {
    /// The shift as a signed number of octaves.
    pub open spec fn octaves(self) -> int {
        match self {
            OctaveShift::Down3 => -3,
            OctaveShift::Down2 => -2,
            OctaveShift::Down1 => -1,
            OctaveShift::Same => 0,
            OctaveShift::Up1 => 1,
            OctaveShift::Up2 => 2,
            OctaveShift::Up3 => 3,
        }
    }

    /// The shift by `octaves` octaves. Outside `[-3, 3]` there is none, and
    /// the result is arbitrary.
    pub open spec fn of_octaves(octaves: int) -> OctaveShift
        recommends
            OCTAVE_SHIFT_MIN <= octaves <= OCTAVE_SHIFT_MAX,
    {
        if octaves <= -3 {
            OctaveShift::Down3
        } else if octaves == -2 {
            OctaveShift::Down2
        } else if octaves == -1 {
            OctaveShift::Down1
        } else if octaves == 0 {
            OctaveShift::Same
        } else if octaves == 1 {
            OctaveShift::Up1
        } else if octaves == 2 {
            OctaveShift::Up2
        } else {
            OctaveShift::Up3
        }
    }

    /// The shift as a signed number of octaves.
    pub fn to_i8(self) -> (octaves: i8)
        ensures
            octaves == self.octaves(),
            OCTAVE_SHIFT_MIN <= octaves <= OCTAVE_SHIFT_MAX,
    {
        match self {
            OctaveShift::Down3 => -3,
            OctaveShift::Down2 => -2,
            OctaveShift::Down1 => -1,
            OctaveShift::Same => 0,
            OctaveShift::Up1 => 1,
            OctaveShift::Up2 => 2,
            OctaveShift::Up3 => 3,
        }
    }

    /// The shift by `octaves` octaves, if there is one.
    pub fn from_i8(octaves: i8) -> (shift: Option<OctaveShift>)
        ensures
            shift is Some <==> OCTAVE_SHIFT_MIN <= octaves <= OCTAVE_SHIFT_MAX,
            shift matches Some(s) ==> s.octaves() == octaves && s == OctaveShift::of_octaves(
                octaves as int,
            ),
    {
        match octaves {
            -3 => Some(OctaveShift::Down3),
            -2 => Some(OctaveShift::Down2),
            -1 => Some(OctaveShift::Down1),
            0 => Some(OctaveShift::Same),
            1 => Some(OctaveShift::Up1),
            2 => Some(OctaveShift::Up2),
            3 => Some(OctaveShift::Up3),
            _ => None,
        }
    }
}

/// Inside `[-3, 3]`, `of_octaves` and `octaves` undo each other.
pub proof fn lemma_octave_shift_round_trip(shift: OctaveShift, octaves: int)
    ensures
        OCTAVE_SHIFT_MIN <= shift.octaves() <= OCTAVE_SHIFT_MAX,
        OctaveShift::of_octaves(shift.octaves()) == shift,
        OCTAVE_SHIFT_MIN <= octaves <= OCTAVE_SHIFT_MAX ==> OctaveShift::of_octaves(
            octaves,
        ).octaves() == octaves,
{
}

/// The length of a note.
#[derive(Clone, Copy, Debug, PartialEq, Eq)]
pub enum NoteDuration {
    Whole,
    Half,
    Quarter,
    Eighth,
    Sixteenth,
}

impl NoteDuration {
    /// The length in sixteenth notes.
    pub open spec fn sixteenths(self) -> int {
        match self {
            NoteDuration::Whole => 16,
            NoteDuration::Half => 8,
            NoteDuration::Quarter => 4,
            NoteDuration::Eighth => 2,
            NoteDuration::Sixteenth => 1,
        }
    }

    /// The duration that lasts `n` sixteenth notes, if there is one.
    pub open spec fn of_sixteenths(n: int) -> Option<NoteDuration> {
        if n == 16 {
            Some(NoteDuration::Whole)
        } else if n == 8 {
            Some(NoteDuration::Half)
        } else if n == 4 {
            Some(NoteDuration::Quarter)
        } else if n == 2 {
            Some(NoteDuration::Eighth)
        } else if n == 1 {
            Some(NoteDuration::Sixteenth)
        } else {
            None
        }
    }

    /// The duration of half the length; none for the shortest.
    pub open spec fn halved(self) -> Option<NoteDuration> {
        if self.sixteenths() % 2 == 0 {
            NoteDuration::of_sixteenths(self.sixteenths() / 2)
        } else {
            None
        }
    }

    /// The duration of twice the length; none for the longest.
    pub open spec fn doubled(self) -> Option<NoteDuration> {
        NoteDuration::of_sixteenths(2 * self.sixteenths())
    }

    /// The duration of half the length, if there is one.
    pub fn half(self) -> (shorter: Option<NoteDuration>)
        ensures
            shorter == self.halved(),
            shorter is None <==> self == NoteDuration::Sixteenth,
            shorter matches Some(d) ==> 2 * d.sixteenths() == self.sixteenths(),
    {
        match self {
            NoteDuration::Whole => Some(NoteDuration::Half),
            NoteDuration::Half => Some(NoteDuration::Quarter),
            NoteDuration::Quarter => Some(NoteDuration::Eighth),
            NoteDuration::Eighth => Some(NoteDuration::Sixteenth),
            NoteDuration::Sixteenth => None,
        }
    }

    /// The duration of twice the length, if there is one.
    pub fn double(self) -> (longer: Option<NoteDuration>)
        ensures
            longer == self.doubled(),
            longer is None <==> self == NoteDuration::Whole,
            longer matches Some(d) ==> d.sixteenths() == 2 * self.sixteenths(),
    {
        match self {
            NoteDuration::Whole => None,
            NoteDuration::Half => Some(NoteDuration::Whole),
            NoteDuration::Quarter => Some(NoteDuration::Half),
            NoteDuration::Eighth => Some(NoteDuration::Quarter),
            NoteDuration::Sixteenth => Some(NoteDuration::Eighth),
        }
    }
}

/// Where they both exist, halving undoes doubling and doubling undoes
/// halving.
pub proof fn lemma_half_double_inverse(duration: NoteDuration)
    ensures
        duration.doubled() matches Some(d) ==> d.halved() == Some(duration),
        duration.halved() matches Some(d) ==> d.doubled() == Some(duration),
{
}

/// How the arpeggiator turns a held note into a phrase.
#[derive(Clone, Copy, Debug, PartialEq, Eq)]
pub struct PhraseSpec {
    pub chord: Chord,
    pub direction: Direction,
    pub octave_min: OctaveShift,
    pub octave_max: OctaveShift,
    pub duration: NoteDuration,
}

impl PhraseSpec {
    /// The octave range is not empty.
    pub open spec fn wf(self) -> bool {
        self.octave_min.octaves() <= self.octave_max.octaves()
    }

    /// Rising octaves over one octave, in eighth notes.
    pub open spec fn initial() -> PhraseSpec {
        PhraseSpec {
            chord: Chord::Octaves,
            direction: Direction::Up,
            octave_min: OctaveShift::Same,
            octave_max: OctaveShift::Up1,
            duration: NoteDuration::Eighth,
        }
    }
}

impl Default for PhraseSpec {
    fn default() -> (phrase: PhraseSpec)
        ensures
            phrase == PhraseSpec::initial(),
            phrase.wf(),
    {
        PhraseSpec {
            chord: Chord::Octaves,
            direction: Direction::Up,
            octave_min: OctaveShift::Same,
            octave_max: OctaveShift::Up1,
            duration: NoteDuration::Eighth,
        }
    }
}

/// The arpeggiator patch.
#[derive(Clone, Copy, Debug, PartialEq, Eq)]
pub struct ArpeggiatorSpec {
    /// The tonic of the major key that the phrase is built in.
    pub key: PitchClass,
    pub phrase: PhraseSpec,
}

impl ArpeggiatorSpec {
    /// The octave range of the phrase is not empty.
    pub open spec fn wf(self) -> bool {
        self.phrase.wf()
    }
}

} // verus!
