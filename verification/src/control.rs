//! The controller: its interaction mode, the patch being edited, and the
//! routing of each event to the handler of the current mode.

use vstd::prelude::*;
use crate::command::Command;
use crate::input::{Input, WindowSize};
use crate::laws::lemma_step_keeps_coherence;
use crate::patch::{ArpeggiatorSpec, InstrumentSpec};

pub mod editing;
pub mod playing;

verus! {

/// How events are read: as a performance, or as edits of the patch.
#[derive(Clone, Copy, Debug, PartialEq, Eq)]
pub enum Mode {
    /// Editing; without a target the top-level menu is showing.
    Editing(Option<EditTarget>),
    Playing,
}

/// The part of the patch that is being edited.
#[derive(Clone, Copy, Debug, PartialEq, Eq)]
pub enum EditTarget {
    /// The oscillator; the sub-target says which settings the pointer moves.
    Oscillator(Option<OscillatorTarget>),
    Filter,
    Envelope,
    LFO,
    Arpeggiator,
}

/// The oscillator whose settings the pointer moves.
#[derive(Clone, Copy, Debug, PartialEq, Eq)]
pub enum OscillatorTarget {
    Pulse,
    Mix,
}

/// The state of the controller.
#[derive(Clone, Copy, Debug, PartialEq, Eq)]
pub struct Control {
    pub mode: Mode,
    pub instrument: InstrumentSpec,
    pub arpeggiator: Option<ArpeggiatorSpec>,
}

/// What one event does: the state after it, and the commands for the
/// engine in the order in which they are to be sent.
pub open spec fn dispatch(control: Control, input: Input, window_size: WindowSize) -> (
    Control,
    Seq<Command>,
) {
    match control.mode {
        Mode::Editing(_) => editing::step(control, input, window_size),
        Mode::Playing => playing::step(control, input, window_size),
    }
}

/// What a sequence of events does, one after the other: the state after
/// the last, and all the commands in the order in which they are sent.
pub open spec fn dispatch_all(control: Control, inputs: Seq<Input>, window_size: WindowSize) -> (
    Control,
    Seq<Command>,
)
    decreases inputs.len(),
{
    if inputs.len() == 0 {
        (control, Seq::empty())
    } else {
        let (before, sent) = dispatch_all(control, inputs.drop_last(), window_size);
        let (after, more) = dispatch(before, inputs.last(), window_size);
        (after, sent + more)
    }
}

impl Control {
    /// Every setting of the patch is inside its range.
    pub open spec fn wf(self) -> bool {
        &&& self.instrument.wf()
        &&& self.arpeggiator matches Some(arpeggiator) ==> arpeggiator.wf()
    }

    /// The oscillator editor shows the sub-target of the oscillator that is
    /// in place: the pulse settings only for a pulse, the mix settings only
    /// for a mix.
    pub open spec fn coherent(self) -> bool {
        match self.mode {
            Mode::Editing(Some(EditTarget::Oscillator(Some(OscillatorTarget::Pulse)))) => {
                self.instrument.oscillator is Pulse
            },
            Mode::Editing(Some(EditTarget::Oscillator(Some(OscillatorTarget::Mix)))) => {
                self.instrument.oscillator is Mix
            },
            _ => true,
        }
    }

    /// The state at startup: playing the initial instrument, without
    /// arpeggiator.
    pub open spec fn initial() -> Control {
        Control { mode: Mode::Playing, instrument: InstrumentSpec::initial(), arpeggiator: None }
    }

    /// The controller at startup.
    pub fn new() -> (control: Control)
        ensures
            control == Control::initial(),
            control.wf(),
            control.coherent(),
    {
        Control { mode: Mode::Playing, instrument: InstrumentSpec::default(), arpeggiator: None }
    }

    /// Handles one event in the current mode and returns the commands that
    /// it gives rise to.
    pub fn handle_input(&mut self, input: &Input, window_size: WindowSize) -> (commands: Vec<
        Command,
    >)
        ensures
            (*final(self), commands@) == dispatch(*old(self), *input, window_size),
            old(self).wf() ==> final(self).wf(),
            old(self).coherent() ==> final(self).coherent(),
    {
        proof {
            if self.coherent() {
                lemma_step_keeps_coherence(*self, *input, window_size);
            }
        }
        match self.mode {
            Mode::Editing(_) => editing::handle_input(input, window_size, self),
            Mode::Playing => playing::handle_input(input, window_size, self),
        }
    }
}

/// The names on the way from the top of the mode to where it is, outermost
/// first.
pub open spec fn trail(mode: Mode) -> Seq<Seq<char>> {
    match mode {
        Mode::Playing => seq!["playing"@],
        Mode::Editing(None) => seq!["editing"@],
        Mode::Editing(Some(target)) => seq!["editing"@] + (match target {
            EditTarget::Oscillator(None) => seq!["oscillator"@],
            EditTarget::Oscillator(Some(OscillatorTarget::Pulse)) => seq![
                "oscillator"@,
                "pulse"@,
            ],
            EditTarget::Oscillator(Some(OscillatorTarget::Mix)) => seq![
                "oscillator"@,
                "detuned mix"@,
            ],
            EditTarget::Filter => seq!["filter"@],
            EditTarget::Envelope => seq!["envelope"@],
            EditTarget::LFO => seq!["lfo"@],
            EditTarget::Arpeggiator => seq!["arpeggiator"@],
        }),
    }
}

/// The names of a trail in one line, with ` > ` between them.
pub open spec fn breadcrumb(names: Seq<Seq<char>>) -> Seq<char>
    decreases names.len(),
{
    if names.len() == 0 {
        Seq::empty()
    } else if names.len() == 1 {
        names[0]
    } else {
        breadcrumb(names.drop_last()) + " > "@ + names.last()
    }
}

/// The line that a display shows for the mode, such as
/// `editing > oscillator > pulse`.
pub fn mode_label(mode: Mode) -> (label: &'static str)
    ensures
        label@ == breadcrumb(trail(mode)),
{
    proof {
        reveal_strlit("playing");
        reveal_strlit("editing");
        reveal_strlit("oscillator");
        reveal_strlit("pulse");
        reveal_strlit("detuned mix");
        reveal_strlit("filter");
        reveal_strlit("envelope");
        reveal_strlit("lfo");
        reveal_strlit("arpeggiator");
        reveal_strlit(" > ");
        reveal_strlit("editing > oscillator");
        reveal_strlit("editing > oscillator > pulse");
        reveal_strlit("editing > oscillator > detuned mix");
        reveal_strlit("editing > filter");
        reveal_strlit("editing > envelope");
        reveal_strlit("editing > lfo");
        reveal_strlit("editing > arpeggiator");
        reveal_with_fuel(breadcrumb, 4);
        let names = trail(mode);
        if names.len() == 2 {
            assert(names.drop_last() =~= seq![names[0]]);
        } else if names.len() == 3 {
            assert(names.drop_last() =~= seq![names[0], names[1]]);
            assert(names.drop_last().drop_last() =~= seq![names[0]]);
        }
    }
    match mode {
        Mode::Playing => "playing",
        Mode::Editing(None) => "editing",
        Mode::Editing(Some(EditTarget::Oscillator(None))) => "editing > oscillator",
        Mode::Editing(Some(EditTarget::Oscillator(Some(OscillatorTarget::Pulse)))) => {
            "editing > oscillator > pulse"
        },
        Mode::Editing(Some(EditTarget::Oscillator(Some(OscillatorTarget::Mix)))) => {
            "editing > oscillator > detuned mix"
        },
        Mode::Editing(Some(EditTarget::Filter)) => "editing > filter",
        Mode::Editing(Some(EditTarget::Envelope)) => "editing > envelope",
        Mode::Editing(Some(EditTarget::LFO)) => "editing > lfo",
        Mode::Editing(Some(EditTarget::Arpeggiator)) => "editing > arpeggiator",
    }
}

} // verus!
