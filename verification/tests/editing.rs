use synth_control::command::Command;
use synth_control::control::editing::{
    arpeggiator, filter, next_mix, handle_button, handle_input, handle_key, handle_mouse,
    handle_move, handle_move_relative, handle_spacebar, is_pointer_target, lfo, main_menu,
    normalized_motion_of, normalized_mouse, octaves_from_motion, octaves_from_mouse, oscillator,
    update_specs,
};
use synth_control::control::{Control, EditTarget, Mode, OscillatorTarget};
use synth_control::input::{ButtonState, Input, WindowSize};
use synth_control::key::Key;
use synth_control::patch::{
    ArpeggiatorSpec, BasicKind, Chord, Direction, FilterModTarget, FilterSpec, FilterType,
    InstrumentSpec, LFOSpec, ModTarget, NoteDuration, OctaveShift, OscillatorModTarget,
    OscillatorSpec, PhraseSpec,
};
use synth_control::pitch::{NoteId, Pitch, PitchClass};
use synth_control::scale::UNIT;

const WINDOW: WindowSize = WindowSize { width: 800, height: 800 };

fn editing(target: Option<EditTarget>) -> Control {
    Control { mode: Mode::Editing(target), ..Control::new() }
}

fn snapshot(control: &Control) -> Vec<Command> {
    vec![
        Command::ReplaceInstrumentPatch(control.instrument),
        Command::ReplaceArpeggiatorPatch(control.arpeggiator),
    ]
}

fn mix(n_voices: u8, detune_amount: i64, random_seed: u64) -> OscillatorSpec {
    OscillatorSpec::Mix { n_voices, detune_amount, base_kind: BasicKind::Saw, random_seed }
}

#[test]
fn update_specs_sends_instrument_then_arpeggiator() {
    let mut control = Control::new();
    control.arpeggiator =
        Some(ArpeggiatorSpec { key: PitchClass::C, phrase: PhraseSpec::default() });
    assert_eq!(
        update_specs(&control),
        vec![
            Command::ReplaceInstrumentPatch(control.instrument),
            Command::ReplaceArpeggiatorPatch(control.arpeggiator),
        ]
    );
    assert_eq!(
        update_specs(&Control::new()),
        vec![
            Command::ReplaceInstrumentPatch(InstrumentSpec::default()),
            Command::ReplaceArpeggiatorPatch(None),
        ]
    );
}

#[test]
fn main_menu_keys_lead_to_the_editors() {
    let expected = [
        (Key::Tab, Mode::Playing),
        (Key::Escape, Mode::Playing),
        (Key::O, Mode::Editing(Some(EditTarget::Oscillator(None)))),
        (Key::F, Mode::Editing(Some(EditTarget::Filter))),
        (Key::A, Mode::Editing(Some(EditTarget::Arpeggiator))),
        (Key::L, Mode::Editing(Some(EditTarget::LFO))),
    ];
    for (key, mode) in expected {
        let mut control = editing(None);
        assert_eq!(main_menu(key, &mut control), vec![]);
        assert_eq!(control, Control { mode, ..Control::new() });
    }
}

#[test]
fn main_menu_ignores_other_keys() {
    for key in [Key::D1, Key::E, Key::Q, Key::Return, Key::F1, Key::Unknown] {
        let mut control = editing(None);
        assert_eq!(control.handle_input(&Input::KeyRelease(key), WINDOW), vec![]);
        assert_eq!(control, editing(None));
    }
}

#[test]
fn menu_acts_on_release_only() {
    let mut control = editing(None);
    assert_eq!(control.handle_input(&Input::KeyPress(Key::O), WINDOW), vec![]);
    assert_eq!(control, editing(None));
}

#[test]
fn leaving_the_menu_keeps_the_patch() {
    for back in [Key::Tab, Key::Escape] {
        let mut control = Control::new();
        control.instrument.volume = 123_456;
        control.arpeggiator =
            Some(ArpeggiatorSpec { key: PitchClass::C, phrase: PhraseSpec::default() });
        let before = control;
        assert_eq!(control.handle_input(&Input::KeyRelease(Key::Tab), WINDOW), vec![]);
        assert_eq!(control.mode, Mode::Editing(None));
        assert_eq!(control.handle_input(&Input::KeyRelease(back), WINDOW), vec![]);
        assert_eq!(control, before);
    }
}

#[test]
fn editors_hand_unused_keys_to_the_menu() {
    for target in [
        EditTarget::Oscillator(None),
        EditTarget::Oscillator(Some(OscillatorTarget::Mix)),
        EditTarget::Filter,
        EditTarget::Envelope,
        EditTarget::LFO,
        EditTarget::Arpeggiator,
    ] {
        let mut control = editing(Some(target));
        assert_eq!(control.handle_input(&Input::KeyRelease(Key::F), WINDOW), vec![]);
        assert_eq!(control.mode, Mode::Editing(Some(EditTarget::Filter)));
        let mut control = editing(Some(target));
        assert_eq!(control.handle_input(&Input::KeyRelease(Key::Escape), WINDOW), vec![]);
        assert_eq!(control.mode, Mode::Playing);
    }
}

#[test]
fn space_bar_plays_a_preview_note_while_editing() {
    let concert = Pitch { class: PitchClass::A, octave: 4 };
    let id = NoteId { pitch: concert, discriminator: 0 };
    assert_eq!(handle_spacebar(ButtonState::Press), vec![Command::NoteOn(concert, UNIT, id)]);
    assert_eq!(handle_spacebar(ButtonState::Release), vec![Command::NoteOff(id)]);
    for target in [None, Some(EditTarget::Filter), Some(EditTarget::Arpeggiator)] {
        let mut control = editing(target);
        assert_eq!(
            control.handle_input(&Input::KeyPress(Key::Space), WINDOW),
            vec![Command::NoteOn(concert, UNIT, id)]
        );
        assert_eq!(
            control.handle_input(&Input::KeyRelease(Key::Space), WINDOW),
            vec![Command::NoteOff(id)]
        );
        assert_eq!(control, editing(target));
    }
}

#[test]
fn oscillator_keys_choose_the_waveform() {
    let expected = [
        (Key::D1, OscillatorSpec::Basic(BasicKind::Sine), None),
        (Key::D2, OscillatorSpec::Basic(BasicKind::Saw), None),
        (Key::D3, OscillatorSpec::Basic(BasicKind::Square), None),
        (Key::D4, OscillatorSpec::Pulse(500_000), Some(OscillatorTarget::Pulse)),
        (Key::D5, mix(8, 3_000_000, 0), Some(OscillatorTarget::Mix)),
    ];
    for (key, chosen, target) in expected {
        let mut control = editing(Some(EditTarget::Oscillator(None)));
        let commands = oscillator(key, &mut control);
        assert_eq!(control.instrument.oscillator, chosen);
        assert_eq!(control.mode, Mode::Editing(Some(EditTarget::Oscillator(target))));
        assert_eq!(commands, snapshot(&control));
        assert_eq!(control.instrument.filter, FilterSpec::default());
    }
}

#[test]
fn choosing_a_basic_waveform_leaves_the_sub_target() {
    let mut control = editing(Some(EditTarget::Oscillator(Some(OscillatorTarget::Mix))));
    control.instrument.oscillator = mix(5, 2_000_000, 9);
    control.handle_input(&Input::KeyRelease(Key::D2), WINDOW);
    assert_eq!(control.mode, Mode::Editing(Some(EditTarget::Oscillator(None))));
    assert_eq!(control.instrument.oscillator, OscillatorSpec::Basic(BasicKind::Saw));
}

#[test]
fn choosing_the_mix_again_takes_the_next_seed() {
    assert_eq!(next_mix(OscillatorSpec::Basic(BasicKind::Sine)), mix(8, 3_000_000, 0));
    assert_eq!(next_mix(OscillatorSpec::Pulse(1)), mix(8, 3_000_000, 0));
    assert_eq!(next_mix(mix(8, 3_000_000, 0)), mix(8, 3_000_000, 1));
    assert_eq!(next_mix(mix(17, 5_500_000, 41)), mix(17, 5_500_000, 42));
    assert_eq!(next_mix(mix(17, 5_500_000, u64::MAX)), mix(17, 5_500_000, 0));
}

#[test]
fn mix_twice_in_a_row_changes_the_seed_and_keeps_the_pointer_edit() {
    let mut control = editing(Some(EditTarget::Oscillator(None)));
    control.handle_input(&Input::KeyRelease(Key::D5), WINDOW);
    let first = control.instrument.oscillator;
    control.handle_input(&Input::PointerMoveAbsolute(400, 400), WINDOW);
    assert_eq!(control.instrument.oscillator, mix(20, 16_000_500, 0));
    let commands = control.handle_input(&Input::KeyRelease(Key::D5), WINDOW);
    assert_eq!(control.instrument.oscillator, mix(20, 16_000_500, 1));
    assert_ne!(control.instrument.oscillator, first);
    assert_eq!(commands, snapshot(&control));
    assert_eq!(
        control.mode,
        Mode::Editing(Some(EditTarget::Oscillator(Some(OscillatorTarget::Mix))))
    );
}

#[test]
fn filter_keys_choose_the_type_and_reset_the_rest() {
    let expected = [
        (Key::D1, FilterType::LPF),
        (Key::D2, FilterType::HPF),
        (Key::D3, FilterType::BPF),
        (Key::D4, FilterType::Notch),
    ];
    for (key, filter_type) in expected {
        let mut control = editing(Some(EditTarget::Filter));
        control.instrument.filter.cutoff = 1;
        control.instrument.filter.resonance = 2;
        let commands = filter(key, &mut control);
        assert_eq!(
            control.instrument.filter,
            FilterSpec { filter_type, cutoff: UNIT, resonance: 50_000 }
        );
        assert_eq!(control.mode, Mode::Editing(Some(EditTarget::Filter)));
        assert_eq!(commands, snapshot(&control));
    }
}

#[test]
fn filter_editor_has_no_fifth_type() {
    let mut control = editing(Some(EditTarget::Filter));
    assert_eq!(control.handle_input(&Input::KeyRelease(Key::D5), WINDOW), vec![]);
    assert_eq!(control, editing(Some(EditTarget::Filter)));
}

#[test]
fn arpeggiator_keys_choose_chord_and_direction() {
    let chords = [
        (Key::D1, Chord::Octaves),
        (Key::D2, Chord::Triad),
        (Key::D3, Chord::Fantasy),
        (Key::D4, Chord::Tetra),
        (Key::D5, Chord::Penta),
    ];
    for (key, chord) in chords {
        let mut control = editing(Some(EditTarget::Arpeggiator));
        let commands = arpeggiator(key, &mut control);
        assert_eq!(
            control.arpeggiator,
            Some(ArpeggiatorSpec {
                key: PitchClass::C,
                phrase: PhraseSpec { chord, ..PhraseSpec::default() },
            })
        );
        assert_eq!(commands, snapshot(&control));
    }
    let directions =
        [(Key::F1, Direction::Up), (Key::F2, Direction::Down), (Key::F3, Direction::UpDown)];
    for (key, direction) in directions {
        let mut control = editing(Some(EditTarget::Arpeggiator));
        let commands = arpeggiator(key, &mut control);
        assert_eq!(
            control.arpeggiator,
            Some(ArpeggiatorSpec {
                key: PitchClass::C,
                phrase: PhraseSpec { direction, ..PhraseSpec::default() },
            })
        );
        assert_eq!(commands, snapshot(&control));
    }
}

#[test]
fn arpeggiator_edits_keep_the_other_settings_and_reset_the_key() {
    let phrase = PhraseSpec {
        chord: Chord::Tetra,
        direction: Direction::Down,
        octave_min: OctaveShift::Down2,
        octave_max: OctaveShift::Up3,
        duration: NoteDuration::Quarter,
    };
    let mut control = editing(Some(EditTarget::Arpeggiator));
    control.arpeggiator = Some(ArpeggiatorSpec { key: PitchClass::G, phrase });
    control.handle_input(&Input::KeyRelease(Key::F3), WINDOW);
    assert_eq!(
        control.arpeggiator,
        Some(ArpeggiatorSpec {
            key: PitchClass::C,
            phrase: PhraseSpec { direction: Direction::UpDown, ..phrase },
        })
    );
}

#[test]
fn arpeggiator_note_length_halves_and_doubles_between_its_limits() {
    let mut control = editing(Some(EditTarget::Arpeggiator));
    let length = |control: &Control| control.arpeggiator.unwrap().phrase.duration;
    control.handle_input(&Input::KeyRelease(Key::Minus), WINDOW);
    assert_eq!(length(&control), NoteDuration::Sixteenth);
    let commands = control.handle_input(&Input::KeyRelease(Key::Minus), WINDOW);
    assert_eq!(length(&control), NoteDuration::Sixteenth);
    assert_eq!(commands, snapshot(&control));
    for expected in [
        NoteDuration::Eighth,
        NoteDuration::Quarter,
        NoteDuration::Half,
        NoteDuration::Whole,
        NoteDuration::Whole,
    ] {
        let commands = control.handle_input(&Input::KeyRelease(Key::Equals), WINDOW);
        assert_eq!(length(&control), expected);
        assert_eq!(commands, snapshot(&control));
    }
}

#[test]
fn zero_switches_the_arpeggiator_off() {
    let mut control = editing(Some(EditTarget::Arpeggiator));
    control.handle_input(&Input::KeyRelease(Key::D2), WINDOW);
    assert!(control.arpeggiator.is_some());
    let commands = control.handle_input(&Input::KeyRelease(Key::D0), WINDOW);
    assert_eq!(control.arpeggiator, None);
    assert_eq!(
        commands,
        vec![
            Command::ReplaceInstrumentPatch(InstrumentSpec::default()),
            Command::ReplaceArpeggiatorPatch(None),
        ]
    );
}

#[test]
fn lfo_keys_choose_target_and_waveform() {
    let targets = [
        (Key::D1, ModTarget::Volume),
        (Key::D2, ModTarget::Filter(FilterModTarget::Cutoff)),
        (Key::D3, ModTarget::Filter(FilterModTarget::QFactor)),
        (Key::D4, ModTarget::Oscillator(OscillatorModTarget::PulseDuty)),
    ];
    for (key, target) in targets {
        let mut control = editing(Some(EditTarget::LFO));
        let commands = lfo(key, &mut control);
        assert_eq!(control.instrument.lfo, Some(LFOSpec { target, ..LFOSpec::default() }));
        assert_eq!(commands, snapshot(&control));
    }
    let waves =
        [(Key::F1, BasicKind::Sine), (Key::F2, BasicKind::Saw), (Key::F3, BasicKind::Square)];
    for (key, oscillator) in waves {
        let mut control = editing(Some(EditTarget::LFO));
        control.instrument.lfo = Some(LFOSpec {
            target: ModTarget::Filter(FilterModTarget::Cutoff),
            oscillator: BasicKind::Sine,
            amount: 700_000,
            freq: 12_000_000,
        });
        let commands = lfo(key, &mut control);
        assert_eq!(
            control.instrument.lfo,
            Some(LFOSpec {
                target: ModTarget::Filter(FilterModTarget::Cutoff),
                oscillator,
                amount: 700_000,
                freq: 12_000_000,
            })
        );
        assert_eq!(commands, snapshot(&control));
    }
}

#[test]
fn zero_removes_the_lfo() {
    let mut control = editing(Some(EditTarget::LFO));
    control.handle_input(&Input::KeyRelease(Key::D2), WINDOW);
    assert!(control.instrument.lfo.is_some());
    let commands = control.handle_input(&Input::KeyRelease(Key::D0), WINDOW);
    assert_eq!(control.instrument.lfo, None);
    assert_eq!(commands, snapshot(&control));
}

#[test]
fn envelope_editor_has_only_the_menu() {
    for key in [Key::D0, Key::D1, Key::F1, Key::Minus] {
        let mut control = editing(Some(EditTarget::Envelope));
        assert_eq!(control.handle_input(&Input::KeyRelease(key), WINDOW), vec![]);
        assert_eq!(control, editing(Some(EditTarget::Envelope)));
    }
    let mut control = editing(Some(EditTarget::Envelope));
    assert_eq!(control.handle_input(&Input::PointerMoveAbsolute(100, 100), WINDOW), vec![]);
    assert_eq!(control, editing(Some(EditTarget::Envelope)));
}

#[test]
fn editing_handler_ignores_keys_when_the_mode_is_playing() {
    let mut control = Control::new();
    assert_eq!(handle_key(Key::D1, &mut control), vec![]);
    assert_eq!(handle_key(Key::O, &mut control), vec![]);
    assert_eq!(handle_input(&Input::KeyRelease(Key::O), WINDOW, &mut control), vec![]);
    assert_eq!(handle_input(&Input::PointerMoveAbsolute(1, 1), WINDOW, &mut control), vec![]);
    assert_eq!(control, Control::new());
}

#[test]
fn editing_button_handler_acts_on_release() {
    let mut control = editing(Some(EditTarget::Filter));
    assert_eq!(handle_button(ButtonState::Press, Key::D2, &mut control), vec![]);
    assert_eq!(control, editing(Some(EditTarget::Filter)));
    let commands = handle_button(ButtonState::Release, Key::D2, &mut control);
    assert_eq!(control.instrument.filter.filter_type, FilterType::HPF);
    assert_eq!(commands, snapshot(&control));
}

#[test]
fn normalized_mouse_flips_the_vertical_axis_and_clamps() {
    assert_eq!(normalized_mouse(200, 200, WINDOW), (250_000, 750_000));
    assert_eq!(normalized_mouse(0, 0, WINDOW), (0, UNIT));
    assert_eq!(normalized_mouse(800, 800, WINDOW), (UNIT, 0));
    assert_eq!(normalized_mouse(-5, -5, WINDOW), (0, UNIT));
    assert_eq!(normalized_mouse(9_000, 9_000, WINDOW), (UNIT, 0));
    assert_eq!(normalized_mouse(i32::MIN, i32::MAX, WindowSize { width: 1, height: 1 }), (0, 0));
    assert_eq!(
        normalized_mouse(i32::MAX, i32::MIN, WindowSize { width: 1, height: 1 }),
        (UNIT, UNIT)
    );
    assert_eq!(normalized_mouse(1, 1, WindowSize { width: 3, height: 3 }), (333_333, 666_667));
}

#[test]
fn normalized_motion_counts_upwards_as_positive() {
    assert_eq!(normalized_motion_of(80, -80, WINDOW), (100_000, 100_000));
    assert_eq!(normalized_motion_of(-80, 80, WINDOW), (-100_000, -100_000));
    assert_eq!(normalized_motion_of(1, 1, WindowSize { width: 3, height: 3 }), (333_333, -333_333));
    assert_eq!(
        normalized_motion_of(-1, -1, WindowSize { width: 3, height: 3 }),
        (-333_334, 333_334)
    );
    assert_eq!(
        normalized_motion_of(i32::MIN, i32::MIN, WindowSize { width: 1, height: 1 }),
        (-2_147_483_648_000_000, 2_147_483_648_000_000)
    );
}

#[test]
fn pointer_in_the_filter_editor_sets_cutoff_and_resonance() {
    let mut control = Control::new();
    control.handle_input(&Input::KeyRelease(Key::Tab), WINDOW);
    control.handle_input(&Input::KeyRelease(Key::F), WINDOW);
    assert_eq!(control.mode, Mode::Editing(Some(EditTarget::Filter)));
    let commands = control.handle_input(&Input::PointerMoveAbsolute(200, 200), WINDOW);
    assert_eq!(control.instrument.filter.cutoff, 750_000);
    assert_eq!(control.instrument.filter.resonance, 250_000);
    assert_eq!(control.instrument.filter.filter_type, FilterType::LPF);
    assert_eq!(commands.len(), 2);
    assert_eq!(commands, snapshot(&control));
    assert_eq!(control.mode, Mode::Editing(Some(EditTarget::Filter)));
}

#[test]
fn pointer_in_the_pulse_editor_sets_the_duty() {
    let mut control = editing(Some(EditTarget::Oscillator(None)));
    control.handle_input(&Input::KeyRelease(Key::D4), WINDOW);
    let commands = control.handle_input(&Input::PointerMoveAbsolute(600, 123), WINDOW);
    assert_eq!(control.instrument.oscillator, OscillatorSpec::Pulse(750_000));
    assert_eq!(commands, snapshot(&control));
    control.handle_input(&Input::PointerMoveAbsolute(-10, 0), WINDOW);
    assert_eq!(control.instrument.oscillator, OscillatorSpec::Pulse(0));
    control.handle_input(&Input::PointerMoveAbsolute(5_000, 0), WINDOW);
    assert_eq!(control.instrument.oscillator, OscillatorSpec::Pulse(UNIT));
}

#[test]
fn pointer_in_the_mix_editor_sets_voices_and_detune() {
    let mut control = editing(Some(EditTarget::Oscillator(None)));
    control.handle_input(&Input::KeyRelease(Key::D5), WINDOW);
    let commands = control.handle_input(&Input::PointerMoveAbsolute(0, 800), WINDOW);
    assert_eq!(control.instrument.oscillator, mix(1, 1_000, 0));
    assert_eq!(commands, snapshot(&control));
    control.handle_input(&Input::PointerMoveAbsolute(800, 0), WINDOW);
    assert_eq!(control.instrument.oscillator, mix(40, 32_000_000, 0));
    control.handle_input(&Input::PointerMoveAbsolute(400, 1), WINDOW);
    assert_eq!(control.instrument.oscillator, mix(39, 16_000_500, 0));
}

#[test]
fn pointer_in_the_lfo_editor_sets_amount_and_frequency() {
    let mut control = editing(Some(EditTarget::LFO));
    control.handle_input(&Input::KeyRelease(Key::D2), WINDOW);
    let commands = control.handle_input(&Input::PointerMoveAbsolute(200, 600), WINDOW);
    assert_eq!(
        control.instrument.lfo,
        Some(LFOSpec {
            target: ModTarget::Filter(FilterModTarget::Cutoff),
            oscillator: BasicKind::Sine,
            amount: 250_000,
            freq: 13_750_000,
        })
    );
    assert_eq!(commands, snapshot(&control));
    control.handle_input(&Input::PointerMoveAbsolute(800, 0), WINDOW);
    assert_eq!(control.instrument.lfo.unwrap().amount, UNIT);
    assert_eq!(control.instrument.lfo.unwrap().freq, 55_000_000);
}

#[test]
fn pointer_in_the_arpeggiator_editor_sets_the_octave_range() {
    let mut control = editing(Some(EditTarget::Arpeggiator));
    control.handle_input(&Input::KeyRelease(Key::D2), WINDOW);
    let commands = control.handle_input(&Input::PointerMoveAbsolute(400, 400), WINDOW);
    let phrase = control.arpeggiator.unwrap().phrase;
    assert_eq!((phrase.octave_min, phrase.octave_max), (OctaveShift::Same, OctaveShift::Up3));
    assert_eq!(phrase.chord, Chord::Triad);
    assert_eq!(commands, snapshot(&control));
}

#[test]
fn pointer_without_a_setting_to_move_still_sends_the_patch() {
    let mut control = editing(Some(EditTarget::Arpeggiator));
    let commands = control.handle_input(&Input::PointerMoveAbsolute(400, 400), WINDOW);
    assert_eq!(control, editing(Some(EditTarget::Arpeggiator)));
    assert_eq!(commands, snapshot(&control));
    let mut control = editing(Some(EditTarget::LFO));
    let commands = control.handle_input(&Input::PointerMoveAbsolute(400, 400), WINDOW);
    assert_eq!(control, editing(Some(EditTarget::LFO)));
    assert_eq!(commands, snapshot(&control));
    let mut control = editing(Some(EditTarget::Oscillator(Some(OscillatorTarget::Pulse))));
    let commands = control.handle_input(&Input::PointerMoveAbsolute(400, 400), WINDOW);
    assert_eq!(control.instrument.oscillator, OscillatorSpec::Basic(BasicKind::Sine));
    assert_eq!(commands, snapshot(&control));
}

#[test]
fn pointer_does_nothing_where_it_edits_nothing() {
    for target in [None, Some(EditTarget::Oscillator(None)), Some(EditTarget::Envelope)] {
        assert!(!is_pointer_target(Mode::Editing(target)));
        let mut control = editing(target);
        assert_eq!(control.handle_input(&Input::PointerMoveAbsolute(10, 10), WINDOW), vec![]);
        assert_eq!(control.handle_input(&Input::PointerMoveRelative(10, 10), WINDOW), vec![]);
        assert_eq!(control, editing(target));
    }
    assert!(!is_pointer_target(Mode::Playing));
    assert!(is_pointer_target(Mode::Editing(Some(EditTarget::Filter))));
    assert!(is_pointer_target(Mode::Editing(Some(EditTarget::LFO))));
    assert!(is_pointer_target(Mode::Editing(Some(EditTarget::Arpeggiator))));
    assert!(is_pointer_target(Mode::Editing(Some(EditTarget::Oscillator(Some(
        OscillatorTarget::Pulse
    ))))));
}

#[test]
fn viewport_without_area_stops_pointer_edits() {
    for window in [
        WindowSize { width: 0, height: 800 },
        WindowSize { width: 800, height: 0 },
        WindowSize { width: 0, height: 0 },
    ] {
        let mut control = editing(Some(EditTarget::Filter));
        assert_eq!(control.handle_input(&Input::PointerMoveAbsolute(10, 10), window), vec![]);
        assert_eq!(handle_mouse(&Input::PointerMoveRelative(10, 10), &mut control, window), vec![]);
        assert_eq!(control, editing(Some(EditTarget::Filter)));
    }
}

#[test]
fn handle_move_edits_without_sending() {
    let mut control = editing(Some(EditTarget::Filter));
    handle_move(400, 0, &mut control, WINDOW);
    assert_eq!(control.instrument.filter.cutoff, UNIT);
    assert_eq!(control.instrument.filter.resonance, 500_000);
}

#[test]
fn relative_motion_accumulates_in_the_filter_editor() {
    let mut control = editing(Some(EditTarget::Filter));
    control.instrument.filter.cutoff = 500_000;
    control.instrument.filter.resonance = 500_000;
    let commands = control.handle_input(&Input::PointerMoveRelative(80, -160), WINDOW);
    assert_eq!(control.instrument.filter.cutoff, 700_000);
    assert_eq!(control.instrument.filter.resonance, 600_000);
    assert_eq!(commands, snapshot(&control));
    control.handle_input(&Input::PointerMoveRelative(-800, 800), WINDOW);
    assert_eq!(control.instrument.filter.cutoff, 0);
    assert_eq!(control.instrument.filter.resonance, 0);
    control.handle_input(&Input::PointerMoveRelative(i32::MAX, i32::MIN), WINDOW);
    assert_eq!(control.instrument.filter.cutoff, UNIT);
    assert_eq!(control.instrument.filter.resonance, UNIT);
}

#[test]
fn relative_motion_accumulates_in_the_mix_editor() {
    let mut control = editing(Some(EditTarget::Oscillator(Some(OscillatorTarget::Mix))));
    control.instrument.oscillator = mix(8, 3_000_000, 7);
    handle_move_relative(80, -80, &mut control, WINDOW);
    assert_eq!(control.instrument.oscillator, mix(11, 6_199_900, 7));
    handle_move_relative(-8_000, 8_000, &mut control, WINDOW);
    assert_eq!(control.instrument.oscillator, mix(1, 1_000, 7));
    handle_move_relative(8_000, -8_000, &mut control, WINDOW);
    assert_eq!(control.instrument.oscillator, mix(40, 32_000_000, 7));
}

#[test]
fn relative_motion_accumulates_in_the_pulse_and_lfo_editors() {
    let mut control = editing(Some(EditTarget::Oscillator(Some(OscillatorTarget::Pulse))));
    control.instrument.oscillator = OscillatorSpec::Pulse(500_000);
    control.handle_input(&Input::PointerMoveRelative(-200, 0), WINDOW);
    assert_eq!(control.instrument.oscillator, OscillatorSpec::Pulse(250_000));
    let mut control = editing(Some(EditTarget::LFO));
    control.instrument.lfo = Some(LFOSpec::default());
    control.handle_input(&Input::PointerMoveRelative(80, -400), WINDOW);
    assert_eq!(control.instrument.lfo.unwrap().amount, 500_000);
    assert_eq!(control.instrument.lfo.unwrap().freq, 6_500_000);
}

#[test]
fn relative_motion_moves_the_octave_range() {
    let mut control = editing(Some(EditTarget::Arpeggiator));
    control.arpeggiator =
        Some(ArpeggiatorSpec { key: PitchClass::C, phrase: PhraseSpec::default() });
    control.handle_input(&Input::PointerMoveRelative(0, 400), WINDOW);
    let phrase = control.arpeggiator.unwrap().phrase;
    assert_eq!((phrase.octave_min, phrase.octave_max), (OctaveShift::Down3, OctaveShift::Down2));
    control.handle_input(&Input::PointerMoveRelative(400, 0), WINDOW);
    let phrase = control.arpeggiator.unwrap().phrase;
    assert_eq!((phrase.octave_min, phrase.octave_max), (OctaveShift::Down3, OctaveShift::Up1));
}

#[test]
fn octaves_from_mouse_at_the_corners_and_the_centre() {
    assert_eq!(octaves_from_mouse(0, 0), (OctaveShift::Down3, OctaveShift::Down3));
    assert_eq!(octaves_from_mouse(UNIT, 0), (OctaveShift::Down3, OctaveShift::Up3));
    assert_eq!(octaves_from_mouse(0, UNIT), (OctaveShift::Up3, OctaveShift::Up3));
    assert_eq!(octaves_from_mouse(UNIT, UNIT), (OctaveShift::Up3, OctaveShift::Up3));
    assert_eq!(octaves_from_mouse(500_000, 500_000), (OctaveShift::Same, OctaveShift::Up3));
    assert_eq!(octaves_from_mouse(166_667, 333_334), (OctaveShift::Down1, OctaveShift::Same));
    assert_eq!(octaves_from_mouse(166_666, 333_333), (OctaveShift::Down2, OctaveShift::Down2));
}

#[test]
fn octaves_from_mouse_never_leaves_the_octave_shifts() {
    let mut x = 0;
    while x <= UNIT {
        let mut y = 0;
        while y <= UNIT {
            let (low, high) = octaves_from_mouse(x, y);
            assert!(-3 <= low.to_i8() && low.to_i8() <= high.to_i8() && high.to_i8() <= 3);
            y += 31_250;
        }
        x += 31_250;
    }
}

#[test]
fn octaves_from_motion_moves_bottom_and_width() {
    assert_eq!(
        octaves_from_motion(OctaveShift::Same, OctaveShift::Up1, 0, 0),
        (OctaveShift::Same, OctaveShift::Up1)
    );
    assert_eq!(
        octaves_from_motion(OctaveShift::Same, OctaveShift::Up1, 0, 500_000),
        (OctaveShift::Up3, OctaveShift::Up3)
    );
    assert_eq!(
        octaves_from_motion(OctaveShift::Same, OctaveShift::Up1, -500_000, -500_000),
        (OctaveShift::Down3, OctaveShift::Down3)
    );
    assert_eq!(
        octaves_from_motion(OctaveShift::Down1, OctaveShift::Up1, 166_667, -166_667),
        (OctaveShift::Down3, OctaveShift::Same)
    );
    assert_eq!(
        octaves_from_motion(OctaveShift::Up2, OctaveShift::Down2, 0, 0),
        (OctaveShift::Up2, OctaveShift::Up2)
    );
    assert_eq!(
        octaves_from_motion(OctaveShift::Down3, OctaveShift::Up3, i64::MAX, i64::MIN),
        (OctaveShift::Down3, OctaveShift::Up3)
    );
}
