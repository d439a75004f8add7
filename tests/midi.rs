use polysynth::midi::{MidiMessage, SynthEvent, OMNI};

#[test]
fn test_parse_note_on() {
    let bytes = [0x90, 60, 100];
    let msg = MidiMessage::parse(&bytes);
    assert_eq!(
        msg,
        MidiMessage::NoteOn {
            channel: 0,
            note: 60,
            velocity: 100
        }
    );
}

#[test]
fn test_parse_note_off() {
    let bytes = [0x80, 60, 64];
    let msg = MidiMessage::parse(&bytes);
    assert_eq!(
        msg,
        MidiMessage::NoteOff {
            channel: 0,
            note: 60,
            velocity: 64
        }
    );
}

#[test]
fn test_note_on_velocity_zero_is_note_off() {
    let bytes = [0x90, 60, 0];
    let msg = MidiMessage::parse(&bytes);
    assert!(matches!(msg, MidiMessage::NoteOff { .. }));
}

#[test]
fn test_to_synth_event() {
    let msg = MidiMessage::NoteOn {
        channel: 0,
        note: 69,
        velocity: 100,
    };
    let event = msg.to_synth_event(255).unwrap();
    if let SynthEvent::NoteOn { note, .. } = event {
        let frequency = 440.0 * 2.0_f32.powf((note as f32 - 69.0) / 12.0);
        assert!((frequency - 440.0).abs() < 0.1);
    } else {
        panic!("Expected NoteOn event");
    }
    assert_eq!(
        event,
        SynthEvent::NoteOn {
            channel: 0,
            note: 69,
            velocity: 100
        }
    );
}

#[test]
fn parse_keeps_channel_nibble() {
    let msg = MidiMessage::parse(&[0x9A, 36, 90]);
    assert_eq!(
        msg,
        MidiMessage::NoteOn {
            channel: 10,
            note: 36,
            velocity: 90
        }
    );
}

#[test]
fn parse_control_change() {
    let msg = MidiMessage::parse(&[0xB3, 7, 100]);
    assert_eq!(
        msg,
        MidiMessage::ControlChange {
            channel: 3,
            controller: 7,
            value: 100
        }
    );
}

#[test]
fn short_messages_are_unknown() {
    assert_eq!(MidiMessage::parse(&[]), MidiMessage::Unknown);
    assert_eq!(MidiMessage::parse(&[0x90, 60]), MidiMessage::Unknown);
    assert_eq!(MidiMessage::parse(&[0x80, 60]), MidiMessage::Unknown);
    assert_eq!(MidiMessage::parse(&[0xB0]), MidiMessage::Unknown);
}

#[test]
fn other_status_is_unknown() {
    assert_eq!(MidiMessage::parse(&[0xE0, 0, 64]), MidiMessage::Unknown);
    assert_eq!(MidiMessage::parse(&[0xF8]), MidiMessage::Unknown);
}

#[test]
fn zero_velocity_equals_note_off_event() {
    let a = MidiMessage::parse(&[0x92, 64, 0]).to_synth_event(OMNI);
    let b = MidiMessage::parse(&[0x82, 64, 0]).to_synth_event(OMNI);
    assert_eq!(a, b);
    assert_eq!(a, Some(SynthEvent::NoteOff { channel: 2, note: 64 }));
}

#[test]
fn cc_123_is_all_notes_off() {
    let e = MidiMessage::parse(&[0xB5, 123, 0]).to_synth_event(OMNI);
    assert_eq!(e, Some(SynthEvent::AllNotesOff { channel: Some(5) }));
    let other = MidiMessage::parse(&[0xB5, 7, 0]).to_synth_event(OMNI);
    assert_eq!(other, None);
}

#[test]
fn to_synth_event_filters_channel() {
    let msg = MidiMessage::parse(&[0x91, 60, 100]);
    assert_eq!(msg.to_synth_event(0), None);
    assert_eq!(
        msg.to_synth_event(1),
        Some(SynthEvent::NoteOn {
            channel: 1,
            note: 60,
            velocity: 100
        })
    );
    assert_eq!(MidiMessage::Unknown.to_synth_event(OMNI), None);
}

#[test]
fn channel_filter_omni_and_specific() {
    let on0 = SynthEvent::note_on(0, 60, 100);
    assert!(on0.accepted_by(0));
    assert!(!on0.accepted_by(1));
    assert!(on0.accepted_by(OMNI));
    let global = SynthEvent::all_notes_off(None);
    assert!(global.accepted_by(0));
    assert!(global.accepted_by(1));
    let local = SynthEvent::all_notes_off(Some(3));
    assert!(local.accepted_by(3));
    assert!(!local.accepted_by(4));
    assert_eq!(SynthEvent::note_off(7, 1).channel(), Some(7));
    assert_eq!(global.channel(), None);
}
