use std::sync::Arc;

use polysynth::drums::{drum_fires, drum_voice_states, DrumType};
use polysynth::midi::{MidiMessage, SynthEvent, OMNI};
use polysynth::mixer::{interleaved_slot, routed_channels, EngineSpec, SnapshotClock};
use polysynth::parameters::{CVParameters, DrumParameters, SynthParameters};

#[test]
fn kick_on_channel_ten_routes_to_channel_three() {
    // kick listening on MIDI channel 10 (filter 9), trigger note 36, output channel 3
    let ev = MidiMessage::parse(&[0x99, 36, 100]).to_synth_event(OMNI).unwrap();
    assert!(drum_fires(36, 9, &ev));
    assert_eq!(routed_channels(3, false, 4), (Some(3), None));
    let frames = 256usize;
    let len = frames * 4;
    for f in 0..frames {
        let p = interleaved_slot(f, 3, 4, len).unwrap();
        assert_eq!(p % 4, 3);
    }
}

#[test]
fn drum_ignores_other_notes_and_channels() {
    assert!(!drum_fires(36, 9, &SynthEvent::note_on(9, 38, 100)));
    assert!(!drum_fires(36, 9, &SynthEvent::note_on(8, 36, 100)));
    assert!(drum_fires(36, OMNI, &SynthEvent::note_on(8, 36, 100)));
    assert!(!drum_fires(36, 9, &SynthEvent::note_off(9, 36)));
    assert!(!drum_fires(36, 9, &SynthEvent::all_notes_off(None)));
}

#[test]
fn drum_display() {
    let on = drum_voice_states(true, 36);
    assert_eq!(on[0], Some(36));
    assert!(on[1..].iter().all(|s| s.is_none()));
    assert!(drum_voice_states(false, 36).iter().all(|s| s.is_none()));
}

#[test]
fn cv_instance_takes_two_channels() {
    assert_eq!(routed_channels(1, true, 4), (Some(1), Some(2)));
    assert_eq!(routed_channels(3, true, 4), (Some(3), None));
    assert_eq!(routed_channels(4, true, 4), (None, None));
    assert_eq!(routed_channels(0, false, 1), (Some(0), None));
}

#[test]
fn interleaved_positions() {
    assert_eq!(interleaved_slot(0, 0, 2, 8), Some(0));
    assert_eq!(interleaved_slot(3, 1, 2, 8), Some(7));
    assert_eq!(interleaved_slot(4, 0, 2, 8), None);
    assert_eq!(interleaved_slot(0, 2, 2, 8), None);
    assert_eq!(interleaved_slot(0, 0, 2, 0), None);
}

#[test]
fn snapshot_every_interval() {
    let mut clock = SnapshotClock::new();
    assert!(!clock.advance(4000));
    assert!(!clock.advance(410));
    assert!(clock.advance(1));
    assert!(!clock.advance(512));
    assert!(clock.advance(u64::MAX));
}

#[test]
fn engine_specs() {
    let synth = EngineSpec::Synth { params: Arc::new(SynthParameters::new()), midi_channel: 0 };
    let cv = EngineSpec::CV { parameters: Arc::new(CVParameters::new()), midi_channel: 255 };
    let drum = EngineSpec::Drum {
        trigger_note: 36,
        midi_channel: 9,
        parameters: DrumParameters::new(DrumType::Kick),
    };
    assert!(!synth.uses_dual_channel());
    assert!(cv.uses_dual_channel());
    assert!(!drum.uses_dual_channel());
    assert_eq!(drum.midi_channel(), 9);
    assert_eq!(cv.midi_channel(), 255);
}
