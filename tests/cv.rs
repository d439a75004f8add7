use polysynth::cv::{note_to_semitones, MonoVoice, NoteStack, PitchMove};

fn voltage(note: u8, transpose: i8) -> f32 {
    note_to_semitones(note, transpose) as f32 / 120.0
}

#[test]
fn test_note_to_voltage() {
    assert_eq!(voltage(60, 0), 0.0);
    assert!((voltage(72, 0) - 0.1).abs() < 0.001);
    assert!((voltage(48, 0) + 0.1).abs() < 0.001);
    assert!((voltage(69, 0) - 0.075).abs() < 0.001);
    assert!((voltage(60, 12) - 0.1).abs() < 0.001);
    assert!((voltage(60, -12) + 0.1).abs() < 0.001);
}

#[test]
fn semitone_values() {
    assert_eq!(note_to_semitones(60, 0), 0);
    assert_eq!(note_to_semitones(72, 0), 12);
    assert_eq!(note_to_semitones(48, 0), -12);
    assert_eq!(note_to_semitones(69, 0), 9);
}

#[test]
fn transpose_clamps_to_midi_range() {
    assert_eq!(note_to_semitones(120, 24), 67);
    assert_eq!(note_to_semitones(5, -24), -60);
    assert_eq!(note_to_semitones(50, 10), note_to_semitones(60, 0));
}

#[test]
fn test_note_priority() {
    let mut voice = NoteStack::new();
    voice.note_on(60);
    assert_eq!(voice.top(), Some(60));
    voice.note_on(64);
    assert_eq!(voice.top(), Some(64));
    voice.note_off(64);
    assert_eq!(voice.top(), Some(60));
    voice.note_off(60);
    assert_eq!(voice.top(), None);
}

#[test]
fn test_gate() {
    let mut voice = NoteStack::new();
    assert!(!voice.gate());
    voice.note_on(60);
    assert!(voice.gate());
    voice.note_off(60);
    assert!(!voice.gate());
}

#[test]
fn first_note_jumps_and_legato_glides() {
    let mut voice = NoteStack::new();
    assert!(!voice.note_on(60));
    assert!(voice.note_on(72));
    assert_eq!(voice.note_off(72), Some(60));
    assert!(voice.gate());
    assert_eq!(voice.note_off(60), None);
    assert!(!voice.gate());
}

#[test]
fn repeated_note_is_held_once() {
    let mut voice = NoteStack::new();
    voice.note_on(60);
    voice.note_on(60);
    assert_eq!(voice.len(), 1);
    voice.note_off(60);
    assert!(!voice.gate());
}

#[test]
fn full_stack_replaces_oldest() {
    let mut voice = NoteStack::new();
    for n in 0..16u8 {
        voice.note_on(40 + n);
    }
    assert_eq!(voice.len(), 16);
    voice.note_on(100);
    assert_eq!(voice.len(), 16);
    assert!(voice.contains(100));
    assert!(!voice.contains(40));
    assert!(voice.contains(41));
    assert_eq!(voice.top(), Some(100));
    assert_eq!(voice.note_off(100), Some(55));
}

#[test]
fn releasing_unheld_note_changes_nothing() {
    let mut voice = NoteStack::new();
    voice.note_on(60);
    assert_eq!(voice.note_off(61), Some(60));
    assert_eq!(voice.len(), 1);
    voice.clear();
    assert!(!voice.gate());
}


#[test]
fn mono_voice_scenario() {
    let mut v = MonoVoice::new();
    assert!(!v.gate());
    assert_eq!(v.note_on(60), PitchMove::Jump { semitones: 0 });
    assert!(v.gate());
    assert_eq!(v.note_on(72), PitchMove::Glide { semitones: 12 });
    assert_eq!(v.note_off(72), PitchMove::Glide { semitones: 0 });
    assert!(v.gate());
    assert_eq!(v.current_note(), Some(60));
    assert_eq!(v.note_off(60), PitchMove::Hold);
    assert!(!v.gate());
    assert_eq!(v.current_note(), None);
}

#[test]
fn mono_voice_transpose() {
    let mut v = MonoVoice::new();
    assert_eq!(v.set_transpose(5), PitchMove::Hold);
    assert_eq!(v.note_on(60), PitchMove::Jump { semitones: 5 });
    assert_eq!(v.set_transpose(5), PitchMove::Hold);
    assert_eq!(v.set_transpose(-12), PitchMove::Glide { semitones: -12 });
    assert_eq!(v.transpose(), -12);
    v.all_notes_off();
    assert!(!v.gate());
    assert_eq!(v.note_on(61), PitchMove::Jump { semitones: -11 });
}

#[test]
fn mono_voice_release_keeps_other_notes() {
    let mut v = MonoVoice::new();
    v.note_on(60);
    v.note_on(64);
    v.note_on(67);
    assert_eq!(v.note_off(64), PitchMove::Glide { semitones: 7 });
    assert_eq!(v.current_note(), Some(67));
    assert_eq!(v.note_off(67), PitchMove::Glide { semitones: 0 });
    assert!(v.gate());
    assert_eq!(v.note_off(60), PitchMove::Hold);
    assert!(!v.gate());
}

#[test]
fn mono_voice_full_stack_takes_new_note_on_top() {
    let mut v = MonoVoice::new();
    for n in 0..16u8 {
        v.note_on(40 + n);
    }
    assert_eq!(v.note_on(100), PitchMove::Glide { semitones: 40 });
    assert_eq!(v.current_note(), Some(100));
}
