use std::sync::atomic::Ordering;

use polysynth::drums::DrumType;
use polysynth::notes::midi_note_to_name;
use polysynth::parameters::{
    AtomicF32, CVParameters, DrumParameters, HatParameters, KickParameters, SnareParameters,
    SynthParameters,
};
use polysynth::ui::{next_index, next_midi_channel, next_waveform, prev_index, prev_midi_channel, prev_waveform, Parameter};
use polysynth::waveform::Waveform;

#[test]
fn waveform_codes_round_trip() {
    for w in [Waveform::Sine, Waveform::Triangle, Waveform::Sawtooth, Waveform::Square] {
        assert_eq!(Waveform::from_u8(w.to_u8()), w);
    }
    assert_eq!(Waveform::Square.to_u8(), 3);
    assert_eq!(Waveform::from_u8(200), Waveform::Sine);
    assert_eq!(Waveform::default(), Waveform::Sine);
}

#[test]
fn note_names() {
    assert_eq!(midi_note_to_name(60), "C4");
    assert_eq!(midi_note_to_name(61), "C#4");
    assert_eq!(midi_note_to_name(69), "A4");
    assert_eq!(midi_note_to_name(0), "C-1");
    assert_eq!(midi_note_to_name(127), "G9");
}

#[test]
fn drum_names() {
    assert_eq!(DrumType::Kick.name(), "Kick");
    assert_eq!(DrumType::Snare.name(), "Snare");
    assert_eq!(DrumType::Hat.name(), "Hat");
}

#[test]
fn default_parameter_values() {
    let p = SynthParameters::new();
    assert_eq!(f32::from_bits(p.attack.load_bits(Ordering::Relaxed)), 0.01);
    assert_eq!(f32::from_bits(p.decay.load_bits(Ordering::Relaxed)), 0.1);
    assert_eq!(f32::from_bits(p.sustain.load_bits(Ordering::Relaxed)), 0.7);
    assert_eq!(f32::from_bits(p.release.load_bits(Ordering::Relaxed)), 0.3);
    assert_eq!(p.midi_channel.load(Ordering::Relaxed), 255);
    let k = KickParameters::new();
    assert_eq!(f32::from_bits(k.pitch_start.load_bits(Ordering::Relaxed)), 150.0);
    assert_eq!(f32::from_bits(k.pitch_end.load_bits(Ordering::Relaxed)), 40.0);
    assert_eq!(f32::from_bits(k.pitch_decay.load_bits(Ordering::Relaxed)), 0.05);
    let s = SnareParameters::new();
    assert_eq!(f32::from_bits(s.tone_freq.load_bits(Ordering::Relaxed)), 200.0);
    assert_eq!(f32::from_bits(s.decay.load_bits(Ordering::Relaxed)), 0.15);
    assert_eq!(f32::from_bits(s.snap.load_bits(Ordering::Relaxed)), 0.5);
    let h = HatParameters::new();
    assert_eq!(f32::from_bits(h.brightness.load_bits(Ordering::Relaxed)), 7000.0);
    assert_eq!(f32::from_bits(h.metallic.load_bits(Ordering::Relaxed)), 0.4);
    let c = CVParameters::new_with_config(-12, 0.1f32.to_bits());
    assert_eq!(c.transpose.load(Ordering::Relaxed), -12);
    assert_eq!(f32::from_bits(c.glide.load_bits(Ordering::Relaxed)), 0.1);
}

#[test]
fn atomic_f32_stores() {
    let a = AtomicF32::from_bits(1.5f32.to_bits());
    a.store_bits(2.25f32.to_bits(), Ordering::Relaxed);
    assert_eq!(f32::from_bits(a.load_bits(Ordering::Relaxed)), 2.25);
}

#[test]
fn drum_parameter_kinds() {
    assert_eq!(DrumParameters::new(DrumType::Snare).drum_type(), DrumType::Snare);
    assert!(matches!(DrumParameters::new(DrumType::Hat), DrumParameters::Hat(_)));
}

#[test]
fn parameter_cycle() {
    let mut p = Parameter::Attack;
    for _ in 0..9 {
        p = p.next();
    }
    assert_eq!(p, Parameter::Attack);
    assert_eq!(Parameter::Release.next(), Parameter::ReverbMix);
    assert_eq!(Parameter::Attack.prev(), Parameter::Channel);
    assert_eq!(Parameter::Waveform.prev(), Parameter::ReverbDamping);
}

#[test]
fn value_cycles() {
    assert_eq!(next_waveform(Waveform::Square), Waveform::Sine);
    assert_eq!(prev_waveform(Waveform::Sine), Waveform::Square);
    assert_eq!(next_midi_channel(None), Some(0));
    assert_eq!(next_midi_channel(Some(15)), None);
    assert_eq!(prev_midi_channel(Some(0)), None);
    assert_eq!(prev_midi_channel(None), Some(15));
    assert_eq!(next_index(2, 3), 0);
    assert_eq!(prev_index(0, 3), 2);
    assert_eq!(next_index(0, 0), 0);
}

#[test]
fn default_reverb_parameters() {
    let p = SynthParameters::new();
    assert_eq!(f32::from_bits(p.reverb_mix.load_bits(Ordering::Relaxed)), 0.0);
    assert_eq!(f32::from_bits(p.reverb_room_size.load_bits(Ordering::Relaxed)), 0.5);
    assert_eq!(f32::from_bits(p.reverb_damping.load_bits(Ordering::Relaxed)), 0.5);
}
