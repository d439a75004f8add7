use polysynth::config::{
    audio_channel_index, default_name, parse_note, validate_audio_channel, ConfigError,
    MidiChannelSpec, NoteError, WaveformSpec,
};
use polysynth::waveform::Waveform;

#[test]
fn parse_note_names() {
    assert_eq!(parse_note("c1"), Ok(24));
    assert_eq!(parse_note("d1"), Ok(26));
    assert_eq!(parse_note("gb1"), Ok(30));
    assert_eq!(parse_note("C4"), Ok(60));
    assert_eq!(parse_note("c2"), Ok(36));
    assert_eq!(parse_note("a4"), Ok(69));
    assert_eq!(parse_note("F#3"), Ok(54));
    assert_eq!(parse_note("fs3"), Ok(54));
    assert_eq!(parse_note("ef3"), Ok(51));
    assert_eq!(parse_note("bb1"), Ok(34));
    assert_eq!(parse_note("b1"), Ok(35));
}

#[test]
fn parse_note_range_edges() {
    assert_eq!(parse_note("c-1"), Ok(0));
    assert_eq!(parse_note("g9"), Ok(127));
    assert_eq!(parse_note("g#9"), Err(NoteError::OutOfRange));
    assert_eq!(parse_note("cb-1"), Err(NoteError::OutOfRange));
    assert_eq!(parse_note("b#-2"), Ok(0));
    assert_eq!(parse_note("c99999999999999999999"), Err(NoteError::OutOfRange));
    assert_eq!(parse_note("c-99999999999999999999"), Err(NoteError::OutOfRange));
    assert_eq!(parse_note("c004"), Ok(60));
}

#[test]
fn parse_note_errors() {
    assert_eq!(parse_note(""), Err(NoteError::Empty));
    assert_eq!(parse_note("h1"), Err(NoteError::InvalidName));
    assert_eq!(parse_note("1"), Err(NoteError::InvalidName));
    assert_eq!(parse_note("c"), Err(NoteError::InvalidOctave));
    assert_eq!(parse_note("c#"), Err(NoteError::InvalidOctave));
    assert_eq!(parse_note("c-"), Err(NoteError::InvalidOctave));
    assert_eq!(parse_note("cx1"), Err(NoteError::InvalidOctave));
    assert_eq!(parse_note("c1x"), Err(NoteError::InvalidOctave));
    assert_eq!(parse_note("c#b1"), Err(NoteError::InvalidOctave));
}

#[test]
fn test_parse_omni_channel() {
    let spec = MidiChannelSpec::Omni("omni".to_string());
    assert!(spec.validate().is_ok());
    assert_eq!(spec.midi_channel_filter(), 255);
}

#[test]
fn test_validate_midi_channel_range() {
    assert_eq!(
        MidiChannelSpec::Channel(17).validate(),
        Err(ConfigError::MidiChannelOutOfRange)
    );
    assert_eq!(
        MidiChannelSpec::Channel(0).validate(),
        Err(ConfigError::MidiChannelOutOfRange)
    );
    assert_eq!(validate_audio_channel(0), Err(ConfigError::AudioChannelOutOfRange));
}

#[test]
fn channel_numbers_become_zero_based() {
    let one = MidiChannelSpec::Channel(1);
    assert!(one.validate().is_ok());
    assert_eq!(one.midi_channel_filter(), 0);
    assert_eq!(MidiChannelSpec::Channel(16).midi_channel_filter(), 15);
    assert_eq!(MidiChannelSpec::Channel(10).midi_channel_filter(), 9);
    assert_eq!(audio_channel_index(1), 0);
    assert_eq!(audio_channel_index(4), 3);
    assert_eq!(audio_channel_index(0), 0);
    assert!(validate_audio_channel(1).is_ok());
}

#[test]
fn default_instance_settings() {
    assert_eq!(default_name(), "Untitled");
    assert_eq!(WaveformSpec::default(), WaveformSpec::Sine);
    assert_eq!(WaveformSpec::Sawtooth.waveform(), Waveform::Sawtooth);
    assert_eq!(WaveformSpec::Square.waveform(), Waveform::Square);
}
