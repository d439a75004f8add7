use polysynth::cli::{
    find_audio_device, find_midi_device, parse_channel_index, parse_midi_channel,
    parse_output_channels, position_containing, ChannelError, DeviceError,
};

fn names(v: &[&str]) -> Vec<String> {
    v.iter().map(|s| s.to_string()).collect()
}

#[test]
fn device_by_index() {
    let devs = names(&["Midi Through", "USB Keys"]);
    assert_eq!(find_midi_device(&devs, "1"), Ok(1));
    assert_eq!(find_midi_device(&devs, "+0"), Ok(0));
    assert_eq!(
        find_midi_device(&devs, "2"),
        Err(DeviceError::IndexOutOfRange { index: 2, count: 2 })
    );
}

#[test]
fn device_by_name_ignores_case() {
    let devs = names(&["Midi Through", "USB Keys", "Other keys"]);
    assert_eq!(find_midi_device(&devs, "keys"), Ok(1));
    assert_eq!(find_audio_device(&devs, "THROUGH"), Ok(0));
    assert_eq!(find_audio_device(&devs, "piano"), Err(DeviceError::NotFound));
    assert_eq!(find_audio_device(&[], "x"), Err(DeviceError::NotFound));
}

#[test]
fn position_containing_is_exact() {
    let devs = names(&["abc", "ABC", "xbc"]);
    assert_eq!(position_containing(&devs, "AB"), Some(1));
    assert_eq!(position_containing(&devs, "bc"), Some(0));
    assert_eq!(position_containing(&devs, "z"), None);
}

#[test]
fn midi_channel_settings() {
    assert_eq!(parse_midi_channel("omni"), Ok(None));
    assert_eq!(parse_midi_channel("OMNI"), Ok(None));
    assert_eq!(parse_midi_channel("All"), Ok(None));
    assert_eq!(parse_midi_channel("1"), Ok(Some(0)));
    assert_eq!(parse_midi_channel("16"), Ok(Some(15)));
    assert_eq!(
        parse_midi_channel("17"),
        Err(ChannelError::MidiChannelOutOfRange { channel: 17 })
    );
    assert_eq!(
        parse_midi_channel("0"),
        Err(ChannelError::MidiChannelOutOfRange { channel: 0 })
    );
    assert_eq!(parse_midi_channel("256"), Err(ChannelError::Invalid));
    assert_eq!(parse_midi_channel("x"), Err(ChannelError::Invalid));
    assert_eq!(parse_midi_channel(""), Err(ChannelError::Invalid));
}

#[test]
fn output_channel_lists() {
    assert_eq!(parse_output_channels("0", 2), Ok(vec![0]));
    assert_eq!(parse_output_channels("0,1", 2), Ok(vec![0, 1]));
    assert_eq!(parse_output_channels(" 1 , 0 ", 2), Ok(vec![1, 0]));
    assert_eq!(parse_output_channels("all", 3), Ok(vec![0, 1, 2]));
    assert_eq!(parse_output_channels("ALL", 0), Ok(vec![]));
    assert_eq!(
        parse_output_channels("0,2", 2),
        Err(ChannelError::OutputChannelOutOfRange { channel: 2, count: 2 })
    );
    assert_eq!(parse_output_channels("0,", 2), Err(ChannelError::Invalid));
    assert_eq!(parse_output_channels("a", 2), Err(ChannelError::Invalid));
    assert_eq!(parse_output_channels("", 2), Err(ChannelError::Invalid));
}

#[test]
fn single_channel_entry() {
    assert_eq!(parse_channel_index("3", 4), Ok(3));
    assert_eq!(
        parse_channel_index("4", 4),
        Err(ChannelError::OutputChannelOutOfRange { channel: 4, count: 4 })
    );
    assert_eq!(parse_channel_index(" 3", 4), Err(ChannelError::Invalid));
}
