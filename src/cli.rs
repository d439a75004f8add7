use vstd::prelude::*;
use crate::text::{
    contains_spec, eq_ignore_ascii_case, eq_ignore_ascii_case_spec, parse_usize, parse_usize_spec,
    str_contains,
};

verus! {

/// The lower-case form of a text, as `str::to_lowercase` gives it.
pub uninterp spec fn lower_of(s: Seq<char>) -> Seq<char>;

/// A text without leading and trailing white space, as `str::trim` gives it.
pub uninterp spec fn trim_of(s: Seq<char>) -> Seq<char>;

/// Relies on `str::to_lowercase`: the Unicode lower-case mapping of the
/// text, which depends on the text alone.
#[verifier::external_body]
fn lowercase(s: &str) -> (r: String)
    ensures
        r@ == lower_of(s@),
{
    s.to_lowercase()
}

/// Relies on `str::trim`: the text without leading and trailing Unicode
/// white space, which depends on the text alone.
#[verifier::external_body]
fn trim(s: &str) -> (r: &str)
    ensures
        r@ == trim_of(s@),
{
    s.trim()
}

/// Why a device selection fails.
#[derive(Debug, Clone, Copy, PartialEq, Eq, Structural)]
pub enum DeviceError {
    /// A device index at or past the number of devices.
    IndexOutOfRange { index: usize, count: usize },
    /// No device name contains the searched text.
    NotFound,
}

/// Whether entry `i` is the first of `names` that contains `needle`.
pub open spec fn first_containing(names: Seq<Seq<char>>, needle: Seq<char>, i: int) -> bool {
    &&& 0 <= i < names.len()
    &&& contains_spec(names[i], needle)
    &&& forall|j: int| 0 <= j < i ==> !contains_spec(#[trigger] names[j], needle)
}

pub open spec fn views(v: Seq<String>) -> Seq<Seq<char>> {
    v.map_values(|s: String| s@)
}

pub open spec fn lowered(v: Seq<String>) -> Seq<Seq<char>> {
    v.map_values(|s: String| lower_of(s@))
}

/// The index of the first name that contains `needle`, if any.
pub fn position_containing(names: &[String], needle: &str) -> (r: Option<usize>)
    ensures
        r matches Some(i) ==> first_containing(views(names@), needle@, i as int),
        r is None ==> forall|j: int| 0 <= j < names@.len() ==> !contains_spec(#[trigger] views(names@)[j], needle@),
{
    let mut i: usize = 0;
    while i < names.len()
        invariant
            0 <= i <= names@.len(),
            forall|j: int| 0 <= j < i ==> !contains_spec(#[trigger] views(names@)[j], needle@),
        decreases names@.len() - i,
    {
        if str_contains(names[i].as_str(), needle) {
            return Some(i);
        }
        i = i + 1;
    }
    None
}

/// Selects a device by index (text that reads as a number) or else by a
/// case-insensitive search for the text within the device names, the
/// first match winning.
pub fn find_device(devices: &[String], search: &str) -> (r: Result<usize, DeviceError>)
    ensures
        parse_usize_spec(search@) matches Some(n) ==> r == if n < devices@.len() {
            Ok::<usize, DeviceError>(n as usize)
        } else {
            Err(DeviceError::IndexOutOfRange { index: n as usize, count: devices@.len() as usize })
        },
        parse_usize_spec(search@) is None ==> (r matches Ok(i) ==> first_containing(
            lowered(devices@),
            lower_of(search@),
            i as int,
        )),
        parse_usize_spec(search@) is None ==> (r is Err <==> forall|j: int|
            0 <= j < devices@.len() ==> !contains_spec(#[trigger] lowered(devices@)[j], lower_of(search@))),
        parse_usize_spec(search@) is None ==> (r is Err ==> r == Err::<usize, DeviceError>(DeviceError::NotFound)),
{
    match parse_usize(search) {
        Some(index) => {
            if index < devices.len() {
                return Ok(index);
            } else {
                return Err(DeviceError::IndexOutOfRange { index, count: devices.len() });
            }
        },
        None => {},
    }
    let needle = lowercase(search);
    let mut names: Vec<String> = Vec::new();
    let mut i: usize = 0;
    while i < devices.len()
        invariant
            0 <= i <= devices@.len(),
            names@.len() == i,
            forall|j: int| 0 <= j < i ==> (#[trigger] names@[j])@ == lower_of(devices@[j]@),
        decreases devices@.len() - i,
    {
        names.push(lowercase(devices[i].as_str()));
        i = i + 1;
    }
    assert(views(names@) =~= lowered(devices@));
    match position_containing(names.as_slice(), needle.as_str()) {
        Some(k) => Ok(k),
        None => Err(DeviceError::NotFound),
    }
}

/// Selects the MIDI input among `devices` (see `find_device`).
pub fn find_midi_device(devices: &[String], search: &str) -> (r: Result<usize, DeviceError>)
    ensures
        parse_usize_spec(search@) matches Some(n) ==> r == if n < devices@.len() {
            Ok::<usize, DeviceError>(n as usize)
        } else {
            Err(DeviceError::IndexOutOfRange { index: n as usize, count: devices@.len() as usize })
        },
        parse_usize_spec(search@) is None ==> (r matches Ok(i) ==> first_containing(
            lowered(devices@),
            lower_of(search@),
            i as int,
        )),
        parse_usize_spec(search@) is None ==> (r is Err <==> forall|j: int|
            0 <= j < devices@.len() ==> !contains_spec(#[trigger] lowered(devices@)[j], lower_of(search@))),
        parse_usize_spec(search@) is None ==> (r is Err ==> r == Err::<usize, DeviceError>(DeviceError::NotFound)),
{
    find_device(devices, search)
}

/// Selects the audio output among `devices` (see `find_device`).
pub fn find_audio_device(devices: &[String], search: &str) -> (r: Result<usize, DeviceError>)
    ensures
        parse_usize_spec(search@) matches Some(n) ==> r == if n < devices@.len() {
            Ok::<usize, DeviceError>(n as usize)
        } else {
            Err(DeviceError::IndexOutOfRange { index: n as usize, count: devices@.len() as usize })
        },
        parse_usize_spec(search@) is None ==> (r matches Ok(i) ==> first_containing(
            lowered(devices@),
            lower_of(search@),
            i as int,
        )),
        parse_usize_spec(search@) is None ==> (r is Err <==> forall|j: int|
            0 <= j < devices@.len() ==> !contains_spec(#[trigger] lowered(devices@)[j], lower_of(search@))),
        parse_usize_spec(search@) is None ==> (r is Err ==> r == Err::<usize, DeviceError>(DeviceError::NotFound)),
{
    find_device(devices, search)
}

/// Why a channel setting on the command line is rejected.
#[derive(Debug, Clone, Copy, PartialEq, Eq, Structural)]
pub enum ChannelError {
    /// Text that is neither a number nor a recognised word.
    Invalid,
    /// A MIDI channel outside 1..=16.
    MidiChannelOutOfRange { channel: u8 },
    /// An output channel at or past the device's channel count.
    OutputChannelOutOfRange { channel: usize, count: usize },
}

/// A MIDI channel setting: "omni" or "all" (any case) for every channel,
/// else a channel 1..=16, returned 0-based.
pub open spec fn parse_midi_channel_spec(s: Seq<char>) -> Result<Option<u8>, ChannelError> {
    if eq_ignore_ascii_case_spec(s, "omni"@) || eq_ignore_ascii_case_spec(s, "all"@) {
        Ok(None)
    } else {
        match parse_usize_spec(s) {
            Some(v) => if v > 255 {
                Err(ChannelError::Invalid)
            } else if v < 1 || v > 16 {
                Err(ChannelError::MidiChannelOutOfRange { channel: v as u8 })
            } else {
                Ok(Some((v - 1) as u8))
            },
            None => Err(ChannelError::Invalid),
        }
    }
}

/// Reads a MIDI channel setting ("omni", "all", or 1..=16).
pub fn parse_midi_channel(channel: &str) -> (r: Result<Option<u8>, ChannelError>)
    ensures
        r == parse_midi_channel_spec(channel@),
{
    if eq_ignore_ascii_case(channel, "omni") || eq_ignore_ascii_case(channel, "all") {
        return Ok(None);
    }
    match parse_usize(channel) {
        Some(v) => {
            if v > 255 {
                Err(ChannelError::Invalid)
            } else if v < 1 || v > 16 {
                Err(ChannelError::MidiChannelOutOfRange { channel: v as u8 })
            } else {
                Ok(Some((v - 1) as u8))
            }
        },
        None => Err(ChannelError::Invalid),
    }
}

/// One trimmed entry of an output channel list: a channel index below
/// `device_channels`.
pub open spec fn channel_index_spec(t: Seq<char>, device_channels: usize) -> Result<usize, ChannelError> {
    match parse_usize_spec(t) {
        Some(ch) => if ch >= device_channels {
            Err(ChannelError::OutputChannelOutOfRange { channel: ch as usize, count: device_channels })
        } else {
            Ok(ch as usize)
        },
        None => Err(ChannelError::Invalid),
    }
}

/// Reads one already-trimmed entry of an output channel list.
pub fn parse_channel_index(t: &str, device_channels: usize) -> (r: Result<usize, ChannelError>)
    ensures
        r == channel_index_spec(t@, device_channels),
{
    match parse_usize(t) {
        Some(ch) => {
            if ch >= device_channels {
                Err(ChannelError::OutputChannelOutOfRange { channel: ch, count: device_channels })
            } else {
                Ok(ch)
            }
        },
        None => Err(ChannelError::Invalid),
    }
}

/// Position of the first comma in `s`, or its length.
pub open spec fn first_comma(s: Seq<char>) -> int
    decreases s.len(),
{
    if s.len() == 0 {
        0
    } else if s[0] == ',' {
        0
    } else {
        1 + first_comma(s.skip(1))
    }
}

proof fn lemma_first_comma(s: Seq<char>, m: int)
    requires
        0 <= m <= s.len(),
        forall|j: int| 0 <= j < m ==> s[j] != ',',
        m == s.len() || s[m] == ',',
    ensures
        first_comma(s) == m,
    decreases s.len(),
{
    if s.len() > 0 && m > 0 {
        assert forall|j: int| 0 <= j < m - 1 implies s.skip(1)[j] != ',' by {
            assert(s.skip(1)[j] == s[j + 1]);
        }
        if m < s.len() {
            assert(s.skip(1)[m - 1] == s[m]);
        }
        lemma_first_comma(s.skip(1), m - 1);
    }
}

/// The channels of a comma-separated list, each entry trimmed, the first
/// bad entry deciding the error.
pub open spec fn channel_list_spec(s: Seq<char>, device_channels: usize) -> Result<Seq<usize>, ChannelError>
    decreases s.len(),
{
    let k = first_comma(s);
    if k < 0 || k > s.len() {
        Err(ChannelError::Invalid)
    } else {
        match channel_index_spec(trim_of(s.subrange(0, k)), device_channels) {
            Err(e) => Err(e),
            Ok(c) => if k >= s.len() {
                Ok(seq![c])
            } else {
                match channel_list_spec(s.skip(k + 1), device_channels) {
                    Ok(rest) => Ok(seq![c] + rest),
                    Err(e) => Err(e),
                }
            },
        }
    }
}

/// The channels of an output channel setting: "all" (any case) for every
/// channel of the device, else a comma-separated list.
pub open spec fn output_channels_spec(s: Seq<char>, device_channels: usize) -> Result<Seq<usize>, ChannelError> {
    if eq_ignore_ascii_case_spec(s, "all"@) {
        Ok(Seq::new(device_channels as nat, |i: int| i as usize))
    } else {
        channel_list_spec(s, device_channels)
    }
}

pub open spec fn prepend(acc: Seq<usize>, r: Result<Seq<usize>, ChannelError>) -> Result<Seq<usize>, ChannelError> {
    match r {
        Ok(rest) => Ok(acc + rest),
        Err(e) => Err(e),
    }
}

pub open spec fn result_view(r: Result<Vec<usize>, ChannelError>) -> Result<Seq<usize>, ChannelError> {
    match r {
        Ok(v) => Ok(v@),
        Err(e) => Err(e),
    }
}

/// Reads an output channel setting such as "0", "0, 1" or "all".
pub fn parse_output_channels(channels_str: &str, device_channels: usize) -> (r: Result<Vec<usize>, ChannelError>)
    ensures
        result_view(r) == output_channels_spec(channels_str@, device_channels),
{
    let ghost s = channels_str@;
    if eq_ignore_ascii_case(channels_str, "all") {
        let mut all: Vec<usize> = Vec::new();
        let mut c: usize = 0;
        while c < device_channels
            invariant
                0 <= c <= device_channels,
                all@ == Seq::new(c as nat, |i: int| i as usize),
            decreases device_channels - c,
        {
            all.push(c);
            c = c + 1;
            assert(all@ =~= Seq::new(c as nat, |i: int| i as usize));
        }
        return Ok(all);
    }
    let n = channels_str.unicode_len();
    let mut channels: Vec<usize> = Vec::new();
    let mut start: usize = 0;
    proof {
        assert(s.skip(0) =~= s);
        match channel_list_spec(s, device_channels) {
            Ok(all) => {
                assert(channels@ + all =~= all);
            },
            Err(e) => {},
        }
    }
    loop
        invariant
            n == s.len(),
            s == channels_str@,
            !eq_ignore_ascii_case_spec(s, "all"@),
            0 <= start <= n,
            channel_list_spec(s, device_channels) == prepend(
                channels@,
                channel_list_spec(s.skip(start as int), device_channels),
            ),
        decreases n - start,
    {
        let mut i: usize = start;
        while i < n && channels_str.get_char(i) != ','
            invariant
                n == s.len(),
                s == channels_str@,
                start <= i <= n,
                forall|j: int| start <= j < i ==> s[j] != ',',
            decreases n - i,
        {
            i = i + 1;
        }
        let ghost rest = s.skip(start as int);
        proof {
            assert forall|j: int| 0 <= j < i - start implies rest[j] != ',' by {
                assert(rest[j] == s[start + j]);
            }
            if i < n {
                assert(rest[i - start] == s[i as int]);
            }
            lemma_first_comma(rest, i - start);
            assert(rest.subrange(0, i - start) == s.subrange(start as int, i as int));
        }
        let piece = channels_str.substring_char(start, i);
        let t = trim(piece);
        match parse_channel_index(t, device_channels) {
            Err(e) => {
                return Err(e);
            },
            Ok(c) => {
                let ghost before = channels@;
                channels.push(c);
                if i >= n {
                    assert(channels@ =~= before + seq![c] + Seq::<usize>::empty());
                    assert(channel_list_spec(rest, device_channels) == Ok::<Seq<usize>, ChannelError>(seq![c]));
                    assert(channels@ =~= before + seq![c]);
                    return Ok(channels);
                }
                proof {
                    assert(rest.skip(i - start + 1) == s.skip(i + 1));
                    match channel_list_spec(s.skip(i + 1), device_channels) {
                        Ok(tail) => {
                            assert(before + (seq![c] + tail) =~= channels@ + tail);
                        },
                        Err(e) => {},
                    }
                }
                start = i + 1;
            },
        }
    }
}

} // verus!
