use vstd::prelude::*;
use crate::waveform::Waveform;
use crate::text::{all_digits, digits_value, is_digit, lemma_digits_value_nonneg};

verus! {

/// Device names selected by a configuration.
pub struct DeviceConfig {
    pub midiin: String,
    pub audioout: String,
}

/// MIDI channel of an instance: a channel 1..=16, or omni (any text, such
/// as "omni" or "all").
pub enum MidiChannelSpec {
    Channel(u8),
    Omni(String),
}

/// Waveform named in a configuration.
#[derive(Debug, Clone, Copy, PartialEq, Eq, Structural)]
pub enum WaveformSpec {
    Sine,
    Triangle,
    Sawtooth,
    Square,
}

impl Default for WaveformSpec {
    fn default() -> (r: Self)
        ensures
            r == WaveformSpec::Sine,
    {
        WaveformSpec::Sine
    }
}

impl WaveformSpec {
    /// The oscillator waveform of the same name.
    pub fn waveform(&self) -> (r: Waveform)
        ensures
            r == match *self {
                WaveformSpec::Sine => Waveform::Sine,
                WaveformSpec::Triangle => Waveform::Triangle,
                WaveformSpec::Sawtooth => Waveform::Sawtooth,
                WaveformSpec::Square => Waveform::Square,
            },
    {
        match self {
            WaveformSpec::Sine => Waveform::Sine,
            WaveformSpec::Triangle => Waveform::Triangle,
            WaveformSpec::Sawtooth => Waveform::Sawtooth,
            WaveformSpec::Square => Waveform::Square,
        }
    }
}

/// Why an instance's channel settings are rejected.
#[derive(Debug, Clone, Copy, PartialEq, Eq, Structural)]
pub enum ConfigError {
    /// A MIDI channel outside 1..=16.
    MidiChannelOutOfRange,
    /// An audio channel of 0 (channels count from 1).
    AudioChannelOutOfRange,
}

/// Whether a MIDI channel setting is acceptable.
pub open spec fn midi_channel_valid(spec: MidiChannelSpec) -> bool {
    match spec {
        MidiChannelSpec::Channel(ch) => 1 <= ch <= 16,
        MidiChannelSpec::Omni(_) => true,
    }
}

/// The channel filter a valid setting stands for: 0..=15, or 255 for omni.
pub open spec fn channel_filter_spec(spec: MidiChannelSpec) -> u8 {
    match spec {
        MidiChannelSpec::Channel(ch) => (ch - 1) as u8,
        MidiChannelSpec::Omni(_) => 255,
    }
}

impl MidiChannelSpec {
    /// Rejects a channel outside 1..=16; omni is always accepted.
    pub fn validate(&self) -> (r: Result<(), ConfigError>)
        ensures
            r is Ok <==> midi_channel_valid(*self),
            r is Err ==> r == Err::<(), ConfigError>(ConfigError::MidiChannelOutOfRange),
    {
        match self {
            MidiChannelSpec::Channel(ch) => {
                if *ch < 1 || *ch > 16 {
                    return Err(ConfigError::MidiChannelOutOfRange);
                }
                Ok(())
            },
            MidiChannelSpec::Omni(_) => Ok(()),
        }
    }

    /// The channel filter: channel `n` of 1..=16 becomes `n - 1`, omni 255.
    pub fn midi_channel_filter(&self) -> (r: u8)
        requires
            midi_channel_valid(*self),
        ensures
            r == channel_filter_spec(*self),
    {
        match self {
            MidiChannelSpec::Channel(ch) => *ch - 1,
            MidiChannelSpec::Omni(_) => 255,
        }
    }
}

/// Rejects an audio channel of 0: configured channels count from 1.
pub fn validate_audio_channel(audioch: usize) -> (r: Result<(), ConfigError>)
    ensures
        r is Ok <==> audioch >= 1,
        r is Err ==> r == Err::<(), ConfigError>(ConfigError::AudioChannelOutOfRange),
{
    if audioch < 1 {
        Err(ConfigError::AudioChannelOutOfRange)
    } else {
        Ok(())
    }
}

/// The 0-based output channel of a 1-based configured channel (0 stays 0).
pub fn audio_channel_index(audioch: usize) -> (r: usize)
    ensures
        r == if audioch >= 1 {
            audioch - 1
        } else {
            0
        },
{
    audioch.saturating_sub(1)
}

/// Name given to an instance whose configuration names none.
pub fn default_name() -> (r: String)
    ensures
        r@ == "Untitled"@,
{
    String::from_str("Untitled")
}

/// Why a note name is rejected.
#[derive(Debug, Clone, Copy, PartialEq, Eq, Structural)]
pub enum NoteError {
    /// The text is empty.
    Empty,
    /// The first character is not a note letter a..g.
    InvalidName,
    /// What follows the letter and accidental is not an optional minus
    /// sign and one or more decimal digits.
    InvalidOctave,
    /// The note lies outside 0..=127.
    OutOfRange,
}

/// Semitone of a note letter within its octave, either case.
pub open spec fn letter_semitone(c: char) -> Option<int> {
    if c == 'c' || c == 'C' {
        Some(0)
    } else if c == 'd' || c == 'D' {
        Some(2)
    } else if c == 'e' || c == 'E' {
        Some(4)
    } else if c == 'f' || c == 'F' {
        Some(5)
    } else if c == 'g' || c == 'G' {
        Some(7)
    } else if c == 'a' || c == 'A' {
        Some(9)
    } else if c == 'b' || c == 'B' {
        Some(11)
    } else {
        None
    }
}

/// Shift of an accidental: `#` or `s` sharp, `b` or `f` flat, either case.
pub open spec fn accidental_shift(c: char) -> Option<int> {
    if c == '#' || c == 's' || c == 'S' {
        Some(1)
    } else if c == 'b' || c == 'B' || c == 'f' || c == 'F' {
        Some(-1)
    } else {
        None
    }
}

/// The MIDI note that a name `[a-g](#|s|b|f)?-?[0-9]+` stands for, with
/// C-1 = 0, C0 = 12 and C4 = 60.
pub open spec fn parse_note_spec(s: Seq<char>) -> Result<u8, NoteError> {
    if s.len() == 0 {
        Err(NoteError::Empty)
    } else if letter_semitone(s[0]) is None {
        Err(NoteError::InvalidName)
    } else {
        let base = letter_semitone(s[0])->Some_0;
        let has_acc = s.len() > 1 && accidental_shift(s[1]) is Some;
        let shift = if has_acc {
            accidental_shift(s[1])->Some_0
        } else {
            0
        };
        let after = if has_acc {
            s.skip(2)
        } else {
            s.skip(1)
        };
        let negative = after.len() > 0 && after[0] == '-';
        let digits = if negative {
            after.skip(1)
        } else {
            after
        };
        note_from_parts(base, shift, negative, digits)
    }
}

/// The note of a letter's semitone `base`, an accidental `shift` and a
/// signed octave written as `digits`.
pub open spec fn note_from_parts(base: int, shift: int, negative: bool, digits: Seq<char>) -> Result<u8, NoteError> {
    if digits.len() == 0 || !all_digits(digits) {
        Err(NoteError::InvalidOctave)
    } else {
        let octave = if negative {
            -digits_value(digits)
        } else {
            digits_value(digits)
        };
        let note = (octave + 1) * 12 + base + shift;
        if 0 <= note <= 127 {
            Ok(note as u8)
        } else {
            Err(NoteError::OutOfRange)
        }
    }
}

fn letter_semitone_of(c: char) -> (r: Option<i32>)
    ensures
        r matches Some(v) ==> letter_semitone(c) == Some(v as int),
        r is None ==> letter_semitone(c) is None,
{
    if c == 'c' || c == 'C' {
        Some(0)
    } else if c == 'd' || c == 'D' {
        Some(2)
    } else if c == 'e' || c == 'E' {
        Some(4)
    } else if c == 'f' || c == 'F' {
        Some(5)
    } else if c == 'g' || c == 'G' {
        Some(7)
    } else if c == 'a' || c == 'A' {
        Some(9)
    } else if c == 'b' || c == 'B' {
        Some(11)
    } else {
        None
    }
}

fn accidental_shift_of(c: char) -> (r: Option<i32>)
    ensures
        r matches Some(v) ==> accidental_shift(c) == Some(v as int),
        r is None ==> accidental_shift(c) is None,
{
    if c == '#' || c == 's' || c == 'S' {
        Some(1)
    } else if c == 'b' || c == 'B' || c == 'f' || c == 'F' {
        Some(-1)
    } else {
        None
    }
}

/// Largest octave magnitude tracked exactly; anything beyond is out of range.
const OCTAVE_CAP: u32 = 1000;

/// Parses a note name such as `c1` (24), `F#3` (54) or `gb1` (30).
pub fn parse_note(note: &str) -> (r: Result<u8, NoteError>)
    ensures
        r == parse_note_spec(note@),
{
    let ghost s = note@;
    let n = note.unicode_len();
    if n == 0 {
        return Err(NoteError::Empty);
    }
    let base = match letter_semitone_of(note.get_char(0)) {
        Some(b) => b,
        None => return Err(NoteError::InvalidName),
    };
    let mut i: usize = 1;
    let mut shift: i32 = 0;
    if n > 1 {
        match accidental_shift_of(note.get_char(1)) {
            Some(a) => {
                shift = a;
                i = 2;
            },
            None => {},
        }
    }
    let ghost after = s.skip(i as int);
    assert(after == if s.len() > 1 && accidental_shift(s[1]) is Some {
        s.skip(2)
    } else {
        s.skip(1)
    });
    assert(shift as int == if s.len() > 1 && accidental_shift(s[1]) is Some {
        accidental_shift(s[1])->Some_0
    } else {
        0
    });
    let mut negative = false;
    if i < n && note.get_char(i) == '-' {
        negative = true;
        i = i + 1;
    }
    assert(negative == (after.len() > 0 && after[0] == '-'));
    let ghost start = i as int;
    let ghost digits = s.skip(start);
    assert(digits == if negative { after.skip(1) } else { after });
    assert(parse_note_spec(s) == note_from_parts(base as int, shift as int, negative, digits));
    if i == n {
        return Err(NoteError::InvalidOctave);
    }
    let mut value: u32 = 0;
    while i < n
        invariant
            n == s.len(),
            s == note@,
            1 <= start <= i <= n,
            digits == s.skip(start),
            parse_note_spec(s) == note_from_parts(base as int, shift as int, negative, digits),
            all_digits(s.subrange(start, i as int)),
            digits_value(s.subrange(start, i as int)) <= OCTAVE_CAP ==> value as int == digits_value(
                s.subrange(start, i as int),
            ),
            digits_value(s.subrange(start, i as int)) > OCTAVE_CAP ==> value > OCTAVE_CAP,
            value <= OCTAVE_CAP * 10 + 9,
        decreases n - i,
    {
        let c = note.get_char(i);
        if c < '0' || c > '9' {
            assert(s[i as int] == c);
            assert(digits[i - start] == c);
            assert(!is_digit(digits[i - start]));
            return Err(NoteError::InvalidOctave);
        }
        let ghost prev = s.subrange(start, i as int);
        let ghost next = s.subrange(start, i + 1);
        assert(next.drop_last() == prev);
        assert(next.last() == c);
        proof {
            lemma_digits_value_nonneg(prev);
        }
        if value <= OCTAVE_CAP {
            value = value * 10 + (c as u32 - '0' as u32);
        }
        i = i + 1;
    }
    assert(s.subrange(start, n as int) == digits);
    proof {
        lemma_digits_value_nonneg(digits);
    }
    if value > OCTAVE_CAP {
        return Err(NoteError::OutOfRange);
    }
    let octave: i32 = if negative {
        -(value as i32)
    } else {
        value as i32
    };
    let midi_note: i32 = (octave + 1) * 12 + base + shift;
    if midi_note < 0 || midi_note > 127 {
        return Err(NoteError::OutOfRange);
    }
    Ok(midi_note as u8)
}

} // verus!
