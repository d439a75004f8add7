use vstd::prelude::*;
use crate::waveform::Waveform;

verus! {

/// Screen the terminal interface shows.
#[derive(Debug, Clone, Copy, PartialEq, Eq, Structural)]
pub enum AppMode {
    DeviceSelection,
    Synthesizer,
}

/// Parameter selected for editing, in the order the editor cycles through.
#[derive(Debug, Clone, Copy, PartialEq, Eq, Structural)]
pub enum Parameter {
    Attack,
    Decay,
    Sustain,
    Release,
    Waveform,
    Channel,
    ReverbMix,
    ReverbRoomSize,
    ReverbDamping,
}

/// Position of a parameter in the editing cycle.
pub open spec fn parameter_rank(p: Parameter) -> int {
    match p {
        Parameter::Attack => 0,
        Parameter::Decay => 1,
        Parameter::Sustain => 2,
        Parameter::Release => 3,
        Parameter::ReverbMix => 4,
        Parameter::ReverbRoomSize => 5,
        Parameter::ReverbDamping => 6,
        Parameter::Waveform => 7,
        Parameter::Channel => 8,
    }
}

impl Parameter {
    /// The parameter after this one, wrapping from the last to the first.
    pub fn next(self) -> (r: Parameter)
        ensures
            parameter_rank(r) == (parameter_rank(self) + 1) % 9,
    {
        match self {
            Parameter::Attack => Parameter::Decay,
            Parameter::Decay => Parameter::Sustain,
            Parameter::Sustain => Parameter::Release,
            Parameter::Release => Parameter::ReverbMix,
            Parameter::ReverbMix => Parameter::ReverbRoomSize,
            Parameter::ReverbRoomSize => Parameter::ReverbDamping,
            Parameter::ReverbDamping => Parameter::Waveform,
            Parameter::Waveform => Parameter::Channel,
            Parameter::Channel => Parameter::Attack,
        }
    }

    /// The parameter before this one, wrapping from the first to the last.
    pub fn prev(self) -> (r: Parameter)
        ensures
            parameter_rank(r) == (parameter_rank(self) + 8) % 9,
    {
        match self {
            Parameter::Attack => Parameter::Channel,
            Parameter::Decay => Parameter::Attack,
            Parameter::Sustain => Parameter::Decay,
            Parameter::Release => Parameter::Sustain,
            Parameter::ReverbMix => Parameter::Release,
            Parameter::ReverbRoomSize => Parameter::ReverbMix,
            Parameter::ReverbDamping => Parameter::ReverbRoomSize,
            Parameter::Waveform => Parameter::ReverbDamping,
            Parameter::Channel => Parameter::Waveform,
        }
    }
}

/// Position of a waveform in the editing cycle.
pub open spec fn waveform_rank(w: Waveform) -> int {
    match w {
        Waveform::Sine => 0,
        Waveform::Triangle => 1,
        Waveform::Sawtooth => 2,
        Waveform::Square => 3,
    }
}

/// The waveform after `w`: sine, triangle, sawtooth, square, sine, ...
pub fn next_waveform(w: Waveform) -> (r: Waveform)
    ensures
        waveform_rank(r) == (waveform_rank(w) + 1) % 4,
{
    match w {
        Waveform::Sine => Waveform::Triangle,
        Waveform::Triangle => Waveform::Sawtooth,
        Waveform::Sawtooth => Waveform::Square,
        Waveform::Square => Waveform::Sine,
    }
}

/// The waveform before `w` in the same cycle.
pub fn prev_waveform(w: Waveform) -> (r: Waveform)
    ensures
        waveform_rank(r) == (waveform_rank(w) + 3) % 4,
{
    match w {
        Waveform::Sine => Waveform::Square,
        Waveform::Triangle => Waveform::Sine,
        Waveform::Sawtooth => Waveform::Triangle,
        Waveform::Square => Waveform::Sawtooth,
    }
}

/// Position of a MIDI channel setting in the cycle omni, 0, 1, ..., 15.
pub open spec fn channel_rank(c: Option<u8>) -> int {
    match c {
        None => 0,
        Some(ch) => ch + 1,
    }
}

/// The channel setting after `c`: omni, channel 0, ..., channel 15, omni.
pub fn next_midi_channel(c: Option<u8>) -> (r: Option<u8>)
    requires
        c matches Some(ch) ==> ch <= 15,
    ensures
        r matches Some(ch) ==> ch <= 15,
        channel_rank(r) == (channel_rank(c) + 1) % 17,
{
    match c {
        None => Some(0),
        Some(15) => None,
        Some(ch) => Some(ch + 1),
    }
}

/// The channel setting before `c` in the same cycle.
pub fn prev_midi_channel(c: Option<u8>) -> (r: Option<u8>)
    requires
        c matches Some(ch) ==> ch <= 15,
    ensures
        r matches Some(ch) ==> ch <= 15,
        channel_rank(r) == (channel_rank(c) + 16) % 17,
{
    match c {
        None => Some(15),
        Some(0) => None,
        Some(ch) => Some(ch - 1),
    }
}

/// The list position after `i` in a list of `len` entries, wrapping; an
/// empty list keeps `i`.
pub fn next_index(i: usize, len: usize) -> (r: usize)
    requires
        len == 0 || i < len,
    ensures
        len == 0 ==> r == i,
        len > 0 ==> r == (i + 1) % (len as int),
{
    if len == 0 {
        i
    } else if i + 1 == len {
        proof {
            vstd::arithmetic::div_mod::lemma_mod_self_0(len as int);
        }
        0
    } else {
        proof {
            vstd::arithmetic::div_mod::lemma_small_mod((i + 1) as nat, len as nat);
        }
        i + 1
    }
}

/// The list position before `i` in a list of `len` entries, wrapping; an
/// empty list keeps `i`.
pub fn prev_index(i: usize, len: usize) -> (r: usize)
    requires
        len == 0 || i < len,
    ensures
        len == 0 ==> r == i,
        len > 0 ==> r == (i + len - 1) % (len as int),
{
    if len == 0 {
        i
    } else if i == 0 {
        proof {
            vstd::arithmetic::div_mod::lemma_small_mod((len - 1) as nat, len as nat);
        }
        len - 1
    } else {
        proof {
            vstd::arithmetic::div_mod::lemma_mod_add_multiples_vanish(i - 1, len as int);
            vstd::arithmetic::div_mod::lemma_small_mod((i - 1) as nat, len as nat);
        }
        i - 1
    }
}

} // verus!
