use vstd::prelude::*;

verus! {

/// Oscillator waveform shapes.
#[derive(Debug, Clone, Copy, PartialEq, Eq, Structural)]
pub enum Waveform {
    Sine,
    Triangle,
    Sawtooth,
    Square,
}

/// The code under which a waveform is kept in a shared atomic byte.
pub open spec fn waveform_code(w: Waveform) -> u8 {
    match w {
        Waveform::Sine => 0,
        Waveform::Triangle => 1,
        Waveform::Sawtooth => 2,
        Waveform::Square => 3,
    }
}

/// The waveform that a stored byte stands for; unknown codes read as a sine.
pub open spec fn waveform_of_code(v: u8) -> Waveform {
    if v == 1 {
        Waveform::Triangle
    } else if v == 2 {
        Waveform::Sawtooth
    } else if v == 3 {
        Waveform::Square
    } else {
        Waveform::Sine
    }
}

impl Default for Waveform {
    fn default() -> (r: Self)
        ensures
            r == Waveform::Sine,
    {
        Waveform::Sine
    }
}

impl Waveform {
    /// Encodes the waveform for atomic storage.
    pub fn to_u8(self) -> (r: u8)
        ensures
            r == waveform_code(self),
            r < 4,
    {
        match self {
            Waveform::Sine => 0,
            Waveform::Triangle => 1,
            Waveform::Sawtooth => 2,
            Waveform::Square => 3,
        }
    }

    /// Decodes a stored byte; any value outside 0..=3 gives `Sine`.
    pub fn from_u8(value: u8) -> (r: Self)
        ensures
            r == waveform_of_code(value),
    {
        match value {
            1 => Waveform::Triangle,
            2 => Waveform::Sawtooth,
            3 => Waveform::Square,
            _ => Waveform::Sine,
        }
    }
}

/// Decoding an encoded waveform gives the waveform back.
pub proof fn lemma_waveform_code_round_trip(w: Waveform)
    ensures
        waveform_of_code(waveform_code(w)) == w,
{
}

} // verus!
