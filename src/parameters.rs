use vstd::prelude::*;
use std::sync::Arc;
use std::sync::atomic::{AtomicI8, AtomicU32, AtomicU8, Ordering};
use crate::drums::DrumType;
use crate::midi::OMNI;

verus! {

/// A 32-bit float shared between threads, kept as its IEEE-754 bit
/// pattern in an atomic word. Writers store already-clamped values.
pub struct AtomicF32 {
    storage: AtomicU32,
}

impl AtomicF32 {
    /// A cell holding the float whose bit pattern is `bits`.
    pub fn from_bits(bits: u32) -> Self {
        AtomicF32 { storage: AtomicU32::new(bits) }
    }

    /// The bit pattern currently stored. Another thread may store at any
    /// time, so nothing is known of the value read.
    pub fn load_bits(&self, ordering: Ordering) -> u32 {
        self.storage.load(ordering)
    }

    /// Stores a bit pattern.
    pub fn store_bits(&self, bits: u32, ordering: Ordering) {
        self.storage.store(bits, ordering)
    }
}

/// Bit patterns of the default parameter values.
pub const BITS_ZERO: u32 = 0x0000_0000;
pub const BITS_TEN_MS: u32 = 0x3c23_d70a;
pub const BITS_FIFTY_MS: u32 = 0x3d4c_cccd;
pub const BITS_TENTH: u32 = 0x3dcc_cccd;
pub const BITS_FIFTEEN_HUNDREDTHS: u32 = 0x3e19_999a;
pub const BITS_THREE_TENTHS: u32 = 0x3e99_999a;
pub const BITS_FOUR_TENTHS: u32 = 0x3ecc_cccd;
pub const BITS_HALF: u32 = 0x3f00_0000;
pub const BITS_SEVEN_TENTHS: u32 = 0x3f33_3333;
pub const BITS_40_HZ: u32 = 0x4220_0000;
pub const BITS_150_HZ: u32 = 0x4316_0000;
pub const BITS_200_HZ: u32 = 0x4348_0000;
pub const BITS_7000_HZ: u32 = 0x45da_c000;

/// Shared parameters of a polyphonic synth instance.
pub struct SynthParameters {
    /// Attack time in seconds.
    pub attack: AtomicF32,
    /// Decay time in seconds.
    pub decay: AtomicF32,
    /// Sustain level in [0, 1].
    pub sustain: AtomicF32,
    /// Release time in seconds.
    pub release: AtomicF32,
    /// Waveform code (see `Waveform::to_u8`).
    pub waveform: AtomicU8,
    /// MIDI channel filter: 0..=15, or 255 for omni.
    pub midi_channel: AtomicU8,
    /// Reverb wet share in [0, 1].
    pub reverb_mix: AtomicF32,
    /// Reverb room size in [0, 1].
    pub reverb_room_size: AtomicF32,
    /// Reverb damping in [0, 1].
    pub reverb_damping: AtomicF32,
}

impl SynthParameters {
    /// Attack 10 ms, decay 100 ms, sustain 70 %, release 300 ms, sine, omni;
    /// reverb dry, room size and damping one half.
    pub fn new() -> Self {
        SynthParameters {
            attack: AtomicF32::from_bits(BITS_TEN_MS),
            decay: AtomicF32::from_bits(BITS_TENTH),
            sustain: AtomicF32::from_bits(BITS_SEVEN_TENTHS),
            release: AtomicF32::from_bits(BITS_THREE_TENTHS),
            waveform: AtomicU8::new(0),
            midi_channel: AtomicU8::new(OMNI),
            reverb_mix: AtomicF32::from_bits(BITS_ZERO),
            reverb_room_size: AtomicF32::from_bits(BITS_HALF),
            reverb_damping: AtomicF32::from_bits(BITS_HALF),
        }
    }
}

/// Shared parameters of a control-voltage instance.
pub struct CVParameters {
    /// Transpose in semitones.
    pub transpose: AtomicI8,
    /// Glide time in seconds.
    pub glide: AtomicF32,
}

impl CVParameters {
    /// No transpose, no glide.
    pub fn new() -> Self {
        CVParameters { transpose: AtomicI8::new(0), glide: AtomicF32::from_bits(BITS_ZERO) }
    }

    /// The given transpose and glide time (as its bit pattern).
    pub fn new_with_config(transpose: i8, glide_bits: u32) -> Self {
        CVParameters { transpose: AtomicI8::new(transpose), glide: AtomicF32::from_bits(glide_bits) }
    }
}

/// Shared parameters of a kick drum.
pub struct KickParameters {
    pub pitch_start: AtomicF32,
    pub pitch_end: AtomicF32,
    pub pitch_decay: AtomicF32,
    pub decay: AtomicF32,
    pub click: AtomicF32,
}

impl KickParameters {
    /// Sweep 150 Hz to 40 Hz over 50 ms, decay 300 ms, click 0.3.
    pub fn new() -> Self {
        KickParameters {
            pitch_start: AtomicF32::from_bits(BITS_150_HZ),
            pitch_end: AtomicF32::from_bits(BITS_40_HZ),
            pitch_decay: AtomicF32::from_bits(BITS_FIFTY_MS),
            decay: AtomicF32::from_bits(BITS_THREE_TENTHS),
            click: AtomicF32::from_bits(BITS_THREE_TENTHS),
        }
    }
}

/// Shared parameters of a snare drum.
pub struct SnareParameters {
    pub tone_freq: AtomicF32,
    pub tone_mix: AtomicF32,
    pub decay: AtomicF32,
    pub snap: AtomicF32,
}

impl SnareParameters {
    /// Tone 200 Hz, tone mix 0.3, decay 150 ms, snap 0.5.
    pub fn new() -> Self {
        SnareParameters {
            tone_freq: AtomicF32::from_bits(BITS_200_HZ),
            tone_mix: AtomicF32::from_bits(BITS_THREE_TENTHS),
            decay: AtomicF32::from_bits(BITS_FIFTEEN_HUNDREDTHS),
            snap: AtomicF32::from_bits(BITS_HALF),
        }
    }
}

/// Shared parameters of a hi-hat.
pub struct HatParameters {
    pub brightness: AtomicF32,
    pub decay: AtomicF32,
    pub metallic: AtomicF32,
}

impl HatParameters {
    /// Brightness 7000 Hz, decay 50 ms, metallic 0.4.
    pub fn new() -> Self {
        HatParameters {
            brightness: AtomicF32::from_bits(BITS_7000_HZ),
            decay: AtomicF32::from_bits(BITS_FIFTY_MS),
            metallic: AtomicF32::from_bits(BITS_FOUR_TENTHS),
        }
    }
}

/// The parameter block of a drum, by kind.
#[derive(Clone)]
pub enum DrumParameters {
    Kick(Arc<KickParameters>),
    Snare(Arc<SnareParameters>),
    Hat(Arc<HatParameters>),
}

/// The drum kind that a parameter block belongs to.
pub open spec fn drum_parameters_kind(p: DrumParameters) -> DrumType {
    match p {
        DrumParameters::Kick(_) => DrumType::Kick,
        DrumParameters::Snare(_) => DrumType::Snare,
        DrumParameters::Hat(_) => DrumType::Hat,
    }
}

impl DrumParameters {
    /// A block of default parameters for a drum of kind `drum_type`.
    pub fn new(drum_type: DrumType) -> (r: Self)
        ensures
            drum_parameters_kind(r) == drum_type,
    {
        match drum_type {
            DrumType::Kick => DrumParameters::Kick(Arc::new(KickParameters::new())),
            DrumType::Snare => DrumParameters::Snare(Arc::new(SnareParameters::new())),
            DrumType::Hat => DrumParameters::Hat(Arc::new(HatParameters::new())),
        }
    }

    /// The drum kind of this block.
    pub fn drum_type(&self) -> (r: DrumType)
        ensures
            r == drum_parameters_kind(*self),
    {
        match self {
            DrumParameters::Kick(_) => DrumType::Kick,
            DrumParameters::Snare(_) => DrumType::Snare,
            DrumParameters::Hat(_) => DrumType::Hat,
        }
    }
}

} // verus!
