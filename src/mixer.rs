use vstd::prelude::*;
use std::sync::Arc;
use crate::parameters::{CVParameters, DrumParameters, SynthParameters};

verus! {

/// What instrument an instance is made from.
pub enum EngineSpec {
    Synth { params: Arc<SynthParameters>, midi_channel: u8 },
    Drum { trigger_note: u8, midi_channel: u8, parameters: DrumParameters },
    CV { parameters: Arc<CVParameters>, midi_channel: u8 },
}

impl EngineSpec {
    /// Whether the instance writes two channels (pitch and gate), as a
    /// control-voltage instance does.
    pub fn uses_dual_channel(&self) -> (r: bool)
        ensures
            r == (*self is CV),
    {
        matches!(self, EngineSpec::CV { .. })
    }

    /// The instance's MIDI channel filter.
    pub fn midi_channel(&self) -> (r: u8)
        ensures
            r == match *self {
                EngineSpec::Synth { midi_channel, .. } => midi_channel,
                EngineSpec::Drum { midi_channel, .. } => midi_channel,
                EngineSpec::CV { midi_channel, .. } => midi_channel,
            },
    {
        match self {
            EngineSpec::Synth { midi_channel, .. } => *midi_channel,
            EngineSpec::Drum { midi_channel, .. } => *midi_channel,
            EngineSpec::CV { midi_channel, .. } => *midi_channel,
        }
    }
}

/// Where, in an interleaved buffer of `len` samples and `num_channels`
/// channels, sample `frame` of channel `channel` lies; `None` when the
/// channel or frame is outside the buffer.
pub open spec fn slot_spec(frame: int, channel: int, num_channels: int, len: int) -> Option<int> {
    if 0 <= channel < num_channels && 0 <= frame && frame * num_channels + channel < len {
        Some(frame * num_channels + channel)
    } else {
        None
    }
}

/// Position of a sample in an interleaved buffer.
pub fn interleaved_slot(frame: usize, channel: usize, num_channels: usize, len: usize) -> (r: Option<usize>)
    ensures
        r matches Some(p) ==> slot_spec(frame as int, channel as int, num_channels as int, len as int) == Some(p as int),
        r is None ==> slot_spec(frame as int, channel as int, num_channels as int, len as int) is None,
{
    if channel >= num_channels || channel >= len {
        return None;
    }
    let room = (len - channel) / num_channels;
    if frame > room {
        proof {
            assert(frame * num_channels + channel >= len) by (nonlinear_arith)
                requires
                    frame > room,
                    room == (len - channel) as int / num_channels as int,
                    num_channels > 0,
                    channel < len,
            {
            }
        }
        return None;
    }
    proof {
        assert(frame * num_channels <= len - channel) by (nonlinear_arith)
            requires
                frame <= room,
                room == (len - channel) as int / num_channels as int,
                num_channels > 0,
                channel < len,
        {
        }
    }
    let p = frame * num_channels + channel;
    if p < len {
        Some(p)
    } else {
        None
    }
}

/// The output channels an instance on `audio_channel` contributes to in a
/// buffer of `num_channels` channels: its own channel, and for a dual
/// (pitch and gate) instance the next one too; channels out of range are
/// dropped.
pub open spec fn routed_channels_spec(audio_channel: int, dual: bool, num_channels: int) -> (Option<int>, Option<int>) {
    (
        if 0 <= audio_channel < num_channels { Some(audio_channel) } else { None },
        if dual && 0 <= audio_channel + 1 < num_channels { Some(audio_channel + 1) } else { None },
    )
}

/// The output channels of an instance: the channel for its mono or pitch
/// signal, and the channel for its gate signal.
pub fn routed_channels(audio_channel: usize, dual: bool, num_channels: usize) -> (r: (Option<usize>, Option<usize>))
    ensures
        (r.0 matches Some(c) ==> routed_channels_spec(audio_channel as int, dual, num_channels as int).0 == Some(c as int)),
        (r.0 is None ==> routed_channels_spec(audio_channel as int, dual, num_channels as int).0 is None),
        (r.1 matches Some(c) ==> routed_channels_spec(audio_channel as int, dual, num_channels as int).1 == Some(c as int)),
        (r.1 is None ==> routed_channels_spec(audio_channel as int, dual, num_channels as int).1 is None),
{
    let main = if audio_channel < num_channels {
        Some(audio_channel)
    } else {
        None
    };
    let gate = if dual && audio_channel < num_channels && num_channels - audio_channel > 1 {
        Some(audio_channel + 1)
    } else {
        None
    };
    (main, gate)
}

/// An instance on channel `k` writes only to positions of channel `k`
/// (and of `k + 1` when it is dual) in the interleaved output.
pub proof fn lemma_routing_stays_in_channel(
    audio_channel: int,
    dual: bool,
    num_channels: int,
    len: int,
    frame: int,
)
    requires
        0 <= audio_channel,
        0 < num_channels,
    ensures
        routed_channels_spec(audio_channel, dual, num_channels).0 matches Some(c) ==> (slot_spec(
            frame,
            c,
            num_channels,
            len,
        ) matches Some(p) ==> p % num_channels == audio_channel),
        routed_channels_spec(audio_channel, dual, num_channels).1 matches Some(c) ==> (slot_spec(
            frame,
            c,
            num_channels,
            len,
        ) matches Some(p) ==> dual && p % num_channels == audio_channel + 1),
{
    if 0 <= frame {
        if 0 <= audio_channel < num_channels {
            vstd::arithmetic::div_mod::lemma_fundamental_div_mod_converse(
                frame * num_channels + audio_channel,
                num_channels,
                frame,
                audio_channel,
            );
        }
        if 0 <= audio_channel + 1 < num_channels {
            vstd::arithmetic::div_mod::lemma_fundamental_div_mod_converse(
                frame * num_channels + audio_channel + 1,
                num_channels,
                frame,
                audio_channel + 1,
            );
        }
    }
}

/// Samples between two voice-state snapshots sent to the display.
pub const SNAPSHOT_INTERVAL: u64 = 4410;

/// Counts rendered samples and says when a voice-state snapshot is due.
pub struct SnapshotClock {
    count: u64,
}

impl SnapshotClock {
    pub closed spec fn spec_count(&self) -> u64 {
        self.count
    }

    pub fn new() -> (r: Self)
        ensures
            r.spec_count() == 0,
    {
        SnapshotClock { count: 0 }
    }

    /// Adds `frames` rendered samples. Returns true, and starts counting
    /// afresh, once more than `SNAPSHOT_INTERVAL` samples have been counted.
    pub fn advance(&mut self, frames: u64) -> (due: bool)
        requires
            old(self).spec_count() <= SNAPSHOT_INTERVAL,
        ensures
            final(self).spec_count() <= SNAPSHOT_INTERVAL,
            due == (old(self).spec_count() + frames > SNAPSHOT_INTERVAL),
            final(self).spec_count() == if due {
                0
            } else {
                old(self).spec_count() + frames
            },
    {
        if frames > SNAPSHOT_INTERVAL - self.count {
            self.count = 0;
            true
        } else {
            self.count = self.count + frames;
            false
        }
    }
}

} // verus!
