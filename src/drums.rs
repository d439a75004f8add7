use vstd::prelude::*;
use crate::midi::{SynthEvent, accepts_spec};

verus! {

/// Kinds of percussion voice.
#[derive(Debug, Clone, Copy, PartialEq, Eq, Structural)]
pub enum DrumType {
    Kick,
    Snare,
    Hat,
}

impl DrumType {
    /// A human-readable name of the kind.
    pub fn name(&self) -> (r: &'static str)
        ensures
            r@ == match *self {
                DrumType::Kick => "Kick"@,
                DrumType::Snare => "Snare"@,
                DrumType::Hat => "Hat"@,
            },
    {
        match self {
            DrumType::Kick => "Kick",
            DrumType::Snare => "Snare",
            DrumType::Hat => "Hat",
        }
    }
}

/// Whether a drum listening on `filter` with trigger note `trigger_note`
/// fires on `e`: a note on of that note on an accepted channel. Note offs
/// and all-notes-off leave a one-shot drum to finish on its own.
pub open spec fn drum_fires_spec(trigger_note: u8, filter: u8, e: SynthEvent) -> bool {
    accepts_spec(filter, e) && match e {
        SynthEvent::NoteOn { note, .. } => note == trigger_note,
        _ => false,
    }
}

/// Decides whether a drum fires on an event.
pub fn drum_fires(trigger_note: u8, filter: u8, e: &SynthEvent) -> (r: bool)
    ensures
        r == drum_fires_spec(trigger_note, filter, *e),
{
    if !e.accepted_by(filter) {
        return false;
    }
    match *e {
        SynthEvent::NoteOn { note, .. } => note == trigger_note,
        _ => false,
    }
}

/// Voice display of a drum: its trigger note in the first slot while it
/// sounds, every other slot empty.
pub fn drum_voice_states(active: bool, trigger_note: u8) -> (r: [Option<u8>; 16])
    ensures
        r@[0] == (if active {
            Some(trigger_note)
        } else {
            None
        }),
        forall|i: int| 1 <= i < 16 ==> (#[trigger] r@[i]) == None::<u8>,
{
    let mut states: [Option<u8>; 16] = [None; 16];
    if active {
        states[0] = Some(trigger_note);
    }
    states
}

} // verus!
