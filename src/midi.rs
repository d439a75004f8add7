use vstd::prelude::*;

verus! {

/// Channel filter value that accepts every MIDI channel.
pub const OMNI: u8 = 255;

/// Controller number of the "all notes off" message.
pub const CC_ALL_NOTES_OFF: u8 = 123;

/// A MIDI channel message as read from the wire.
#[derive(Debug, Clone, Copy, PartialEq, Eq, Structural)]
pub enum MidiMessage {
    NoteOn { channel: u8, note: u8, velocity: u8 },
    NoteOff { channel: u8, note: u8, velocity: u8 },
    ControlChange { channel: u8, controller: u8, value: u8 },
    Unknown,
}

/// An event handed from the MIDI side to the audio side.
///
/// Velocities are the raw MIDI values (1..=127 for a note on); the audio
/// side derives pitch and amplitude from the note and velocity.
#[derive(Debug, Clone, Copy, PartialEq, Eq, Structural)]
pub enum SynthEvent {
    NoteOn { channel: u8, note: u8, velocity: u8 },
    NoteOff { channel: u8, note: u8 },
    /// `channel == None` silences every instrument.
    AllNotesOff { channel: Option<u8> },
}

/// What a byte sequence parses to: status nibble 0x9, 0x8 or 0xB with at
/// least two data bytes, a note on of velocity 0 being a note off.
pub open spec fn parse_spec(b: Seq<u8>) -> MidiMessage {
    if b.len() == 0 {
        MidiMessage::Unknown
    } else {
        let kind = b[0] / 16;
        let channel = (b[0] % 16) as u8;
        if (kind == 9 || kind == 8 || kind == 11) && b.len() < 3 {
            MidiMessage::Unknown
        } else if kind == 9 {
            if b[2] == 0 {
                MidiMessage::NoteOff { channel, note: b[1], velocity: 0 }
            } else {
                MidiMessage::NoteOn { channel, note: b[1], velocity: b[2] }
            }
        } else if kind == 8 {
            MidiMessage::NoteOff { channel, note: b[1], velocity: b[2] }
        } else if kind == 11 {
            MidiMessage::ControlChange { channel, controller: b[1], value: b[2] }
        } else {
            MidiMessage::Unknown
        }
    }
}

/// Whether a channel filter (0..=15, or `OMNI`) lets a message of `channel` through.
pub open spec fn filter_passes(filter: u8, channel: u8) -> bool {
    filter == OMNI || channel == filter
}

/// The event that a message becomes under a channel filter.
pub open spec fn synth_event_spec(m: MidiMessage, filter: u8) -> Option<SynthEvent> {
    match m {
        MidiMessage::NoteOn { channel, note, velocity } => if filter_passes(filter, channel) {
            Some(SynthEvent::NoteOn { channel, note, velocity })
        } else {
            None
        },
        MidiMessage::NoteOff { channel, note, .. } => if filter_passes(filter, channel) {
            Some(SynthEvent::NoteOff { channel, note })
        } else {
            None
        },
        MidiMessage::ControlChange { channel, controller, .. } => if filter_passes(filter, channel)
            && controller == CC_ALL_NOTES_OFF {
            Some(SynthEvent::AllNotesOff { channel: Some(channel) })
        } else {
            None
        },
        MidiMessage::Unknown => None,
    }
}

/// The channel an event carries; a global all-notes-off carries none.
pub open spec fn event_channel(e: SynthEvent) -> Option<u8> {
    match e {
        SynthEvent::NoteOn { channel, .. } => Some(channel),
        SynthEvent::NoteOff { channel, .. } => Some(channel),
        SynthEvent::AllNotesOff { channel } => channel,
    }
}

/// Whether an instrument with channel filter `filter` acts on `e`.
pub open spec fn accepts_spec(filter: u8, e: SynthEvent) -> bool {
    match event_channel(e) {
        Some(ch) => filter_passes(filter, ch),
        None => true,
    }
}

impl MidiMessage {
    /// Parses raw MIDI bytes `[status, data1, data2]`.
    pub fn parse(bytes: &[u8]) -> (r: Self)
        ensures
            r == parse_spec(bytes@),
    {
        if bytes.len() == 0 {
            return MidiMessage::Unknown;
        }
        let status = bytes[0];
        let message_type = status / 16;
        let channel = status % 16;
        if message_type == 9 {
            if bytes.len() >= 3 {
                let note = bytes[1];
                let velocity = bytes[2];
                if velocity == 0 {
                    MidiMessage::NoteOff { channel, note, velocity: 0 }
                } else {
                    MidiMessage::NoteOn { channel, note, velocity }
                }
            } else {
                MidiMessage::Unknown
            }
        } else if message_type == 8 {
            if bytes.len() >= 3 {
                MidiMessage::NoteOff { channel, note: bytes[1], velocity: bytes[2] }
            } else {
                MidiMessage::Unknown
            }
        } else if message_type == 11 {
            if bytes.len() >= 3 {
                MidiMessage::ControlChange { channel, controller: bytes[1], value: bytes[2] }
            } else {
                MidiMessage::Unknown
            }
        } else {
            MidiMessage::Unknown
        }
    }

    /// Converts the message to an event, dropping messages whose channel
    /// `channel_filter` (0..=15, or `OMNI`) does not pass and controllers
    /// other than all-notes-off.
    pub fn to_synth_event(&self, channel_filter: u8) -> (r: Option<SynthEvent>)
        ensures
            r == synth_event_spec(*self, channel_filter),
    {
        match *self {
            MidiMessage::NoteOn { channel, note, velocity } => {
                if channel_filter != OMNI && channel != channel_filter {
                    return None;
                }
                Some(SynthEvent::note_on(channel, note, velocity))
            },
            MidiMessage::NoteOff { channel, note, .. } => {
                if channel_filter != OMNI && channel != channel_filter {
                    return None;
                }
                Some(SynthEvent::note_off(channel, note))
            },
            MidiMessage::ControlChange { channel, controller, .. } => {
                if channel_filter != OMNI && channel != channel_filter {
                    return None;
                }
                if controller == CC_ALL_NOTES_OFF {
                    Some(SynthEvent::all_notes_off(Some(channel)))
                } else {
                    None
                }
            },
            MidiMessage::Unknown => None,
        }
    }
}

impl SynthEvent {
    pub fn note_on(channel: u8, note: u8, velocity: u8) -> (r: Self)
        ensures
            r == (SynthEvent::NoteOn { channel, note, velocity }),
    {
        SynthEvent::NoteOn { channel, note, velocity }
    }

    pub fn note_off(channel: u8, note: u8) -> (r: Self)
        ensures
            r == (SynthEvent::NoteOff { channel, note }),
    {
        SynthEvent::NoteOff { channel, note }
    }

    pub fn all_notes_off(channel: Option<u8>) -> (r: Self)
        ensures
            r == (SynthEvent::AllNotesOff { channel }),
    {
        SynthEvent::AllNotesOff { channel }
    }

    /// The MIDI channel of the event, `None` for a global all-notes-off.
    pub fn channel(&self) -> (r: Option<u8>)
        ensures
            r == event_channel(*self),
    {
        match *self {
            SynthEvent::NoteOn { channel, .. } => Some(channel),
            SynthEvent::NoteOff { channel, .. } => Some(channel),
            SynthEvent::AllNotesOff { channel } => channel,
        }
    }

    /// Whether an instrument listening on `filter` (0..=15, or `OMNI`) acts
    /// on this event.
    pub fn accepted_by(&self, filter: u8) -> (r: bool)
        ensures
            r == accepts_spec(filter, *self),
    {
        if filter == OMNI {
            return true;
        }
        match self.channel() {
            Some(ch) => ch == filter,
            None => true,
        }
    }
}

/// A note on with velocity 0 reads as a note off of the same note and
/// channel; controller 123 becomes an all-notes-off of its channel; a note
/// or controller message shorter than three bytes is unknown.
pub proof fn lemma_parse_rules(b: Seq<u8>)
    ensures
        b.len() >= 3 && b[0] / 16 == 9 && b[2] == 0 ==> parse_spec(b) == (MidiMessage::NoteOff {
            channel: (b[0] % 16) as u8,
            note: b[1],
            velocity: 0,
        }),
        b.len() >= 3 && b[0] / 16 == 11 && b[1] == CC_ALL_NOTES_OFF ==> synth_event_spec(
            parse_spec(b),
            OMNI,
        ) == Some(SynthEvent::AllNotesOff { channel: Some((b[0] % 16) as u8) }),
        b.len() < 3 && b.len() > 0 && (b[0] / 16 == 9 || b[0] / 16 == 8 || b[0] / 16 == 11)
            ==> parse_spec(b) == MidiMessage::Unknown,
{
}

/// A global all-notes-off reaches every instrument; an omni instrument
/// takes every event; any other instrument takes exactly the events of
/// its own channel.
pub proof fn lemma_channel_filter(filter: u8, e: SynthEvent)
    ensures
        e == (SynthEvent::AllNotesOff { channel: None }) ==> accepts_spec(filter, e),
        filter == OMNI ==> accepts_spec(filter, e),
        filter != OMNI && event_channel(e) is Some ==> (accepts_spec(filter, e)
            <==> event_channel(e)->Some_0 == filter),
{
}

} // verus!
