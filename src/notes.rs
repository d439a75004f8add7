use vstd::prelude::*;

verus! {

/// Name of a pitch class 0..=11, sharps spelled with `#`.
pub open spec fn pitch_class_name(pc: int) -> Seq<char> {
    if pc == 0 {
        "C"@
    } else if pc == 1 {
        "C#"@
    } else if pc == 2 {
        "D"@
    } else if pc == 3 {
        "D#"@
    } else if pc == 4 {
        "E"@
    } else if pc == 5 {
        "F"@
    } else if pc == 6 {
        "F#"@
    } else if pc == 7 {
        "G"@
    } else if pc == 8 {
        "G#"@
    } else if pc == 9 {
        "A"@
    } else if pc == 10 {
        "A#"@
    } else {
        "B"@
    }
}

/// Decimal text of an octave number -1..=9.
pub open spec fn octave_text(o: int) -> Seq<char> {
    if o == -1 {
        "-1"@
    } else if o == 0 {
        "0"@
    } else if o == 1 {
        "1"@
    } else if o == 2 {
        "2"@
    } else if o == 3 {
        "3"@
    } else if o == 4 {
        "4"@
    } else if o == 5 {
        "5"@
    } else if o == 6 {
        "6"@
    } else if o == 7 {
        "7"@
    } else if o == 8 {
        "8"@
    } else {
        "9"@
    }
}

fn pitch_class_str(pc: u8) -> (r: &'static str)
    requires
        pc < 12,
    ensures
        r@ == pitch_class_name(pc as int),
{
    match pc {
        0 => "C",
        1 => "C#",
        2 => "D",
        3 => "D#",
        4 => "E",
        5 => "F",
        6 => "F#",
        7 => "G",
        8 => "G#",
        9 => "A",
        10 => "A#",
        _ => "B",
    }
}

fn octave_str(o: u8) -> (r: &'static str)
    requires
        o <= 10,
    ensures
        r@ == octave_text(o as int - 1),
{
    match o {
        0 => "-1",
        1 => "0",
        2 => "1",
        3 => "2",
        4 => "3",
        5 => "4",
        6 => "5",
        7 => "6",
        8 => "7",
        9 => "8",
        _ => "9",
    }
}

/// Name of a MIDI note such as `C4` (60) or `A#-1` (10): pitch class, then
/// the octave, with C-1 = 0.
pub fn midi_note_to_name(note: u8) -> (r: String)
    requires
        note <= 127,
    ensures
        r@ == pitch_class_name(note as int % 12) + octave_text(note as int / 12 - 1),
{
    let mut name = String::from_str(pitch_class_str(note % 12));
    name.append(octave_str(note / 12));
    name
}

} // verus!
