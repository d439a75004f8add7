use vstd::prelude::*;

verus! {

/// Most notes a monophonic voice remembers.
pub const NOTE_STACK_CAPACITY: usize = 16;

/// Held notes of a monophonic voice in the order they were pressed; the
/// most recent is sounding (last-note priority). No note appears twice.
/// Its gate signal is high exactly while the stack is non-empty.
pub struct NoteStack {
    notes: Vec<u8>,
}

/// Semitones above middle C (note 60) of `note` transposed by `transpose`,
/// the transposed note being clamped to 0..=127. The pitch voltage is this
/// value divided by 120 (one volt per octave on a ±10 V scale).
pub open spec fn semitones_spec(note: u8, transpose: i8) -> int {
    let t = note as int + transpose as int;
    let c = if t < 0 {
        0
    } else if t > 127 {
        127
    } else {
        t
    };
    c - 60
}

/// Pitch of a note as semitones from middle C, after transpose and clamping.
pub fn note_to_semitones(note: u8, transpose: i8) -> (r: i16)
    ensures
        r as int == semitones_spec(note, transpose),
        -60 <= r <= 67,
{
    let t: i16 = note as i16 + transpose as i16;
    let c: i16 = if t < 0 {
        0
    } else if t > 127 {
        127
    } else {
        t
    };
    c - 60
}

/// Middle C sits at 0; an octave up or down is ±12 semitones (±0.1 on the
/// normalised scale); transposing is the same as playing the transposed
/// note.
pub proof fn lemma_semitone_mapping(n: u8, t: i8)
    ensures
        semitones_spec(60, 0) == 0,
        semitones_spec(72, 0) == 12,
        semitones_spec(48, 0) == -12,
        0 <= n + t <= 127 ==> semitones_spec(n, t) == semitones_spec((n + t) as u8, 0),
{
}

impl NoteStack {
    pub closed spec fn view(&self) -> Seq<u8> {
        self.notes@
    }

    pub open spec fn wf(&self) -> bool {
        &&& self@.len() <= NOTE_STACK_CAPACITY
        &&& self@.no_duplicates()
    }

    /// An empty stack with room for its capacity reserved up front.
    pub fn new() -> (r: Self)
        ensures
            r.wf(),
            r@ == Seq::<u8>::empty(),
    {
        NoteStack { notes: Vec::with_capacity(NOTE_STACK_CAPACITY) }
    }

    /// Whether `note` is held.
    pub fn contains(&self, note: u8) -> (r: bool)
        ensures
            r == self@.contains(note),
    {
        let mut i: usize = 0;
        while i < self.notes.len()
            invariant
                0 <= i <= self@.len(),
                forall|j: int| 0 <= j < i ==> self@[j] != note,
            decreases self@.len() - i,
        {
            if self.notes[i] == note {
                return true;
            }
            i += 1;
        }
        false
    }

    /// Presses `note`. A note already held keeps its place; a new one goes
    /// on top, the oldest held note making room for it when the stack is
    /// full. Returns whether some note was already held (a legato note,
    /// which glides rather than jumps).
    pub fn note_on(&mut self, note: u8) -> (legato: bool)
        requires
            old(self).wf(),
        ensures
            final(self).wf(),
            legato == (old(self)@.len() > 0),
            final(self)@ == if old(self)@.contains(note) {
                old(self)@
            } else if old(self)@.len() < NOTE_STACK_CAPACITY {
                old(self)@.push(note)
            } else {
                old(self)@.skip(1).push(note)
            },
            final(self)@.contains(note),
    {
        let legato = self.notes.len() > 0;
        if !self.contains(note) {
            if self.notes.len() >= NOTE_STACK_CAPACITY {
                let ghost before = self@;
                self.notes.remove(0);
                assert(self@ =~= before.skip(1));
                assert(self@.no_duplicates()) by {
                    assert forall|i: int, j: int|
                        0 <= i < self@.len() && 0 <= j < self@.len() && i != j implies self@[i]
                        != self@[j] by {
                        assert(before[i + 1] != before[j + 1]);
                    }
                }
                assert(!self@.contains(note)) by {
                    if self@.contains(note) {
                        let k = choose|k: int| 0 <= k < self@.len() && self@[k] == note;
                        assert(before[k + 1] == note);
                    }
                }
            }
            let ghost mid = self@;
            self.notes.push(note);
            assert(self@[self@.len() - 1] == note);
            assert(self@.no_duplicates()) by {
                assert forall|i: int, j: int|
                    0 <= i < self@.len() && 0 <= j < self@.len() && i != j implies self@[i]
                    != self@[j] by {
                    if i < mid.len() && j < mid.len() {
                        assert(mid[i] != mid[j]);
                    } else if i < mid.len() {
                        assert(mid.contains(self@[i]));
                    } else {
                        assert(mid.contains(self@[j]));
                    }
                }
            }
        }
        legato
    }

    /// Releases `note`. Returns the note that sounds afterwards, the most
    /// recent one still held, or `None` once no note is held.
    pub fn note_off(&mut self, note: u8) -> (r: Option<u8>)
        requires
            old(self).wf(),
        ensures
            final(self).wf(),
            !old(self)@.contains(note) ==> final(self)@ == old(self)@,
            old(self)@.contains(note) ==> exists|i: int|
                0 <= i < old(self)@.len() && old(self)@[i] == note && final(self)@ == old(
                    self,
                )@.remove(i),
            !final(self)@.contains(note),
            r == (if final(self)@.len() == 0 {
                None
            } else {
                Some(final(self)@.last())
            }),
    {
        let mut i: usize = 0;
        while i < self.notes.len() && self.notes[i] != note
            invariant
                self@ == old(self)@,
                0 <= i <= self@.len(),
                forall|j: int| 0 <= j < i ==> self@[j] != note,
            decreases self@.len() - i,
        {
            i += 1;
        }
        if i < self.notes.len() {
            let ghost before = self@;
            self.notes.remove(i);
            assert(self@ =~= before.remove(i as int));
            assert(self@.no_duplicates()) by {
                assert forall|a: int, b: int|
                    0 <= a < self@.len() && 0 <= b < self@.len() && a != b implies self@[a]
                    != self@[b] by {
                    let a0 = if a < i { a } else { a + 1 };
                    let b0 = if b < i { b } else { b + 1 };
                    assert(before[a0] != before[b0]);
                }
            }
            assert(!self@.contains(note)) by {
                if self@.contains(note) {
                    let k = choose|k: int| 0 <= k < self@.len() && self@[k] == note;
                    let k0 = if k < i { k } else { k + 1 };
                    assert(before[k0] == note);
                    assert(before[i as int] == note);
                }
            }
        }
        self.top()
    }

    /// Releases every note.
    pub fn clear(&mut self)
        ensures
            final(self).wf(),
            final(self)@ == Seq::<u8>::empty(),
    {
        self.notes.clear();
    }

    /// The sounding note: the most recent one held.
    pub fn top(&self) -> (r: Option<u8>)
        ensures
            r == (if self@.len() == 0 {
                None
            } else {
                Some(self@.last())
            }),
    {
        if self.notes.len() == 0 {
            None
        } else {
            Some(self.notes[self.notes.len() - 1])
        }
    }

    /// Whether some note is held, so that its gate signal is high.
    pub fn gate(&self) -> (r: bool)
        ensures
            r == (self@.len() > 0),
    {
        self.notes.len() > 0
    }

    /// The number of held notes.
    pub fn len(&self) -> (r: usize)
        ensures
            r == self@.len(),
    {
        self.notes.len()
    }
}

/// How the pitch output moves after an event, in semitones from middle C.
#[derive(Debug, Clone, Copy, PartialEq, Eq, Structural)]
pub enum PitchMove {
    /// The pitch stays where it is.
    Hold,
    /// The pitch jumps to the target at once.
    Jump { semitones: i16 },
    /// The pitch glides linearly to the target over the glide time.
    Glide { semitones: i16 },
}

/// Note handling of a monophonic control-voltage voice: last-note
/// priority, a jump for the first note of a fresh gate, a glide for legato
/// notes, for returns to a held note and for transpose changes.
pub struct MonoVoice {
    notes: NoteStack,
    transpose: i8,
}

impl MonoVoice {
    pub closed spec fn spec_notes(&self) -> Seq<u8> {
        self.notes@
    }

    pub closed spec fn spec_transpose(&self) -> i8 {
        self.transpose
    }

    pub open spec fn wf(&self) -> bool {
        &&& self.spec_notes().len() <= NOTE_STACK_CAPACITY
        &&& self.spec_notes().no_duplicates()
    }

    /// No note held, no transpose.
    pub fn new() -> (r: Self)
        ensures
            r.wf(),
            r.spec_notes() == Seq::<u8>::empty(),
            r.spec_transpose() == 0,
    {
        MonoVoice { notes: NoteStack::new(), transpose: 0 }
    }

    /// Presses `note`: the pitch moves to it, jumping if no note was held
    /// and gliding otherwise.
    pub fn note_on(&mut self, note: u8) -> (m: PitchMove)
        requires
            old(self).wf(),
        ensures
            final(self).wf(),
            final(self).spec_transpose() == old(self).spec_transpose(),
            final(self).spec_notes() == if old(self).spec_notes().contains(note) {
                old(self).spec_notes()
            } else if old(self).spec_notes().len() < NOTE_STACK_CAPACITY {
                old(self).spec_notes().push(note)
            } else {
                old(self).spec_notes().skip(1).push(note)
            },
            final(self).spec_notes().contains(note),
            m == if old(self).spec_notes().len() == 0 {
                PitchMove::Jump { semitones: semitones_spec(note, old(self).spec_transpose()) as i16 }
            } else {
                PitchMove::Glide { semitones: semitones_spec(note, old(self).spec_transpose()) as i16 }
            },
    {
        let legato = self.notes.note_on(note);
        let semitones = note_to_semitones(note, self.transpose);
        if legato {
            PitchMove::Glide { semitones }
        } else {
            PitchMove::Jump { semitones }
        }
    }

    /// Releases `note`: the pitch glides to the most recent note still
    /// held, or holds when none is.
    pub fn note_off(&mut self, note: u8) -> (m: PitchMove)
        requires
            old(self).wf(),
        ensures
            final(self).wf(),
            final(self).spec_transpose() == old(self).spec_transpose(),
            !final(self).spec_notes().contains(note),
            !old(self).spec_notes().contains(note) ==> final(self).spec_notes() == old(self).spec_notes(),
            old(self).spec_notes().contains(note) ==> exists|i: int|
                0 <= i < old(self).spec_notes().len() && old(self).spec_notes()[i] == note
                    && final(self).spec_notes() == old(self).spec_notes().remove(i),
            m == if final(self).spec_notes().len() == 0 {
                PitchMove::Hold
            } else {
                PitchMove::Glide {
                    semitones: semitones_spec(final(self).spec_notes().last(), old(self).spec_transpose()) as i16,
                }
            },
    {
        match self.notes.note_off(note) {
            Some(n) => PitchMove::Glide { semitones: note_to_semitones(n, self.transpose) },
            None => PitchMove::Hold,
        }
    }

    /// Releases every note; the pitch holds.
    pub fn all_notes_off(&mut self)
        requires
            old(self).wf(),
        ensures
            final(self).wf(),
            final(self).spec_notes() == Seq::<u8>::empty(),
            final(self).spec_transpose() == old(self).spec_transpose(),
    {
        self.notes.clear();
    }

    /// Sets the transpose. A change glides the sounding note to its new
    /// pitch; no change, or no note held, holds.
    pub fn set_transpose(&mut self, transpose: i8) -> (m: PitchMove)
        requires
            old(self).wf(),
        ensures
            final(self).wf(),
            final(self).spec_notes() == old(self).spec_notes(),
            final(self).spec_transpose() == transpose,
            m == if transpose == old(self).spec_transpose() || old(self).spec_notes().len() == 0 {
                PitchMove::Hold
            } else {
                PitchMove::Glide { semitones: semitones_spec(old(self).spec_notes().last(), transpose) as i16 }
            },
    {
        if transpose == self.transpose {
            return PitchMove::Hold;
        }
        self.transpose = transpose;
        match self.notes.top() {
            Some(n) => PitchMove::Glide { semitones: note_to_semitones(n, transpose) },
            None => PitchMove::Hold,
        }
    }

    /// The sounding note, the most recent one held.
    pub fn current_note(&self) -> (r: Option<u8>)
        ensures
            r == (if self.spec_notes().len() == 0 {
                None
            } else {
                Some(self.spec_notes().last())
            }),
    {
        self.notes.top()
    }

    /// Whether some note is held, so that its gate signal is high.
    pub fn gate(&self) -> (r: bool)
        ensures
            r == (self.spec_notes().len() > 0),
    {
        self.notes.gate()
    }

    pub fn transpose(&self) -> (r: i8)
        ensures
            r == self.spec_transpose(),
    {
        self.transpose
    }
}

} // verus!
