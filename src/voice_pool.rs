use vstd::prelude::*;

verus! {

/// Number of simultaneous voices of a polyphonic instrument.
pub const MAX_VOICES: usize = 16;

/// Whether a voice slot is free or sounds a note.
#[derive(Debug, Clone, Copy, PartialEq, Eq, Structural)]
pub enum SlotState {
    Idle,
    Active { note: u8 },
}

/// Slot bookkeeping of a 16-voice pool: which slot sounds which note and
/// in what order slots were allocated.
///
/// The sound of each slot (oscillator, envelope) is kept beside it by the
/// caller, index for index; whether a slot's envelope still runs is passed
/// in where a decision depends on it.
pub struct VoiceAllocator {
    states: [SlotState; 16],
    ages: [u64; 16],
    global_age: u64,
}

pub open spec fn slot_is_idle(s: SlotState) -> bool {
    s is Idle
}

/// A slot that is still marked active although its envelope has finished.
pub open spec fn slot_is_releasing(s: SlotState, envelope_active: bool) -> bool {
    s is Active && !envelope_active
}

/// The slot that a new note takes: the first idle slot, else the first
/// releasing slot, else the first slot of least age.
pub open spec fn is_chosen_slot(
    states: Seq<SlotState>,
    ages: Seq<u64>,
    env: Seq<bool>,
    r: int,
) -> bool {
    &&& 0 <= r < MAX_VOICES
    &&& (exists|i: int| 0 <= i < MAX_VOICES && slot_is_idle(#[trigger] states[i])) ==> {
        &&& slot_is_idle(states[r])
        &&& forall|j: int| 0 <= j < r ==> !slot_is_idle(#[trigger] states[j])
    }
    &&& (forall|i: int| 0 <= i < MAX_VOICES ==> !slot_is_idle(#[trigger] states[i])) && (exists|
        i: int,
    |
        0 <= i < MAX_VOICES && slot_is_releasing(#[trigger] states[i], env[i])) ==> {
        &&& slot_is_releasing(states[r], env[r])
        &&& forall|j: int| 0 <= j < r ==> !slot_is_releasing(#[trigger] states[j], env[j])
    }
    &&& (forall|i: int| 0 <= i < MAX_VOICES ==> !slot_is_idle(#[trigger] states[i])) && (forall|
        i: int,
    |
        0 <= i < MAX_VOICES ==> !slot_is_releasing(#[trigger] states[i], env[i])) ==> {
        &&& forall|j: int| 0 <= j < MAX_VOICES ==> ages[r] <= #[trigger] ages[j]
        &&& forall|j: int| 0 <= j < r ==> ages[r] < #[trigger] ages[j]
    }
}

/// The number of active slots among the first `n`.
pub open spec fn count_active(states: Seq<SlotState>, n: int) -> nat
    decreases n,
{
    if n <= 0 {
        0
    } else {
        count_active(states, n - 1) + if states[n - 1] is Active {
            1nat
        } else {
            0nat
        }
    }
}

pub proof fn lemma_count_active_bounded(states: Seq<SlotState>, n: int)
    requires
        0 <= n,
    ensures
        count_active(states, n) <= n,
    decreases n,
{
    if n > 0 {
        lemma_count_active_bounded(states, n - 1);
    }
}

/// However notes arrive, at most `MAX_VOICES` slots are active at once.
pub proof fn lemma_at_most_max_voices_active(a: &VoiceAllocator)
    requires
        a.wf(),
    ensures
        count_active(a.spec_states(), MAX_VOICES as int) <= MAX_VOICES,
{
    lemma_count_active_bounded(a.spec_states(), MAX_VOICES as int);
}

proof fn lemma_count_active_update(states: Seq<SlotState>, n: int, r: int, v: SlotState)
    requires
        0 <= r < n <= states.len(),
    ensures
        count_active(states.update(r, v), n) == count_active(states, n) - (if states[r] is Active {
            1int
        } else {
            0int
        }) + (if v is Active {
            1int
        } else {
            0int
        }),
    decreases n,
{
    if n - 1 > r {
        lemma_count_active_update(states, n - 1, r, v);
    } else {
        assert forall|k: int| 0 <= k < n - 1 implies states.update(r, v)[k] == states[k] by {}
        lemma_count_active_same_prefix(states.update(r, v), states, n - 1);
    }
}

proof fn lemma_count_active_same_prefix(a: Seq<SlotState>, b: Seq<SlotState>, n: int)
    requires
        0 <= n <= a.len(),
        n <= b.len(),
        forall|k: int| 0 <= k < n ==> a[k] == b[k],
    ensures
        count_active(a, n) == count_active(b, n),
    decreases n,
{
    if n > 0 {
        lemma_count_active_same_prefix(a, b, n - 1);
    }
}

proof fn lemma_count_active_all(states: Seq<SlotState>, n: int)
    requires
        0 <= n <= states.len(),
        forall|k: int| 0 <= k < n ==> !slot_is_idle(#[trigger] states[k]),
    ensures
        count_active(states, n) == n,
    decreases n,
{
    if n > 0 {
        lemma_count_active_all(states, n - 1);
        assert(!slot_is_idle(states[n - 1]));
    }
}

proof fn lemma_count_active_with_idle(states: Seq<SlotState>, n: int, i: int)
    requires
        0 <= i < n <= states.len(),
        slot_is_idle(states[i]),
    ensures
        count_active(states, n) < n,
    decreases n,
{
    if n - 1 > i {
        lemma_count_active_with_idle(states, n - 1, i);
    } else {
        lemma_count_active_bounded(states, n - 1);
    }
}

/// A note on raises the number of active slots by one, up to
/// `MAX_VOICES`: it takes an idle slot while one exists, and otherwise
/// replaces an active one.
pub proof fn lemma_note_on_active_count(
    states: Seq<SlotState>,
    ages: Seq<u64>,
    env: Seq<bool>,
    r: int,
    note: u8,
)
    requires
        states.len() == MAX_VOICES,
        is_chosen_slot(states, ages, env, r),
    ensures
        count_active(states.update(r, SlotState::Active { note }), MAX_VOICES as int) as int == if count_active(
            states,
            MAX_VOICES as int,
        ) < MAX_VOICES {
            count_active(states, MAX_VOICES as int) + 1int
        } else {
            MAX_VOICES as int
        },
{
    lemma_count_active_update(states, MAX_VOICES as int, r, SlotState::Active { note });
    lemma_count_active_bounded(states, MAX_VOICES as int);
    if exists|i: int| 0 <= i < MAX_VOICES && slot_is_idle(#[trigger] states[i]) {
        let i = choose|i: int| 0 <= i < MAX_VOICES && slot_is_idle(#[trigger] states[i]);
        lemma_count_active_with_idle(states, MAX_VOICES as int, i);
    } else {
        lemma_count_active_all(states, MAX_VOICES as int);
    }
}

impl VoiceAllocator {
    pub closed spec fn spec_states(&self) -> Seq<SlotState> {
        self.states@
    }

    pub closed spec fn spec_ages(&self) -> Seq<u64> {
        self.ages@
    }

    pub closed spec fn spec_global_age(&self) -> u64 {
        self.global_age
    }

    /// Every active slot was allocated before the current allocation count.
    pub open spec fn wf(&self) -> bool {
        &&& self.spec_states().len() == MAX_VOICES
        &&& self.spec_ages().len() == MAX_VOICES
        &&& forall|i: int|
            0 <= i < MAX_VOICES && (#[trigger] self.spec_states()[i]) is Active
                ==> self.spec_ages()[i] < self.spec_global_age()
    }

    /// A pool with every slot idle.
    pub fn new() -> (r: Self)
        ensures
            r.wf(),
            r.spec_global_age() == 0,
            forall|i: int| 0 <= i < MAX_VOICES ==> (#[trigger] r.spec_states()[i]) is Idle,
    {
        VoiceAllocator { states: [SlotState::Idle; 16], ages: [0u64; 16], global_age: 0 }
    }

    /// The slot for a new note: first idle, else first releasing (active
    /// but with a finished envelope), else the oldest allocation.
    pub fn find_voice_for_note(&self, envelope_active: &[bool]) -> (r: usize)
        requires
            self.wf(),
            envelope_active@.len() == MAX_VOICES,
        ensures
            is_chosen_slot(self.spec_states(), self.spec_ages(), envelope_active@, r as int),
    {
        let mut i: usize = 0;
        while i < MAX_VOICES
            invariant
                self.wf(),
                0 <= i <= MAX_VOICES,
                forall|j: int| 0 <= j < i ==> !slot_is_idle(#[trigger] self.spec_states()[j]),
            decreases MAX_VOICES - i,
        {
            if matches!(self.states[i], SlotState::Idle) {
                return i;
            }
            i += 1;
        }
        let mut i: usize = 0;
        while i < MAX_VOICES
            invariant
                self.wf(),
                envelope_active@.len() == MAX_VOICES,
                0 <= i <= MAX_VOICES,
                forall|j: int| 0 <= j < MAX_VOICES ==> !slot_is_idle(#[trigger] self.spec_states()[j]),
                forall|j: int|
                    0 <= j < i ==> !slot_is_releasing(
                        #[trigger] self.spec_states()[j],
                        envelope_active@[j],
                    ),
            decreases MAX_VOICES - i,
        {
            if matches!(self.states[i], SlotState::Active { .. }) && !envelope_active[i] {
                return i;
            }
            i += 1;
        }
        let mut best: usize = 0;
        let mut i: usize = 1;
        while i < MAX_VOICES
            invariant
                self.wf(),
                1 <= i <= MAX_VOICES,
                best < i,
                forall|j: int| 0 <= j < i ==> self.spec_ages()[best as int] <= #[trigger] self.spec_ages()[j],
                forall|j: int| 0 <= j < best ==> self.spec_ages()[best as int] < #[trigger] self.spec_ages()[j],
            decreases MAX_VOICES - i,
        {
            if self.ages[i] < self.ages[best] {
                best = i;
            }
            i += 1;
        }
        best
    }

    /// Allocates a slot for `note` by the priority of `find_voice_for_note`
    /// and marks it active with the next allocation age. Returns the slot,
    /// whose voice the caller then retriggers.
    pub fn note_on(&mut self, note: u8, envelope_active: &[bool]) -> (r: usize)
        requires
            old(self).wf(),
            envelope_active@.len() == MAX_VOICES,
            old(self).spec_global_age() < u64::MAX,
        ensures
            final(self).wf(),
            is_chosen_slot(old(self).spec_states(), old(self).spec_ages(), envelope_active@, r as int),
            final(self).spec_states() == old(self).spec_states().update(
                r as int,
                SlotState::Active { note },
            ),
            final(self).spec_ages() == old(self).spec_ages().update(
                r as int,
                old(self).spec_global_age(),
            ),
            final(self).spec_global_age() == old(self).spec_global_age() + 1,
    {
        let idx = self.find_voice_for_note(envelope_active);
        self.states[idx] = SlotState::Active { note };
        self.ages[idx] = self.global_age;
        self.global_age = self.global_age + 1;
        idx
    }

    /// Marks idle every active slot whose envelope has finished.
    pub fn update_voice_states(&mut self, envelope_active: &[bool])
        requires
            old(self).wf(),
            envelope_active@.len() == MAX_VOICES,
        ensures
            final(self).wf(),
            final(self).spec_ages() == old(self).spec_ages(),
            final(self).spec_global_age() == old(self).spec_global_age(),
            forall|i: int|
                0 <= i < MAX_VOICES ==> (#[trigger] final(self).spec_states()[i]) == if slot_is_releasing(
                    old(self).spec_states()[i],
                    envelope_active@[i],
                ) {
                    SlotState::Idle
                } else {
                    old(self).spec_states()[i]
                },
    {
        let mut i: usize = 0;
        while i < MAX_VOICES
            invariant
                self.wf(),
                envelope_active@.len() == MAX_VOICES,
                0 <= i <= MAX_VOICES,
                self.spec_ages() == old(self).spec_ages(),
                self.spec_global_age() == old(self).spec_global_age(),
                forall|j: int|
                    0 <= j < i ==> (#[trigger] self.spec_states()[j]) == if slot_is_releasing(
                        old(self).spec_states()[j],
                        envelope_active@[j],
                    ) {
                        SlotState::Idle
                    } else {
                        old(self).spec_states()[j]
                    },
                forall|j: int| i <= j < MAX_VOICES ==> (#[trigger] self.spec_states()[j]) == old(self).spec_states()[j],
            decreases MAX_VOICES - i,
        {
            if matches!(self.states[i], SlotState::Active { .. }) && !envelope_active[i] {
                self.states[i] = SlotState::Idle;
            }
            i += 1;
        }
    }

    /// Whether `slot` is active with `note`: such slots are released by a
    /// note off of `note`. Their state stays active until the envelope ends.
    pub fn is_playing(&self, slot: usize, note: u8) -> (r: bool)
        requires
            self.wf(),
            slot < MAX_VOICES,
        ensures
            r == (self.spec_states()[slot as int] == SlotState::Active { note }),
    {
        match self.states[slot] {
            SlotState::Active { note: n } => n == note,
            SlotState::Idle => false,
        }
    }

    /// Whether `slot` is active (released by an all-notes-off).
    pub fn is_active(&self, slot: usize) -> (r: bool)
        requires
            self.wf(),
            slot < MAX_VOICES,
        ensures
            r == self.spec_states()[slot as int] is Active,
    {
        matches!(self.states[slot], SlotState::Active { .. })
    }

    /// The note of each slot, `None` for an idle one.
    pub fn voice_states(&self) -> (r: [Option<u8>; 16])
        requires
            self.wf(),
        ensures
            forall|i: int|
                0 <= i < MAX_VOICES ==> (#[trigger] r@[i]) == match self.spec_states()[i] {
                    SlotState::Active { note } => Some(note),
                    SlotState::Idle => None,
                },
    {
        let mut out: [Option<u8>; 16] = [None; 16];
        let mut i: usize = 0;
        while i < MAX_VOICES
            invariant
                self.wf(),
                0 <= i <= MAX_VOICES,
                out@.len() == MAX_VOICES,
                forall|j: int|
                    0 <= j < i ==> (#[trigger] out@[j]) == match self.spec_states()[j] {
                        SlotState::Active { note } => Some(note),
                        SlotState::Idle => None,
                    },
            decreases MAX_VOICES - i,
        {
            out[i] = match self.states[i] {
                SlotState::Active { note } => Some(note),
                SlotState::Idle => None,
            };
            i += 1;
        }
        out
    }

    /// The number of allocations made so far.
    pub fn allocations(&self) -> (r: u64)
        ensures
            r == self.spec_global_age(),
    {
        self.global_age
    }
}

} // verus!
