use vstd::prelude::*;

verus! {

/// Stage of an ADSR envelope. Ramping stages count the samples already
/// spent in them.
#[derive(Debug, Clone, Copy, PartialEq, Eq, Structural)]
pub enum EnvelopeState {
    Idle,
    Attack { elapsed: u64 },
    Decay { elapsed: u64 },
    Sustain,
    Release { elapsed: u64 },
}

/// What the envelope level is at one sample. A ramp at `elapsed` of
/// `total` samples has `elapsed < total`, so its progress lies in [0, 1).
#[derive(Debug, Clone, Copy, PartialEq, Eq, Structural)]
pub enum Segment {
    /// Level 0.
    Silent,
    /// Level `elapsed / total`, rising from 0 to 1.
    Rising { elapsed: u64, total: u64 },
    /// Level 1: the attack has just completed.
    Peak,
    /// Level `1 - (elapsed / total) * (1 - sustain)`.
    Falling { elapsed: u64, total: u64 },
    /// Level equal to the sustain level.
    Sustaining,
    /// Level `release_level * (1 - elapsed / total)`, where `release_level`
    /// is the level held when the note was released.
    Releasing { elapsed: u64, total: u64 },
}

/// Timing of an ADSR envelope in samples: the state machine of attack,
/// decay, sustain and release. The caller turns each `Segment` into a
/// level.
pub struct EnvelopeStages {
    pub state: EnvelopeState,
    pub attack_samples: u64,
    pub decay_samples: u64,
    pub release_samples: u64,
}

/// The state after one sample and the segment of that sample.
pub open spec fn step_spec(s: EnvelopeState, a: u64, d: u64, r: u64) -> (EnvelopeState, Segment) {
    match s {
        EnvelopeState::Idle => (EnvelopeState::Idle, Segment::Silent),
        EnvelopeState::Attack { elapsed } => if elapsed >= a {
            (EnvelopeState::Decay { elapsed: 1 }, Segment::Peak)
        } else {
            (EnvelopeState::Attack { elapsed: (elapsed + 1) as u64 }, Segment::Rising { elapsed, total: a })
        },
        EnvelopeState::Decay { elapsed } => if elapsed >= d {
            (EnvelopeState::Sustain, Segment::Sustaining)
        } else {
            (EnvelopeState::Decay { elapsed: (elapsed + 1) as u64 }, Segment::Falling { elapsed, total: d })
        },
        EnvelopeState::Sustain => (EnvelopeState::Sustain, Segment::Sustaining),
        EnvelopeState::Release { elapsed } => if elapsed >= r {
            (EnvelopeState::Idle, Segment::Silent)
        } else {
            (EnvelopeState::Release { elapsed: (elapsed + 1) as u64 }, Segment::Releasing { elapsed, total: r })
        },
    }
}

/// The state after `k` samples with no note on or off in between.
pub open spec fn run_spec(s: EnvelopeState, a: u64, d: u64, r: u64, k: nat) -> EnvelopeState
    decreases k,
{
    if k == 0 {
        s
    } else {
        run_spec(step_spec(s, a, d, r).0, a, d, r, (k - 1) as nat)
    }
}

/// Whether every ramp segment has its progress in [0, 1).
pub open spec fn segment_in_range(g: Segment) -> bool {
    match g {
        Segment::Rising { elapsed, total } => elapsed < total,
        Segment::Falling { elapsed, total } => elapsed < total,
        Segment::Releasing { elapsed, total } => elapsed < total,
        _ => true,
    }
}

impl EnvelopeStages {
    /// An idle envelope with the given stage lengths in samples.
    pub fn new(attack_samples: u64, decay_samples: u64, release_samples: u64) -> (r: Self)
        ensures
            r.state == EnvelopeState::Idle,
            r.attack_samples == attack_samples,
            r.decay_samples == decay_samples,
            r.release_samples == release_samples,
    {
        EnvelopeStages { state: EnvelopeState::Idle, attack_samples, decay_samples, release_samples }
    }

    /// Sets the stage lengths; a ramp in progress continues against the new length.
    pub fn set_times(&mut self, attack_samples: u64, decay_samples: u64, release_samples: u64)
        ensures
            final(self).state == old(self).state,
            final(self).attack_samples == attack_samples,
            final(self).decay_samples == decay_samples,
            final(self).release_samples == release_samples,
    {
        self.attack_samples = attack_samples;
        self.decay_samples = decay_samples;
        self.release_samples = release_samples;
    }

    /// Starts the attack from its first sample.
    pub fn note_on(&mut self)
        ensures
            final(self).state == (EnvelopeState::Attack { elapsed: 0 }),
            final(self).attack_samples == old(self).attack_samples,
            final(self).decay_samples == old(self).decay_samples,
            final(self).release_samples == old(self).release_samples,
    {
        self.state = EnvelopeState::Attack { elapsed: 0 };
    }

    /// Starts the release from its first sample; the caller keeps the
    /// level reached so far as the release level. An idle envelope stays
    /// idle.
    pub fn note_off(&mut self)
        ensures
            final(self).state == if old(self).state is Idle {
                EnvelopeState::Idle
            } else {
                EnvelopeState::Release { elapsed: 0 }
            },
            final(self).attack_samples == old(self).attack_samples,
            final(self).decay_samples == old(self).decay_samples,
            final(self).release_samples == old(self).release_samples,
    {
        if !matches!(self.state, EnvelopeState::Idle) {
            self.state = EnvelopeState::Release { elapsed: 0 };
        }
    }

    /// Whether the envelope is in any stage but idle.
    pub fn is_active(&self) -> (r: bool)
        ensures
            r == !(self.state is Idle),
    {
        !matches!(self.state, EnvelopeState::Idle)
    }

    /// Returns to idle at once.
    pub fn reset(&mut self)
        ensures
            final(self).state == EnvelopeState::Idle,
            final(self).attack_samples == old(self).attack_samples,
            final(self).decay_samples == old(self).decay_samples,
            final(self).release_samples == old(self).release_samples,
    {
        self.state = EnvelopeState::Idle;
    }

    /// Advances by one sample and tells which segment that sample lies on.
    pub fn next_segment(&mut self) -> (g: Segment)
        ensures
            (final(self).state, g) == step_spec(
                old(self).state,
                old(self).attack_samples,
                old(self).decay_samples,
                old(self).release_samples,
            ),
            final(self).attack_samples == old(self).attack_samples,
            final(self).decay_samples == old(self).decay_samples,
            final(self).release_samples == old(self).release_samples,
            segment_in_range(g),
    {
        match self.state {
            EnvelopeState::Idle => Segment::Silent,
            EnvelopeState::Attack { elapsed } => {
                if elapsed >= self.attack_samples {
                    self.state = EnvelopeState::Decay { elapsed: 1 };
                    Segment::Peak
                } else {
                    self.state = EnvelopeState::Attack { elapsed: elapsed + 1 };
                    Segment::Rising { elapsed, total: self.attack_samples }
                }
            },
            EnvelopeState::Decay { elapsed } => {
                if elapsed >= self.decay_samples {
                    self.state = EnvelopeState::Sustain;
                    Segment::Sustaining
                } else {
                    self.state = EnvelopeState::Decay { elapsed: elapsed + 1 };
                    Segment::Falling { elapsed, total: self.decay_samples }
                }
            },
            EnvelopeState::Sustain => Segment::Sustaining,
            EnvelopeState::Release { elapsed } => {
                if elapsed >= self.release_samples {
                    self.state = EnvelopeState::Idle;
                    Segment::Silent
                } else {
                    self.state = EnvelopeState::Release { elapsed: elapsed + 1 };
                    Segment::Releasing { elapsed, total: self.release_samples }
                }
            },
        }
    }
}

/// An idle envelope stays idle until the next note on.
pub proof fn lemma_idle_stays_idle(a: u64, d: u64, r: u64, k: nat)
    ensures
        run_spec(EnvelopeState::Idle, a, d, r, k) == EnvelopeState::Idle,
    decreases k,
{
    if k > 0 {
        lemma_idle_stays_idle(a, d, r, (k - 1) as nat);
    }
}

/// From `elapsed` samples into a release of `r` samples, the envelope is
/// idle after `r - elapsed + 1` more samples.
pub proof fn lemma_release_ends(elapsed: u64, a: u64, d: u64, r: u64)
    requires
        elapsed <= r,
    ensures
        run_spec(EnvelopeState::Release { elapsed }, a, d, r, (r - elapsed + 1) as nat) == EnvelopeState::Idle,
    decreases r - elapsed,
{
    if elapsed < r {
        lemma_release_ends((elapsed + 1) as u64, a, d, r);
        assert(step_spec(EnvelopeState::Release { elapsed }, a, d, r).0 == EnvelopeState::Release { elapsed: (elapsed + 1) as u64 });
    } else {
        assert(run_spec(EnvelopeState::Idle, a, d, r, 0) == EnvelopeState::Idle);
    }
}

proof fn lemma_run_split(s: EnvelopeState, a: u64, d: u64, r: u64, k1: nat, k2: nat)
    ensures
        run_spec(s, a, d, r, k1 + k2) == run_spec(run_spec(s, a, d, r, k1), a, d, r, k2),
    decreases k1,
{
    if k1 > 0 {
        lemma_run_split(step_spec(s, a, d, r).0, a, d, r, (k1 - 1) as nat, k2);
        assert((k1 + k2 - 1) as nat == ((k1 - 1) as nat + k2) as nat);
    }
}

/// After the last note off, an envelope whose release lasts `r` samples is
/// inactive once `r + 1` samples have passed (so within the attack, decay
/// and release lengths plus one), and stays so.
pub proof fn lemma_inactive_after_note_off(a: u64, d: u64, r: u64, k: nat)
    requires
        k >= r + 1,
    ensures
        run_spec(EnvelopeState::Release { elapsed: 0 }, a, d, r, k) == EnvelopeState::Idle,
{
    lemma_release_ends(0, a, d, r);
    lemma_run_split(EnvelopeState::Release { elapsed: 0 }, a, d, r, (r + 1) as nat, (k - (r + 1)) as nat);
    lemma_idle_stays_idle(a, d, r, (k - (r + 1)) as nat);
}

} // verus!
