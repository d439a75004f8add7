use vstd::prelude::*;

verus! {

/// Sample rate at which the canonical reverb delay lengths are given.
pub const REFERENCE_RATE: u64 = 44100;

/// Canonical comb-filter delays, in samples at the reference rate.
pub const COMB_BASE_DELAYS: [u64; 8] = [1557, 1617, 1491, 1422, 1277, 1356, 1188, 1116];

/// Canonical all-pass delays, in samples at the reference rate.
pub const ALLPASS_BASE_DELAYS: [u64; 4] = [225, 556, 441, 341];

/// `base * sample_rate / 44100` rounded to the nearest sample (halves
/// up), and at least one sample.
pub open spec fn scaled_delay_spec(base: int, sample_rate: int) -> int {
    let d = (base * sample_rate + REFERENCE_RATE / 2) / REFERENCE_RATE as int;
    if d < 1 {
        1
    } else {
        d
    }
}

/// Length of a delay line of `base` reference samples at `sample_rate`.
pub fn scaled_delay(base: u64, sample_rate: u32) -> (r: u64)
    requires
        base <= 100_000,
    ensures
        r as int == scaled_delay_spec(base as int, sample_rate as int),
        r >= 1,
{
    proof {
        assert(base * sample_rate <= 100_000 * 0xffff_ffff) by (nonlinear_arith)
            requires
                base <= 100_000,
                sample_rate <= 0xffff_ffff,
        {
        }
    }
    let d: u64 = (base * sample_rate as u64 + REFERENCE_RATE / 2) / REFERENCE_RATE;
    proof {
        assert(d <= 100_000 * 0xffff_ffffu64 / 44100 + 1) by (nonlinear_arith)
            requires
                d == (base * sample_rate + 22050) / 44100,
                base * sample_rate <= 100_000 * 0xffff_ffff,
        {
        }
    }
    if d < 1 {
        1
    } else {
        d
    }
}

/// Delay lengths of the eight comb filters at `sample_rate`.
pub fn comb_delays(sample_rate: u32) -> (r: [u64; 8])
    ensures
        forall|i: int| 0 <= i < 8 ==> (#[trigger] r@[i]) as int == scaled_delay_spec(
            COMB_BASE_DELAYS@[i] as int,
            sample_rate as int,
        ),
{
    let mut out: [u64; 8] = [1; 8];
    let mut i: usize = 0;
    while i < 8
        invariant
            0 <= i <= 8,
            out@.len() == 8,
            forall|j: int| 0 <= j < i ==> (#[trigger] out@[j]) as int == scaled_delay_spec(
                COMB_BASE_DELAYS@[j] as int,
                sample_rate as int,
            ),
        decreases 8 - i,
    {
        let base = COMB_BASE_DELAYS[i];
        out[i] = scaled_delay(base, sample_rate);
        i = i + 1;
    }
    out
}

/// Delay lengths of the four all-pass filters at `sample_rate`.
pub fn allpass_delays(sample_rate: u32) -> (r: [u64; 4])
    ensures
        forall|i: int| 0 <= i < 4 ==> (#[trigger] r@[i]) as int == scaled_delay_spec(
            ALLPASS_BASE_DELAYS@[i] as int,
            sample_rate as int,
        ),
{
    let mut out: [u64; 4] = [1; 4];
    let mut i: usize = 0;
    while i < 4
        invariant
            0 <= i <= 4,
            out@.len() == 4,
            forall|j: int| 0 <= j < i ==> (#[trigger] out@[j]) as int == scaled_delay_spec(
                ALLPASS_BASE_DELAYS@[j] as int,
                sample_rate as int,
            ),
        decreases 4 - i,
    {
        let base = ALLPASS_BASE_DELAYS[i];
        out[i] = scaled_delay(base, sample_rate);
        i = i + 1;
    }
    out
}

/// The position after `index` in a circular buffer of `len` samples.
pub fn advance_index(index: usize, len: usize) -> (r: usize)
    requires
        index < len,
    ensures
        r < len,
        r == (index + 1) % (len as int),
{
    if index + 1 == len {
        proof {
            vstd::arithmetic::div_mod::lemma_mod_self_0(len as int);
        }
        0
    } else {
        proof {
            vstd::arithmetic::div_mod::lemma_small_mod((index + 1) as nat, len as nat);
        }
        index + 1
    }
}

} // verus!
