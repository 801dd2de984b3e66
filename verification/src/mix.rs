//! Crossfade mixing: the linear interpolation between the tail of the
//! current track and the head of the next one, computed per sample with
//! exact rational arithmetic. The fade progress is the pair
//! `num / den` with `0 <= num <= den`.

use vstd::prelude::*;

use crate::{FADE_MS, SAMPLES_PER_FRAME};

verus! {

/// The mixed sample `a * (1 - num/den) + b * (num/den)`, rounded to the
/// nearest integer (halves up), computed by shifting both samples into
/// `0..=65535` so that the division is on non-negative values.
pub open spec fn spec_mix(a: i16, b: i16, num: int, den: int) -> int {
    ((a + 32768) * (den - num) + (b + 32768) * num + den / 2) / den - 32768
}

proof fn lemma_mix_numerator_bounds(a: i16, b: i16, num: int, den: int)
    requires
        0 < den,
        0 <= num <= den,
    ensures
        0 <= (a + 32768) * (den - num) + (b + 32768) * num <= 65535 * den,
{
    assert(0 <= (a + 32768) * (den - num) <= 65535 * (den - num)) by (nonlinear_arith)
        requires 0 <= a + 32768 <= 65535 && 0 <= den - num;
    assert(0 <= (b + 32768) * num <= 65535 * num) by (nonlinear_arith)
        requires 0 <= b + 32768 <= 65535 && 0 <= num;
    assert(65535 * (den - num) + 65535 * num == 65535 * den) by (nonlinear_arith);
}

/// The mixed value always lies in the i16 range: no saturation is ever
/// needed for a convex combination of two i16 samples.
pub proof fn lemma_mix_in_range(a: i16, b: i16, num: int, den: int)
    requires
        0 < den,
        0 <= num <= den,
    ensures
        i16::MIN <= spec_mix(a, b, num, den) <= i16::MAX,
{
    let n = (a + 32768) * (den - num) + (b + 32768) * num;
    lemma_mix_numerator_bounds(a, b, num, den);
    assert(0 <= den / 2 < den);
    assert(0 <= (n + den / 2) / den <= 65535) by {
        vstd::arithmetic::div_mod::lemma_div_pos_is_pos(n + den / 2, den);
        vstd::arithmetic::div_mod::lemma_div_is_ordered(n + den / 2, den * 65535 + den / 2, den);
        vstd::arithmetic::div_mod::lemma_div_multiples_vanish_fancy(65535, den / 2, den);
        assert(65535 * den == den * 65535) by (nonlinear_arith);
    }
}

/// At fade progress 0 the mix is exactly the current sample.
pub proof fn lemma_mix_at_start(a: i16, b: i16, den: int)
    requires
        0 < den,
    ensures
        spec_mix(a, b, 0, den) == a,
{
    assert((a + 32768) * den + (b + 32768) * 0 == den * (a + 32768)) by (nonlinear_arith);
    assert(0 <= den / 2 < den);
    vstd::arithmetic::div_mod::lemma_div_multiples_vanish_fancy(a + 32768, den / 2, den);
}

/// At fade progress 1 the mix is exactly the next sample.
pub proof fn lemma_mix_at_end(a: i16, b: i16, den: int)
    requires
        0 < den,
    ensures
        spec_mix(a, b, den, den) == b,
{
    assert((a + 32768) * (den - den) + (b + 32768) * den == den * (b + 32768))
        by (nonlinear_arith);
    assert(0 <= den / 2 < den);
    vstd::arithmetic::div_mod::lemma_div_multiples_vanish_fancy(b + 32768, den / 2, den);
}

/// Mixes one sample pair at fade progress `num / den`.
pub fn mix_sample(a: i16, b: i16, num: u32, den: u32) -> (s: i16)
    requires
        0 < den <= 100000,
        num <= den,
    ensures
        s == spec_mix(a, b, num as int, den as int),
{
    let au: u64 = (a as i64 + 32768) as u64;
    let bu: u64 = (b as i64 + 32768) as u64;
    proof {
        lemma_mix_numerator_bounds(a, b, num as int, den as int);
    }
    assert(au * ((den - num) as u64) + bu * (num as u64) == (a + 32768) * (den - num) + (b
        + 32768) * num) by (nonlinear_arith)
        requires
            au == a + 32768 && bu == b + 32768 && num <= den,
    ;
    let numerator: u64 = au * ((den - num) as u64) + bu * (num as u64);
    let q: u64 = (numerator + (den as u64) / 2) / (den as u64);
    proof {
        lemma_mix_in_range(a, b, num as int, den as int);
    }
    (q as i64 - 32768) as i16
}

/// Mixes a whole frame sample by sample; both frames must have the full
/// frame length, and so does the result.
pub fn mix_frame(curr: &Vec<i16>, next: &Vec<i16>, num: u32, den: u32) -> (out: Vec<i16>)
    requires
        curr@.len() == SAMPLES_PER_FRAME,
        next@.len() == SAMPLES_PER_FRAME,
        0 < den <= 100000,
        num <= den,
    ensures
        out@.len() == SAMPLES_PER_FRAME,
        forall|i: int|
            0 <= i < SAMPLES_PER_FRAME ==> out@[i] == spec_mix(
                curr@[i],
                next@[i],
                num as int,
                den as int,
            ),
{
    let mut out: Vec<i16> = Vec::new();
    let mut i: usize = 0;
    while i < SAMPLES_PER_FRAME
        invariant
            i <= SAMPLES_PER_FRAME,
            curr@.len() == SAMPLES_PER_FRAME,
            next@.len() == SAMPLES_PER_FRAME,
            0 < den <= 100000,
            num <= den,
            out@.len() == i,
            forall|j: int|
                0 <= j < i ==> out@[j] == spec_mix(curr@[j], next@[j], num as int, den as int),
        decreases SAMPLES_PER_FRAME - i,
    {
        out.push(mix_sample(curr[i], next[i], num, den));
        i = i + 1;
    }
    out
}

/// The fade progress numerator over the denominator [`FADE_MS`]:
/// `clamp(FADE_MS - (duration - played), 0, FADE_MS)`.
pub open spec fn spec_fade_num(duration_ms: u64, played_ms: u64) -> int {
    if played_ms >= duration_ms {
        FADE_MS as int
    } else if duration_ms - played_ms >= FADE_MS {
        0
    } else {
        FADE_MS - (duration_ms - played_ms)
    }
}

/// Computes the fade progress numerator for a track of `duration_ms`
/// after `played_ms` of playback.
pub fn fade_num(duration_ms: u64, played_ms: u64) -> (n: u32)
    ensures
        n == spec_fade_num(duration_ms, played_ms),
        n <= FADE_MS,
{
    if played_ms >= duration_ms {
        FADE_MS as u32
    } else {
        let rem = duration_ms - played_ms;
        if rem >= FADE_MS {
            0
        } else {
            (FADE_MS - rem) as u32
        }
    }
}

} // verus!
