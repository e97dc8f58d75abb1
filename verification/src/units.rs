//! Fixed-point amplitude and pitch arithmetic.
//!
//! Audio levels are integers scaled by `UNIT`: a gain of `UNIT` is unity,
//! a PCM sample of `UNIT` is full scale. Pitch ratios and playback
//! positions use the same scale, so a ratio of `UNIT` plays a sample at
//! its recorded speed.

use vstd::prelude::*;

verus! {

/// Fixed-point denominator: the integer that stands for 1.0.
pub const UNIT: u32 = 1048576;

/// Largest magnitude the amplitude helpers accept; wide enough for a
/// full mixing bus (many full-scale voices summed and scaled).
pub const AMP_LIMIT: i64 = 4398046511104;

/// Division that rounds toward zero, as float-to-int truncation would.
pub open spec fn div_tz(a: int, d: int) -> int
    recommends
        d > 0,
{
    if a >= 0 {
        a / d
    } else {
        -((-a) / d)
    }
}

/// `v` scaled by the gain `g / UNIT`, truncating toward zero.
pub open spec fn scaled(v: int, g: int) -> int {
    div_tz(v * g, UNIT as int)
}

/// Truncating division of a possibly negative amount by a positive one.
pub fn div_trunc(a: i64, d: u64) -> (r: i64)
    requires
        d > 0,
        a > i64::MIN,
        d <= i64::MAX,
    ensures
        r == div_tz(a as int, d as int),
{
    if a >= 0 {
        ((a as u64) / d) as i64
    } else {
        -((((-a) as u64) / d) as i64)
    }
}

/// A magnitude bound on truncating division: if `|a| <= m * d` then
/// `|a / d| <= m`.
pub proof fn lemma_div_tz_magnitude(a: int, d: int, m: int)
    requires
        d > 0,
        m >= 0,
        -(m * d) <= a <= m * d,
    ensures
        -m <= div_tz(a, d) <= m,
{
    assert(m * d == d * m);
    if a >= 0 {
        vstd::arithmetic::div_mod::lemma_div_is_ordered(a, m * d, d);
        vstd::arithmetic::div_mod::lemma_div_multiples_vanish(m, d);
        lemma_div_tz_le(a, d);
    } else {
        vstd::arithmetic::div_mod::lemma_div_is_ordered(-a, m * d, d);
        vstd::arithmetic::div_mod::lemma_div_multiples_vanish(m, d);
        lemma_div_tz_le(-a, d);
    }
}

/// Division of a nonnegative amount shrinks it.
pub proof fn lemma_div_tz_le(a: int, d: int)
    requires
        a >= 0,
        d > 0,
    ensures
        0 <= a / d <= a,
{
    vstd::arithmetic::div_mod::lemma_div_is_ordered_by_denominator(a, 1, d);
    vstd::arithmetic::div_mod::lemma_div_basics(a);
}

/// Truncating scaling keeps the magnitude of its input when the gain is
/// at most unity.
pub proof fn lemma_scaled_bound(v: int, g: int)
    requires
        0 <= g <= UNIT,
    ensures
        v >= 0 ==> 0 <= scaled(v, g) <= v,
        v < 0 ==> v <= scaled(v, g) <= 0,
{
    let u = UNIT as int;
    if v >= 0 {
        assert(v * g <= v * u) by (nonlinear_arith)
            requires
                v >= 0,
                g <= u,
        ;
        vstd::arithmetic::div_mod::lemma_div_is_ordered(v * g, v * u, u);
        vstd::arithmetic::div_mod::lemma_div_multiples_vanish(v, u);
        assert(v * g >= 0) by (nonlinear_arith)
            requires
                v >= 0,
                g >= 0,
        ;
        lemma_div_tz_le(v * g, u);
    } else {
        assert((-v) * g <= (-v) * u) by (nonlinear_arith)
            requires
                v < 0,
                g <= u,
        ;
        vstd::arithmetic::div_mod::lemma_div_is_ordered((-v) * g, (-v) * u, u);
        vstd::arithmetic::div_mod::lemma_div_multiples_vanish(-v, u);
        assert((-v) * g >= 0) by (nonlinear_arith)
            requires
                v < 0,
                g >= 0,
        ;
        lemma_div_tz_le((-v) * g, u);
        assert(v * g == -((-v) * g)) by (nonlinear_arith);
    }
}

/// Scale an amplitude by a gain of at most unity.
pub fn scale_amp(v: i64, g: u32) -> (r: i64)
    requires
        -AMP_LIMIT <= v <= AMP_LIMIT,
        g <= UNIT,
    ensures
        r == scaled(v as int, g as int),
        v >= 0 ==> 0 <= r <= v,
        v < 0 ==> v <= r <= 0,
{
    proof {
        lemma_scaled_bound(v as int, g as int);
        assert(v * g <= AMP_LIMIT * (UNIT as int) && -(AMP_LIMIT * (UNIT as int)) <= v * g)
            by (nonlinear_arith)
            requires
                -AMP_LIMIT <= v <= AMP_LIMIT,
                0 <= g <= UNIT,
        ;
    }
    div_trunc(v * (g as i64), UNIT as u64)
}

/// The bounded waveshaper the stacking mix mode applies: a rational
/// sigmoid `v / (1 + |v|)` in fixed point. Its output always lies
/// strictly inside the open interval `(-UNIT, UNIT)`.
pub open spec fn soft_clip_spec(v: int) -> int {
    let u = UNIT as int;
    if v >= 0 {
        (v * u) / (u + v)
    } else {
        -(((-v) * u) / (u + (-v)))
    }
}

/// The waveshaper's output lies strictly inside full scale for every
/// input, positive or negative.
pub proof fn lemma_soft_clip_bounded(v: int)
    ensures
        -(UNIT as int) < soft_clip_spec(v) < UNIT as int,
{
    if v >= 0 {
        lemma_soft_clip_in_range(v);
    } else {
        lemma_soft_clip_in_range(-v);
    }
}

proof fn lemma_soft_clip_in_range(v: int)
    requires
        v >= 0,
    ensures
        0 <= (v * (UNIT as int)) / ((UNIT as int) + v) < UNIT as int,
{
    let u = UNIT as int;
    assert(v * u >= 0) by (nonlinear_arith)
        requires
            v >= 0,
            u > 0,
    ;
    lemma_div_tz_le(v * u, u + v);
    assert(v * u < (u + v) * u) by (nonlinear_arith)
        requires
            v >= 0,
            u > 0,
    ;
    vstd::arithmetic::div_mod::lemma_multiply_divide_lt(v * u, u + v, u);
}

/// Soft clipping: always within the open unit interval, monotone with
/// the sign of its input.
pub fn soft_clip(v: i64) -> (r: i64)
    requires
        -AMP_LIMIT <= v <= AMP_LIMIT,
    ensures
        r == soft_clip_spec(v as int),
        -(UNIT as i64) < r < UNIT as i64,
        v >= 0 ==> r >= 0,
        v <= 0 ==> r <= 0,
{
    let u64unit: u64 = UNIT as u64;
    proof {
        assert(v * (UNIT as int) <= AMP_LIMIT * (UNIT as int)
            && -(AMP_LIMIT * (UNIT as int)) <= v * (UNIT as int)) by (nonlinear_arith)
            requires
                -AMP_LIMIT <= v <= AMP_LIMIT,
        ;
        if v >= 0 {
            lemma_soft_clip_in_range(v as int);
        } else {
            lemma_soft_clip_in_range(-v as int);
        }
    }
    if v >= 0 {
        ((v as u64) * u64unit / (u64unit + (v as u64))) as i64
    } else {
        let m = (-v) as u64;
        -((m * u64unit / (u64unit + m)) as i64)
    }
}

/// `2^(k/12)` in `UNIT` fixed point, for one octave of semitone steps.
pub open spec fn semitone_ratio(k: int) -> u64 {
    if k == 0 {
        1048576
    } else if k == 1 {
        1110928
    } else if k == 2 {
        1176987
    } else if k == 3 {
        1246974
    } else if k == 4 {
        1321123
    } else if k == 5 {
        1399681
    } else if k == 6 {
        1482910
    } else if k == 7 {
        1571089
    } else if k == 8 {
        1664511
    } else if k == 9 {
        1763488
    } else if k == 10 {
        1868350
    } else {
        1979448
    }
}

fn semitone_ratio_at(k: u32) -> (r: u64)
    requires
        k < 12,
    ensures
        r == semitone_ratio(k as int),
{
    if k == 0 {
        1048576
    } else if k == 1 {
        1110928
    } else if k == 2 {
        1176987
    } else if k == 3 {
        1246974
    } else if k == 4 {
        1321123
    } else if k == 5 {
        1399681
    } else if k == 6 {
        1482910
    } else if k == 7 {
        1571089
    } else if k == 8 {
        1664511
    } else if k == 9 {
        1763488
    } else if k == 10 {
        1868350
    } else {
        1979448
    }
}

/// Upper bound on any playback ratio the engine can produce.
pub const PITCH_RATIO_LIMIT: u64 = 2147483648;

/// The equal-tempered playback ratio `2^((note - root) / 12)` in `UNIT`
/// fixed point: one octave above the root doubles the ratio, one octave
/// below halves it. Notes are seven-bit values.
pub open spec fn pitch_shift(note: u8, root: u8) -> u64
    recommends
        note < 128,
        root < 128,
{
    let k = note + 132 - root;
    let oct = k / 12;
    let rem = k % 12;
    if oct >= 11 {
        semitone_ratio(rem) << ((oct - 11) as u64)
    } else {
        semitone_ratio(rem) >> ((11 - oct) as u64)
    }
}

/// Compute the playback ratio for a note against a sample's root note.
pub fn pitch_ratio_for(note: u8, root: u8) -> (r: u64)
    requires
        note < 128,
        root < 128,
    ensures
        r == pitch_shift(note, root),
        r <= PITCH_RATIO_LIMIT,
{
    let k: u32 = note as u32 + 132 - root as u32;
    let oct: u32 = k / 12;
    let rem: u32 = k % 12;
    let sr = semitone_ratio_at(rem);
    if oct >= 11 {
        let sh: u64 = (oct - 11) as u64;
        proof {
            assert(oct <= 21) by {
                assert(k <= 259);
            }
            assert(sr <= 2097152 && sh <= 10 ==> (sr << sh) <= 2147483648u64) by (bit_vector);
        }
        sr << sh
    } else {
        let sh: u64 = (11 - oct) as u64;
        proof {
            assert(sr <= 2097152 && sh <= 11 ==> (sr >> sh) <= 2147483648u64) by (bit_vector);
        }
        sr >> sh
    }
}

} // verus!
