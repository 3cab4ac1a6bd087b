//! The attack/decay/sustain/release gain, computed exactly.
//!
//! Attack lasts 0.1 s (0 to 1), decay 0.2 s (1 to 0.7), sustain holds 0.7
//! until `0.7 * duration`, and release falls from 0.7 to 0 over the last
//! `0.3 * duration`. Regions are tested in that order, so when the note is
//! shorter than about 0.43 s release follows decay directly.
//!
//! With the sample rate `sr` in hertz and the duration `m` in milliseconds,
//! the gain of sample `i` (at `i / sr` seconds) is a fraction over
//! `300 * m * sr` whose numerator is an integer.
use vstd::prelude::*;

verus! {

/// Numerator of the gain of sample `i`, over `envelope_den(m, sr)`.
pub open spec fn envelope_num(i: int, m: int, sr: int) -> int {
    if 10 * i < sr {
        3000 * m * i
    } else if 10 * i < 3 * sr {
        345 * m * sr - 450 * m * i
    } else if 10000 * i < 7 * m * sr {
        210 * m * sr
    } else {
        700 * (m * sr - 1000 * i)
    }
}

/// Denominator of every gain for a note of `m` milliseconds at `sr` hertz.
pub open spec fn envelope_den(m: int, sr: int) -> int {
    300 * m * sr
}

/// Samples in a note: `sr * m / 1000` rounded to the nearest integer,
/// halves up.
pub open spec fn buffer_len_spec(sr: int, m: int) -> int {
    (sr * m + 500) / 1000
}

// The gain as a function of continuous time `x / (10000 * sr)` seconds,
// with numerator over `3_000_000 * m * sr`, one linear piece per region.

pub open spec fn attack_piece(x: int, m: int, sr: int) -> int {
    3000 * m * x
}

pub open spec fn decay_piece(x: int, m: int, sr: int) -> int {
    3_450_000 * m * sr - 450 * m * x
}

pub open spec fn sustain_piece(x: int, m: int, sr: int) -> int {
    2_100_000 * m * sr
}

pub open spec fn release_piece(x: int, m: int, sr: int) -> int {
    7_000_000 * m * sr - 700_000 * x
}

/// The gain at time `x / (10000 * sr)` seconds, over `3_000_000 * m * sr`.
pub open spec fn gain_at(x: int, m: int, sr: int) -> int {
    if x < 1000 * sr {
        attack_piece(x, m, sr)
    } else if x < 3000 * sr {
        decay_piece(x, m, sr)
    } else if x < 7 * m * sr {
        sustain_piece(x, m, sr)
    } else {
        release_piece(x, m, sr)
    }
}

/// Number of samples in a note of `duration_ms` at `sample_rate`.
pub fn buffer_len(sample_rate: u32, duration_ms: u32) -> (r: u64)
    ensures
        r == buffer_len_spec(sample_rate as int, duration_ms as int),
{
    proof {
        lemma_product_bound(sample_rate as int, duration_ms as int);
    }
    let p = (sample_rate as u64) * (duration_ms as u64);
    (p + 500) / 1000
}

proof fn lemma_product_bound(a: int, b: int)
    requires
        0 <= a <= 0xffff_ffff,
        0 <= b <= 0xffff_ffff,
    ensures
        0 <= a * b <= 0xffff_fffe_0000_0001,
        a * b == b * a,
{
    vstd::arithmetic::mul::lemma_mul_upper_bound(a, 0xffff_ffff, b, 0xffff_ffff);
    vstd::arithmetic::mul::lemma_mul_nonnegative(a, b);
    vstd::arithmetic::mul::lemma_mul_is_commutative(a, b);
}

proof fn lemma_gain_terms(m: int, sr: int, i: int)
    requires
        0 <= m <= 0xffff_ffff,
        0 <= sr <= 0xffff_ffff,
        0 <= i,
        i < buffer_len_spec(sr, m),
    ensures
        1000 * i < m * sr,
        0 <= m * i <= 0xffff_fffe_0000_0001 * 0xffff_ffff,
        3000 * m * i == 3000 * (m * i),
        345 * m * sr == 345 * (m * sr),
        450 * m * i == 450 * (m * i),
        210 * m * sr == 210 * (m * sr),
        7 * m * sr == 7 * (m * sr),
        300 * m * sr == 300 * (m * sr),
        10 * i < sr ==> 3000 * (m * i) <= 300 * (m * sr),
        10 * i < 3 * sr ==> 450 * (m * i) <= 135 * (m * sr),
        10 * i >= sr ==> 450 * (m * i) >= 45 * (m * sr),
{
    lemma_product_bound(sr, m);
    assert(1000 * i < m * sr) by (nonlinear_arith)
        requires
            i < (sr * m + 500) / 1000,
            sr * m == m * sr,
    ;
    assert(0 <= m * i <= 0xffff_fffe_0000_0001 * 0xffff_ffff) by (nonlinear_arith)
        requires
            0 <= m <= 0xffff_ffff,
            0 <= i,
            1000 * i < m * sr,
            m * sr <= 0xffff_fffe_0000_0001,
    ;
    assert(3000 * m * i == 3000 * (m * i)) by (nonlinear_arith);
    assert(345 * m * sr == 345 * (m * sr)) by (nonlinear_arith);
    assert(450 * m * i == 450 * (m * i)) by (nonlinear_arith);
    assert(210 * m * sr == 210 * (m * sr)) by (nonlinear_arith);
    assert(7 * m * sr == 7 * (m * sr)) by (nonlinear_arith);
    assert(300 * m * sr == 300 * (m * sr)) by (nonlinear_arith);
    assert(10 * i < sr ==> 3000 * (m * i) <= 300 * (m * sr)) by (nonlinear_arith)
        requires
            0 <= m,
    ;
    assert(10 * i < 3 * sr ==> 450 * (m * i) <= 135 * (m * sr)) by (nonlinear_arith)
        requires
            0 <= m,
    ;
    assert(10 * i >= sr ==> 450 * (m * i) >= 45 * (m * sr)) by (nonlinear_arith)
        requires
            0 <= m,
    ;
}

/// Numerator of the envelope gain of sample `i`; the denominator is
/// `envelope_scale(sample_rate, duration_ms)`.
pub fn envelope_gain(i: u64, sample_rate: u32, duration_ms: u32) -> (r: u128)
    requires
        i < buffer_len_spec(sample_rate as int, duration_ms as int),
    ensures
        r == envelope_num(i as int, duration_ms as int, sample_rate as int),
        r <= envelope_den(duration_ms as int, sample_rate as int),
{
    proof {
        lemma_product_bound(duration_ms as int, sample_rate as int);
        lemma_gain_terms(duration_ms as int, sample_rate as int, i as int);
    }
    let sr = sample_rate as u128;
    let m = duration_ms as u128;
    let i = i as u128;
    let msr = m * sr;
    let mi = m * i;
    if 10 * i < sr {
        3000 * mi
    } else if 10 * i < 3 * sr {
        345 * msr - 450 * mi
    } else if 10000 * i < 7 * msr {
        210 * msr
    } else {
        700 * (msr - 1000 * i)
    }
}

/// Denominator of every envelope gain of a note.
pub fn envelope_scale(sample_rate: u32, duration_ms: u32) -> (r: u128)
    ensures
        r == envelope_den(duration_ms as int, sample_rate as int),
{
    proof {
        lemma_product_bound(duration_ms as int, sample_rate as int);
        assert(300 * (duration_ms as int) * (sample_rate as int) == 300 * ((duration_ms as int)
            * (sample_rate as int))) by (nonlinear_arith);
    }
    let msr = (duration_ms as u128) * (sample_rate as u128);
    300 * msr
}

/// The envelope's shape. At sample `i` the gain is the continuous-time gain
/// at `i / sr` seconds. It is 0 at the start and 1 at the end of the attack,
/// holds at exactly 0.7 through the sustain region, and reaches 0 at the
/// note's end. Each pair of adjacent pieces meets at their common boundary,
/// so the gain has no jump; that needs the sustain region to begin no
/// earlier than the decay ends, i.e. a note of at least 3000/7 ms.
pub proof fn lemma_envelope_shape(m: int, sr: int)
    requires
        m > 0,
        sr > 0,
        7 * m >= 3000,
    ensures
        forall|i: int| #[trigger] envelope_num(i, m, sr) * 10000 == gain_at(10000 * i, m, sr),
        envelope_num(0, m, sr) == 0,
        gain_at(1000 * sr, m, sr) == 3_000_000 * m * sr,
        forall|x: int|
            3000 * sr <= x < 7 * m * sr ==> #[trigger] gain_at(x, m, sr) * 10 == 7 * (3_000_000
                * m * sr),
        attack_piece(1000 * sr, m, sr) == decay_piece(1000 * sr, m, sr),
        decay_piece(3000 * sr, m, sr) == sustain_piece(3000 * sr, m, sr),
        sustain_piece(7 * m * sr, m, sr) == release_piece(7 * m * sr, m, sr),
        release_piece(10 * m * sr, m, sr) == 0,
        gain_at(3000 * sr, m, sr) == sustain_piece(3000 * sr, m, sr),
        gain_at(7 * m * sr, m, sr) == release_piece(7 * m * sr, m, sr),
{
    assert(2_100_000 * m * sr * 10 == 7 * (3_000_000 * m * sr)) by (nonlinear_arith);
    assert forall|i: int| #[trigger] envelope_num(i, m, sr) * 10000 == gain_at(10000 * i, m, sr) by {
        assert(3000 * m * i * 10000 == 3000 * m * (10000 * i)) by (nonlinear_arith);
        assert((345 * m * sr - 450 * m * i) * 10000 == 3_450_000 * m * sr - 450 * m * (10000 * i))
            by (nonlinear_arith);
        assert(210 * m * sr * 10000 == 2_100_000 * m * sr) by (nonlinear_arith);
        assert(700 * (m * sr - 1000 * i) * 10000 == 7_000_000 * m * sr - 700_000 * (10000 * i))
            by (nonlinear_arith);
        assert((10 * i < sr) == (10000 * i < 1000 * sr));
        assert((10 * i < 3 * sr) == (10000 * i < 3000 * sr));
        assert((10000 * i < 7 * m * sr) == (10000 * i < 7 * m * sr));
    }
    assert(3000 * m * (1000 * sr) == 3_000_000 * m * sr) by (nonlinear_arith);
    assert(3_450_000 * m * sr - 450 * m * (1000 * sr) == 3_000_000 * m * sr) by (nonlinear_arith);
    assert(3_450_000 * m * sr - 450 * m * (3000 * sr) == 2_100_000 * m * sr) by (nonlinear_arith);
    assert(7_000_000 * m * sr - 700_000 * (7 * m * sr) == 2_100_000 * m * sr) by (nonlinear_arith);
    assert(7_000_000 * m * sr - 700_000 * (10 * m * sr) == 0) by (nonlinear_arith);
    assert(0 < 1000 * sr);
    assert(3000 * sr <= 7 * m * sr) by (nonlinear_arith)
        requires
            7 * m >= 3000,
            sr > 0,
    ;
}

} // verus!
