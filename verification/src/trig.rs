//! Fixed-point trigonometry for the camera.
//!
//! Angles are binary angles: a full turn is `2^32` units, so wrapping
//! is plain modular arithmetic and a quarter turn is exactly `2^30`.
//! Sines and cosines are returned scaled by [`TRIG_SCALE`] (`2^15`)
//! and are computed with an odd polynomial over the first quarter
//! turn, every step in exact integer arithmetic, so equal angles give
//! equal results on every machine.  The polynomial is a truncated
//! sine series with the leading coefficient nudged so that the
//! quarter-turn endpoint lands exactly on `TRIG_SCALE`; its error
//! against the true sine is a few parts in ten thousand.

use vstd::prelude::*;

verus! {

use vstd::arithmetic::div_mod::{
    lemma_div_is_ordered,
    lemma_div_multiples_vanish,
    lemma_div_pos_is_pos,
    lemma_fundamental_div_mod,
    lemma_fundamental_div_mod_converse,
    lemma_mod_division_less_than_divisor,
};

/// The fixed-point scale of sine and cosine values: 2^15.
pub const TRIG_SCALE: i64 = 32768;

/// Units of a full turn: 2^32.
pub const TURN: u64 = 0x1_0000_0000;

/// Units of a quarter turn: 2^30.
pub const QUARTER_TURN: u32 = 0x4000_0000;

/// The scaled sine over the first quarter turn: `x` runs from 0 (angle
/// zero) to 32768 (a quarter turn), the result from 0 to 32768.  A
/// truncated sine series in Horner form, all divisions rounding down.
pub open spec fn spec_sin_quarter(x: int) -> int
    recommends
        0 <= x <= 32768,
{
    let x2 = (x * x) / 32768;
    let t7 = (x2 * 153) / 32768;
    let t5 = (x2 * (2611 - t7)) / 32768;
    let t3 = (x2 * (21166 - t5)) / 32768;
    (x * (51476 - t3)) / 32768
}

/// The scaled sine of any binary angle, by quadrant symmetry.
pub open spec fn spec_sin_fp(bam: u32) -> int {
    let q = bam / QUARTER_TURN;
    let t = (bam % QUARTER_TURN) / 32768;
    if q == 0 {
        spec_sin_quarter(t as int)
    } else if q == 1 {
        spec_sin_quarter(32768 - t)
    } else if q == 2 {
        -spec_sin_quarter(t as int)
    } else {
        -spec_sin_quarter(32768 - t)
    }
}

/// The scaled cosine: the sine a quarter turn ahead.
pub open spec fn spec_cos_fp(bam: u32) -> int {
    spec_sin_fp(
        if bam >= 0xC000_0000 {
            (bam - 0xC000_0000) as u32
        } else {
            (bam + QUARTER_TURN) as u32
        },
    )
}

/// An arbitrary signed angle reduced to one turn: the Euclidean
/// remainder modulo 2^32.
pub open spec fn spec_bam_of(a: int) -> u32 {
    (a % (TURN as int)) as u32
}

/// The quarter-turn polynomial stays within `[0, 51476]`.
pub proof fn lemma_sin_quarter_bounds(x: int)
    requires
        0 <= x <= 32768,
    ensures
        0 <= spec_sin_quarter(x) <= 51476,
{
    let x2 = (x * x) / 32768;
    assert(0 <= x * x <= 32768 * 32768) by (nonlinear_arith)
        requires
            0 <= x <= 32768,
    ;
    lemma_div_is_ordered(x * x, 32768int * 32768, 32768);
    lemma_div_pos_is_pos(x * x, 32768);
    lemma_div_multiples_vanish(32768, 32768);
    assert(0 <= x2 <= 32768);

    let t7 = (x2 * 153) / 32768;
    lemma_div_is_ordered(x2 * 153, 32768int * 153, 32768);
    lemma_div_pos_is_pos(x2 * 153, 32768);
    lemma_div_multiples_vanish(153, 32768);
    assert(0 <= t7 <= 153);

    let t5 = (x2 * (2611 - t7)) / 32768;
    assert(0 <= x2 * (2611 - t7) <= 32768 * 2611) by (nonlinear_arith)
        requires
            0 <= x2 <= 32768,
            0 <= t7 <= 153,
    ;
    lemma_div_is_ordered(x2 * (2611 - t7), 32768int * 2611, 32768);
    lemma_div_pos_is_pos(x2 * (2611 - t7), 32768);
    lemma_div_multiples_vanish(2611, 32768);
    assert(0 <= t5 <= 2611);

    let t3 = (x2 * (21166 - t5)) / 32768;
    assert(0 <= x2 * (21166 - t5) <= 32768 * 21166) by (nonlinear_arith)
        requires
            0 <= x2 <= 32768,
            0 <= t5 <= 2611,
    ;
    lemma_div_is_ordered(x2 * (21166 - t5), 32768int * 21166, 32768);
    lemma_div_pos_is_pos(x2 * (21166 - t5), 32768);
    lemma_div_multiples_vanish(21166, 32768);
    assert(0 <= t3 <= 21166);

    assert(0 <= x * (51476 - t3) <= 32768 * 51476) by (nonlinear_arith)
        requires
            0 <= x <= 32768,
            0 <= t3 <= 21166,
    ;
    lemma_div_is_ordered(x * (51476 - t3), 32768int * 51476, 32768);
    lemma_div_pos_is_pos(x * (51476 - t3), 32768);
    lemma_div_multiples_vanish(51476, 32768);
}

/// Scaled sine and cosine stay within `[-51476, 51476]`.
pub proof fn lemma_trig_bounds(bam: u32)
    ensures
        -51476 <= spec_sin_fp(bam) <= 51476,
        -51476 <= spec_cos_fp(bam) <= 51476,
{
    lemma_mod_division_less_than_divisor(bam as int, QUARTER_TURN as int);
    lemma_div_pos_is_pos(bam as int % (QUARTER_TURN as int), 32768);
    lemma_div_is_ordered(bam as int % (QUARTER_TURN as int), QUARTER_TURN as int - 1, 32768);
    let t = (bam % QUARTER_TURN) / 32768;
    assert(0 <= t <= 32767);
    lemma_sin_quarter_bounds(t as int);
    lemma_sin_quarter_bounds(32768 - t);
    let b2: u32 = if bam >= 0xC000_0000 {
        (bam - 0xC000_0000) as u32
    } else {
        (bam + QUARTER_TURN) as u32
    };
    lemma_mod_division_less_than_divisor(b2 as int, QUARTER_TURN as int);
    lemma_div_pos_is_pos(b2 as int % (QUARTER_TURN as int), 32768);
    lemma_div_is_ordered(b2 as int % (QUARTER_TURN as int), QUARTER_TURN as int - 1, 32768);
    let t2 = (b2 % QUARTER_TURN) / 32768;
    assert(0 <= t2 <= 32767);
    lemma_sin_quarter_bounds(t2 as int);
    lemma_sin_quarter_bounds(32768 - t2);
}

/// Runtime form of [`spec_sin_quarter`].
fn sin_quarter(x: u64) -> (r: u64)
    requires
        x <= 32768,
    ensures
        r == spec_sin_quarter(x as int),
        r <= 51476,
{
    proof {
        lemma_sin_quarter_bounds(x as int);
        assert(x * x <= 32768 * 32768) by (nonlinear_arith)
            requires
                x <= 32768,
        ;
        lemma_div_is_ordered(x as int * x as int, 32768int * 32768, 32768);
        lemma_div_pos_is_pos(x as int * x as int, 32768);
        lemma_div_multiples_vanish(32768, 32768);
    }
    let x2 = x * x / 32768;
    proof {
        lemma_div_is_ordered(x2 as int * 153, 32768int * 153, 32768);
        lemma_div_pos_is_pos(x2 as int * 153, 32768);
        lemma_div_multiples_vanish(153, 32768);
    }
    let t7 = x2 * 153 / 32768;
    proof {
        assert(x2 * (2611 - t7) <= 32768 * 2611) by (nonlinear_arith)
            requires
                x2 <= 32768,
                t7 <= 153,
        ;
        lemma_div_is_ordered(x2 as int * (2611 - t7 as int), 32768int * 2611, 32768);
        lemma_div_pos_is_pos(x2 as int * (2611 - t7 as int), 32768);
        lemma_div_multiples_vanish(2611, 32768);
    }
    let t5 = x2 * (2611 - t7) / 32768;
    proof {
        assert(x2 * (21166 - t5) <= 32768 * 21166) by (nonlinear_arith)
            requires
                x2 <= 32768,
                t5 <= 2611,
        ;
        lemma_div_is_ordered(x2 as int * (21166 - t5 as int), 32768int * 21166, 32768);
        lemma_div_pos_is_pos(x2 as int * (21166 - t5 as int), 32768);
        lemma_div_multiples_vanish(21166, 32768);
    }
    let t3 = x2 * (21166 - t5) / 32768;
    proof {
        assert(x * (51476 - t3) <= 32768 * 51476) by (nonlinear_arith)
            requires
                x <= 32768,
                t3 <= 21166,
        ;
    }
    x * (51476 - t3) / 32768
}

/// The scaled sine of a binary angle.
pub fn sin_fp(bam: u32) -> (r: i64)
    ensures
        r == spec_sin_fp(bam),
        -51476 <= r <= 51476,
{
    proof {
        lemma_trig_bounds(bam);
        lemma_mod_division_less_than_divisor(bam as int, QUARTER_TURN as int);
        lemma_div_pos_is_pos(bam as int % (QUARTER_TURN as int), 32768);
        lemma_div_is_ordered(bam as int % (QUARTER_TURN as int), QUARTER_TURN as int - 1, 32768);
    }
    let q = bam / QUARTER_TURN;
    let t = ((bam % QUARTER_TURN) / 32768) as u64;
    if q == 0 {
        sin_quarter(t) as i64
    } else if q == 1 {
        sin_quarter(32768 - t) as i64
    } else if q == 2 {
        -(sin_quarter(t) as i64)
    } else {
        -(sin_quarter(32768 - t) as i64)
    }
}

/// The scaled cosine of a binary angle.
pub fn cos_fp(bam: u32) -> (r: i64)
    ensures
        r == spec_cos_fp(bam),
        -51476 <= r <= 51476,
{
    proof {
        lemma_trig_bounds(bam);
    }
    if bam >= 0xC000_0000 {
        sin_fp(bam - 0xC000_0000)
    } else {
        sin_fp(bam + QUARTER_TURN)
    }
}

/// Reduces an arbitrary signed angle to one turn.
pub fn bam_of(a: i64) -> (r: u32)
    requires
        -0x4000_0000_0000_0000 <= a <= 0x4000_0000_0000_0000,
    ensures
        r == spec_bam_of(a as int),
{
    if a >= 0 {
        let m = (a as u64) % TURN;
        proof {
            lemma_mod_division_less_than_divisor(a as int, TURN as int);
        }
        m as u32
    } else {
        let neg = ((-a) as u64) % TURN;
        proof {
            lemma_fundamental_div_mod(-a as int, TURN as int);
            lemma_mod_division_less_than_divisor(-a as int, TURN as int);
            let q = (-a as int) / (TURN as int);
            if neg == 0 {
                lemma_fundamental_div_mod_converse(a as int, TURN as int, -q, 0);
            } else {
                lemma_fundamental_div_mod_converse(
                    a as int,
                    TURN as int,
                    -q - 1,
                    TURN as int - neg,
                );
            }
        }
        if neg == 0 {
            0
        } else {
            (TURN - neg) as u32
        }
    }
}

} // verus!
