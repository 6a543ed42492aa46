//! Longitude units, empirical calibration and wrapping into `[0, 360)`.
//!
//! Angles are carried as micro-degrees so that the chart arithmetic is exact
//! integer arithmetic. Raw oracle longitudes are calibrated by a fixed
//! empirical offset before wrapping; derived points (such as the Part of
//! Fortune) are re-wrapped without a second application of the offset.

use vstd::prelude::*;
use vstd::arithmetic::div_mod::{
    lemma_fundamental_div_mod, lemma_fundamental_div_mod_converse_mod,
    lemma_mod_add_multiples_vanish, lemma_mod_division_less_than_divisor,
};

verus! {

/// Micro-degrees per degree: every longitude in this crate is scaled by this.
pub const MICRO_PER_DEGREE: i64 = 1_000_000;

/// A full circle, in micro-degrees.
pub const FULL_CIRCLE: i64 = 360_000_000;

/// Empirical calibration, in micro-degrees: a fixed offset (one degree down)
/// applied to every raw oracle longitude -- planets, house cusps, ascendant,
/// midheaven and vertex -- tuned against a reference authority's output. It is
/// deliberately a single named constant; do not re-derive it.
pub const CALIBRATION_OFFSET_MICRO: i64 = -1_000_000;

/// Largest raw magnitude the exec wrappers accept; raw oracle longitudes are
/// far below this.
pub const MAX_RAW_MAGNITUDE: i64 = 0x1000_0000_0000;

/// Wraps an angle into `[0, 360)` degrees (micro-degree scale), with no
/// calibration. Spec `%` is Euclidean, so the result is non-negative.
pub open spec fn wrap_spec(x: int) -> int {
    x % (FULL_CIRCLE as int)
}

/// The calibrated normal form of a raw oracle longitude.
pub open spec fn norm_spec(x: int) -> int {
    wrap_spec(x + CALIBRATION_OFFSET_MICRO)
}

/// Wrapping lands in `[0, 360)` degrees, for every integer angle.
pub proof fn lemma_wrap_range(x: int)
    ensures
        0 <= wrap_spec(x) < FULL_CIRCLE,
{
    lemma_mod_division_less_than_divisor(x, FULL_CIRCLE as int);
}

/// Wrapping is periodic: a full turn more wraps to the same angle.
pub proof fn lemma_wrap_periodic(x: int)
    ensures
        wrap_spec(x + FULL_CIRCLE) == wrap_spec(x),
{
    lemma_mod_add_multiples_vanish(x, FULL_CIRCLE as int);
}

/// Normalization lands in `[0, 360)` degrees, for every integer angle.
pub proof fn lemma_normalize_range(x: int)
    ensures
        0 <= norm_spec(x) < FULL_CIRCLE,
{
    lemma_wrap_range(x + CALIBRATION_OFFSET_MICRO);
}

/// Normalization is periodic: `normalize(x + 360) == normalize(x)`.
pub proof fn lemma_normalize_periodic(x: int)
    ensures
        norm_spec(x + FULL_CIRCLE) == norm_spec(x),
{
    lemma_wrap_periodic(x + CALIBRATION_OFFSET_MICRO);
}

/// Wraps `x` into `[0, 360)` degrees without applying the calibration offset.
pub fn wrap_longitude(x: i64) -> (r: u32)
    requires
        -2 * MAX_RAW_MAGNITUDE <= x <= 2 * MAX_RAW_MAGNITUDE,
    ensures
        r == wrap_spec(x as int),
        r < FULL_CIRCLE,
{
    proof {
        lemma_wrap_range(x as int);
    }
    if x >= 0 {
        let q: i64 = x / FULL_CIRCLE;
        let m: i64 = x % FULL_CIRCLE;
        proof {
            lemma_fundamental_div_mod(x as int, FULL_CIRCLE as int);
        }
        m as u32
    } else {
        let neg: i64 = -x;
        let q: i64 = neg / FULL_CIRCLE;
        let m: i64 = neg % FULL_CIRCLE;
        proof {
            lemma_fundamental_div_mod(neg as int, FULL_CIRCLE as int);
            lemma_mod_division_less_than_divisor(neg as int, FULL_CIRCLE as int);
            if m == 0 {
                lemma_fundamental_div_mod_converse_mod(x as int, FULL_CIRCLE as int, -q as int, 0);
            } else {
                lemma_fundamental_div_mod_converse_mod(
                    x as int,
                    FULL_CIRCLE as int,
                    (-q - 1) as int,
                    (FULL_CIRCLE - m) as int,
                );
            }
        }
        if m == 0 {
            0
        } else {
            (FULL_CIRCLE - m) as u32
        }
    }
}

/// Applies the calibration offset to a raw oracle longitude and wraps the
/// result into `[0, 360)` degrees.
pub fn normalize_longitude(raw: i64) -> (r: u32)
    requires
        -MAX_RAW_MAGNITUDE <= raw <= MAX_RAW_MAGNITUDE,
    ensures
        r == norm_spec(raw as int),
        r < FULL_CIRCLE,
{
    wrap_longitude(raw + CALIBRATION_OFFSET_MICRO)
}

} // verus!
