use vstd::prelude::*;

verus! {

/// Number of fixed-point units in one whole unit: every real quantity of this
/// library (a rating, a side advantage, a draw bias, a K-factor, a result share,
/// an expectation) is an `i64` count of millionths.
pub const SCALE: i64 = 1_000_000;

/// Largest magnitude, in fixed-point units, of a configuration value or of a
/// rating handed to an update (one million whole rating points). Within it every
/// intermediate of an update fits the machine integers used.
pub const MAX_MAGNITUDE: i64 = 1_000_000_000_000;

/// A value within the magnitude the update arithmetic is sized for.
pub open spec fn in_range(x: int) -> bool {
    -MAX_MAGNITUDE <= x <= MAX_MAGNITUDE
}

/// The largest integer not above `p / SCALE` (the quotient rounded toward minus infinity).
pub open spec fn floor_scaled(p: int) -> int {
    p / (SCALE as int)
}

/// Divides by `SCALE`, rounding toward minus infinity.
pub fn div_floor_scale(p: i128) -> (r: i128)
    ensures
        r == floor_scaled(p as int),
{
    let s: i128 = SCALE as i128;
    if p >= 0 {
        p / s
    } else {
        let q: i128 = (-(p + 1)) / s;
        let r: i128 = -q - 1;
        assert(r == floor_scaled(p as int)) by (nonlinear_arith)
            requires
                q == (-(p + 1)) / 1_000_000int,
                r == -q - 1,
                p < 0,
        {
        }
        r
    }
}

} // verus!
