use vstd::prelude::*;

use crate::fixed::{div_floor_scale, floor_scaled, in_range};

verus! {

/// The rating change owed for one result: `k * (w_r - w_e)`, all three in
/// fixed-point units, the product brought back to fixed point by rounding down.
pub open spec fn rank_delta_spec(w_r: int, w_e: int, k: int) -> int {
    floor_scaled(k * (w_r - w_e))
}

/// Inputs of a rank-delta computation.
#[derive(Debug)]
pub struct EloRankDelta {
    /// Actual result of the competition, as a share of a win.
    pub w_r: i64,
    /// Expected probability of a win.
    pub w_e: i64,
    /// Sensitivity coefficient (K-factor).
    pub k: i64,
}

impl EloRankDelta {
    /// `k * (w_r - w_e)`: positive when the result beat the expectation.
    pub fn get_elo_rank_delta(&self) -> (r: i64)
        requires
            in_range(self.w_r as int),
            in_range(self.w_e as int),
            in_range(self.k as int),
        ensures
            r == rank_delta_spec(self.w_r as int, self.w_e as int, self.k as int),
    {
        let diff: i128 = self.w_r as i128 - self.w_e as i128;
        assert(-2_000_000_000_000_000_000_000_000int <= self.k * diff
            <= 2_000_000_000_000_000_000_000_000int) by (nonlinear_arith)
            requires
                -1_000_000_000_000int <= self.k <= 1_000_000_000_000int,
                -2_000_000_000_000int <= diff <= 2_000_000_000_000int,
        {
        }
        let p: i128 = self.k as i128 * diff;
        let q: i128 = div_floor_scale(p);
        assert(-2_000_000_000_000_000_000int <= q <= 2_000_000_000_000_000_000int) by (nonlinear_arith)
            requires
                q == (p as int) / 1_000_000int,
                -2_000_000_000_000_000_000_000_000int <= p <= 2_000_000_000_000_000_000_000_000int,
        {
        }
        q as i64
    }
}

} // verus!
