//! Elo ratings for balanced and unbalanced games, in fixed-point arithmetic.
//!
//! Every real quantity is an `i64` count of millionths (see [`fixed::SCALE`]).
//! The logistic expectation curve is the caller's: [`BayesElo::normalized_deltas`]
//! gives the deltas it is applied to, and [`BayesElo::calculate`] and
//! [`BayesElo::calculate_4_draw`] take the two expectations it gave.
use vstd::prelude::*;

pub mod delta;
pub mod elo;
pub mod fixed;
pub mod result_representation;

use crate::delta::{delta_spec, Delta};
use crate::elo::{rank_delta_spec, EloRankDelta};
use crate::fixed::{in_range, SCALE};
use crate::result_representation::{resolved, ActualProbability};

verus! {

/// Default sensitivity coefficient: 32.
pub const DEFAULT_K_FACTOR: i64 = 32_000_000;

/// Default side advantage: 32.8 rating points.
pub const DEFAULT_ELO_ADVANTAGE: i64 = 32_800_000;

/// Default draw bias: 97.3 rating points.
pub const DEFAULT_ELO_DRAW: i64 = 97_300_000;

/// The configuration an orchestrator holds.
pub struct EloConfig {
    pub k_factor: i64,
    pub result_duty_cycle: (i64, i64, i64),
    pub elo_advantage: i64,
    pub elo_draw: i64,
}

/// Each of the three shares is within the update arithmetic's range.
pub open spec fn shares_in_range(t: (i64, i64, i64)) -> bool {
    in_range(t.0 as int) && in_range(t.1 as int) && in_range(t.2 as int)
}

impl EloConfig {
    /// Every configured value is within the update arithmetic's range.
    pub open spec fn wf(self) -> bool {
        &&& in_range(self.k_factor as int)
        &&& shares_in_range(self.result_duty_cycle)
        &&& in_range(self.elo_advantage as int)
        &&& in_range(self.elo_draw as int)
    }

    /// The configuration a new orchestrator starts from.
    pub open spec fn initial() -> EloConfig {
        EloConfig {
            k_factor: DEFAULT_K_FACTOR,
            result_duty_cycle: resolved(ActualProbability::Default),
            elo_advantage: DEFAULT_ELO_ADVANTAGE,
            elo_draw: DEFAULT_ELO_DRAW,
        }
    }

    /// This configuration with the sensitivity coefficient replaced.
    pub open spec fn with_k_factor(self, k: i64) -> EloConfig {
        EloConfig { k_factor: k, ..self }
    }

    /// This configuration with the result shares replaced.
    pub open spec fn with_result_duty_cycle(self, t: (i64, i64, i64)) -> EloConfig {
        EloConfig { result_duty_cycle: t, ..self }
    }

    /// This configuration with the side advantage replaced.
    pub open spec fn with_elo_advantage(self, advantage: i64) -> EloConfig {
        EloConfig { elo_advantage: advantage, ..self }
    }

    /// This configuration with the draw bias replaced.
    pub open spec fn with_elo_draw(self, draw: i64) -> EloConfig {
        EloConfig { elo_draw: draw, ..self }
    }

    /// Normalized deltas of the first and of the second participant of a pairing.
    pub open spec fn deltas(self, first_elo: int, second_elo: int, is_first_advantage: bool) -> (
        int,
        int,
    ) {
        (
            delta_spec(
                second_elo,
                first_elo,
                self.elo_advantage as int,
                self.elo_draw as int,
                is_first_advantage,
            ),
            delta_spec(
                first_elo,
                second_elo,
                self.elo_advantage as int,
                self.elo_draw as int,
                !is_first_advantage,
            ),
        )
    }

    /// New ratings after a decisive result, given each side's expectation.
    pub open spec fn after_decisive(
        self,
        winner_elo: int,
        loser_elo: int,
        winner_expectation: int,
        loser_expectation: int,
    ) -> (int, int) {
        (
            winner_elo + rank_delta_spec(
                self.result_duty_cycle.0 as int,
                winner_expectation,
                self.k_factor as int,
            ),
            loser_elo + rank_delta_spec(
                self.result_duty_cycle.2 as int,
                loser_expectation,
                self.k_factor as int,
            ),
        )
    }

    /// New ratings after a draw, given each side's expectation.
    pub open spec fn after_draw(
        self,
        first_elo: int,
        second_elo: int,
        first_expectation: int,
        second_expectation: int,
    ) -> (int, int) {
        (
            first_elo + rank_delta_spec(
                self.result_duty_cycle.1 as int,
                first_expectation,
                self.k_factor as int,
            ),
            second_elo + rank_delta_spec(
                self.result_duty_cycle.1 as int,
                second_expectation,
                self.k_factor as int,
            ),
        )
    }
}

/// Rating update orchestrator: holds the sensitivity coefficient, the result
/// weighting, the side advantage and the draw bias.
pub struct BayesElo {
    k_factor: i64,
    result_duty_cycle: (i64, i64, i64),
    elo_advantage: i64,
    elo_draw: i64,
}

impl View for BayesElo {
    type V = EloConfig;

    closed spec fn view(&self) -> EloConfig {
        EloConfig {
            k_factor: self.k_factor,
            result_duty_cycle: self.result_duty_cycle,
            elo_advantage: self.elo_advantage,
            elo_draw: self.elo_draw,
        }
    }
}

/// A rank delta computed from in-range inputs stays within `2 * 10^18` units.
proof fn lemma_rank_delta_bounded(w_r: int, w_e: int, k: int)
    requires
        in_range(w_r),
        in_range(w_e),
        in_range(k),
    ensures
        -2_000_000_000_000_000_000 <= rank_delta_spec(w_r, w_e, k) <= 2_000_000_000_000_000_000,
{
    let p = k * (w_r - w_e);
    assert(-2_000_000_000_000_000_000_000_000 <= p <= 2_000_000_000_000_000_000_000_000)
        by (nonlinear_arith)
        requires
            -1_000_000_000_000 <= k <= 1_000_000_000_000,
            -2_000_000_000_000 <= w_r - w_e <= 2_000_000_000_000,
            p == k * (w_r - w_e),
    {
    }
    assert(-2_000_000_000_000_000_000 <= p / 1_000_000 <= 2_000_000_000_000_000_000)
        by (nonlinear_arith)
        requires
            -2_000_000_000_000_000_000_000_000 <= p <= 2_000_000_000_000_000_000_000_000,
    {
    }
}

/// Setting a configuration value twice with the same value leaves the same
/// configuration as setting it once.
pub proof fn lemma_setters_idempotent(
    c: EloConfig,
    k: i64,
    t: (i64, i64, i64),
    advantage: i64,
    draw: i64,
)
    ensures
        c.with_k_factor(k).with_k_factor(k) == c.with_k_factor(k),
        c.with_result_duty_cycle(t).with_result_duty_cycle(t) == c.with_result_duty_cycle(t),
        c.with_elo_advantage(advantage).with_elo_advantage(advantage) == c.with_elo_advantage(
            advantage,
        ),
        c.with_elo_draw(draw).with_elo_draw(draw) == c.with_elo_draw(draw),
{
}

/// Under the default configuration a decisive result raises the winner's rating
/// and lowers the loser's, whatever expectations strictly between nought and one
/// the curve gave.
pub proof fn lemma_default_decisive_moves_ratings(
    winner_elo: int,
    loser_elo: int,
    winner_expectation: int,
    loser_expectation: int,
)
    requires
        0 < winner_expectation < SCALE,
        0 < loser_expectation < SCALE,
    ensures
        EloConfig::initial().after_decisive(
            winner_elo,
            loser_elo,
            winner_expectation,
            loser_expectation,
        ).0 > winner_elo,
        EloConfig::initial().after_decisive(
            winner_elo,
            loser_elo,
            winner_expectation,
            loser_expectation,
        ).1 < loser_elo,
{
    let k: int = DEFAULT_K_FACTOR as int;
    let pw = k * (SCALE - winner_expectation);
    let pl = k * (0 - loser_expectation);
    assert(pw / (SCALE as int) > 0) by (nonlinear_arith)
        requires
            pw == 32_000_000 * (1_000_000 - winner_expectation),
            winner_expectation < 1_000_000,
    {
    }
    assert(pl / (SCALE as int) < 0) by (nonlinear_arith)
        requires
            pl == 32_000_000 * (0 - loser_expectation),
            0 < loser_expectation,
    {
    }
}

/// With a sensitivity coefficient of at least one, a draw lowers the rating of a
/// participant whose expectation exceeded the draw share and raises that of one
/// whose expectation fell short of it.
pub proof fn lemma_draw_moves_toward_draw_share(
    c: EloConfig,
    first_elo: int,
    second_elo: int,
    first_expectation: int,
    second_expectation: int,
)
    requires
        c.k_factor >= SCALE,
    ensures
        first_expectation > c.result_duty_cycle.1 ==> c.after_draw(
            first_elo,
            second_elo,
            first_expectation,
            second_expectation,
        ).0 < first_elo,
        second_expectation < c.result_duty_cycle.1 ==> c.after_draw(
            first_elo,
            second_elo,
            first_expectation,
            second_expectation,
        ).1 > second_elo,
{
    let k: int = c.k_factor as int;
    let share: int = c.result_duty_cycle.1 as int;
    if first_expectation > share {
        let p = k * (share - first_expectation);
        assert(p / (SCALE as int) < 0) by (nonlinear_arith)
            requires
                p == k * (share - first_expectation),
                k >= 1_000_000,
                first_expectation > share,
        {
        }
    }
    if second_expectation < share {
        let p = k * (share - second_expectation);
        assert(p / (SCALE as int) > 0) by (nonlinear_arith)
            requires
                p == k * (share - second_expectation),
                k >= 1_000_000,
                second_expectation < share,
        {
        }
    }
}

impl BayesElo {
    /// The well-formedness every orchestrator keeps: its configuration is in range.
    pub open spec fn wf(&self) -> bool {
        self@.wf()
    }

    /// Create new object.
    pub fn new() -> (r: Self)
        ensures
            r@ == EloConfig::initial(),
            r.wf(),
    {
        BayesElo {
            k_factor: DEFAULT_K_FACTOR,
            result_duty_cycle: ActualProbability::Default.into(),
            elo_advantage: DEFAULT_ELO_ADVANTAGE,
            elo_draw: DEFAULT_ELO_DRAW,
        }
    }

    /// Set K factor coefficient.
    pub fn set_k_factor(&mut self, k: i64) -> (r: i64)
        requires
            old(self).wf(),
            in_range(k as int),
        ensures
            r == k,
            final(self)@ == old(self)@.with_k_factor(k),
            final(self).wf(),
    {
        self.k_factor = k;
        self.k_factor
    }

    /// Set result duty cycle.
    pub fn set_result_duty_cycle(&mut self, actual_p: ActualProbability) -> (r: (i64, i64, i64))
        requires
            old(self).wf(),
            shares_in_range(resolved(actual_p)),
        ensures
            r == resolved(actual_p),
            final(self)@ == old(self)@.with_result_duty_cycle(resolved(actual_p)),
            final(self).wf(),
    {
        self.result_duty_cycle = actual_p.into();
        self.result_duty_cycle
    }

    /// Set elo advantage.
    pub fn set_elo_advantage(&mut self, advantage: i64) -> (r: i64)
        requires
            old(self).wf(),
            in_range(advantage as int),
        ensures
            r == advantage,
            final(self)@ == old(self)@.with_elo_advantage(advantage),
            final(self).wf(),
    {
        self.elo_advantage = advantage;
        self.elo_advantage
    }

    /// Set elo draw.
    pub fn set_elo_draw(&mut self, draw: i64) -> (r: i64)
        requires
            old(self).wf(),
            in_range(draw as int),
        ensures
            r == draw,
            final(self)@ == old(self)@.with_elo_draw(draw),
            final(self).wf(),
    {
        self.elo_draw = draw;
        self.elo_draw
    }

    /// The sensitivity coefficient.
    pub fn k_factor(&self) -> (r: i64)
        ensures
            r == self@.k_factor,
    {
        self.k_factor
    }

    /// The (win, draw, lose) shares in use.
    pub fn result_duty_cycle(&self) -> (r: (i64, i64, i64))
        ensures
            r == self@.result_duty_cycle,
    {
        self.result_duty_cycle
    }

    /// The side advantage.
    pub fn elo_advantage(&self) -> (r: i64)
        ensures
            r == self@.elo_advantage,
    {
        self.elo_advantage
    }

    /// The draw bias.
    pub fn elo_draw(&self) -> (r: i64)
        ensures
            r == self@.elo_draw,
    {
        self.elo_draw
    }

    /// first_elo - first participant's elo.
    /// second_elo - second participant's elo.
    /// is_first_advantage - if the first participant is the advantage camp.
    ///
    /// Returns the normalized deltas of the first and of the second participant,
    /// which the expectation curve is to be applied to.
    pub fn normalized_deltas(&self, first_elo: i64, second_elo: i64, is_first_advantage: bool) -> (r: (
        i64,
        i64,
    ))
        requires
            self.wf(),
            in_range(first_elo as int),
            in_range(second_elo as int),
        ensures
            (r.0 as int, r.1 as int) == self@.deltas(
                first_elo as int,
                second_elo as int,
                is_first_advantage,
            ),
    {
        let delta_4_first = Delta {
            opponent_elo: second_elo,
            current_elo: first_elo,
            elo_advantage: self.elo_advantage,
            elo_draw: self.elo_draw,
            is_advantage_camp: is_first_advantage,
        };
        let delta_4_second = Delta {
            opponent_elo: first_elo,
            current_elo: second_elo,
            elo_advantage: self.elo_advantage,
            elo_draw: self.elo_draw,
            is_advantage_camp: !is_first_advantage,
        };
        (delta_4_first.get_delta(), delta_4_second.get_delta())
    }

    /// winner_elo - winner's elo.
    /// loser_elo - loser's elo.
    /// expectations - the win expectations of the winner and of the loser, the
    /// curve applied to their normalized deltas.
    pub fn calculate(&self, winner_elo: i64, loser_elo: i64, expectations: (i64, i64)) -> (r: (
        i64,
        i64,
    ))
        requires
            self.wf(),
            in_range(winner_elo as int),
            in_range(loser_elo as int),
            in_range(expectations.0 as int),
            in_range(expectations.1 as int),
        ensures
            (r.0 as int, r.1 as int) == self@.after_decisive(
                winner_elo as int,
                loser_elo as int,
                expectations.0 as int,
                expectations.1 as int,
            ),
    {
        let winner_elo_rank_delta = EloRankDelta {
            w_r: self.result_duty_cycle.0,
            w_e: expectations.0,
            k: self.k_factor,
        };
        let loser_elo_rank_delta = EloRankDelta {
            w_r: self.result_duty_cycle.2,
            w_e: expectations.1,
            k: self.k_factor,
        };
        let dw = winner_elo_rank_delta.get_elo_rank_delta();
        let dl = loser_elo_rank_delta.get_elo_rank_delta();
        proof {
            lemma_rank_delta_bounded(
                self.result_duty_cycle.0 as int,
                expectations.0 as int,
                self.k_factor as int,
            );
            lemma_rank_delta_bounded(
                self.result_duty_cycle.2 as int,
                expectations.1 as int,
                self.k_factor as int,
            );
        }
        (winner_elo + dw, loser_elo + dl)
    }

    /// first_player_elo - first-player's elo.
    /// second_player_elo - second-player's elo.
    /// expectations - the win expectations of the first and of the second
    /// player, the curve applied to their normalized deltas.
    pub fn calculate_4_draw(
        &self,
        first_player_elo: i64,
        second_player_elo: i64,
        expectations: (i64, i64),
    ) -> (r: (i64, i64))
        requires
            self.wf(),
            in_range(first_player_elo as int),
            in_range(second_player_elo as int),
            in_range(expectations.0 as int),
            in_range(expectations.1 as int),
        ensures
            (r.0 as int, r.1 as int) == self@.after_draw(
                first_player_elo as int,
                second_player_elo as int,
                expectations.0 as int,
                expectations.1 as int,
            ),
    {
        let first_elo_rank_delta = EloRankDelta {
            w_r: self.result_duty_cycle.1,
            w_e: expectations.0,
            k: self.k_factor,
        };
        let second_elo_rank_delta = EloRankDelta {
            w_r: self.result_duty_cycle.1,
            w_e: expectations.1,
            k: self.k_factor,
        };
        let d1 = first_elo_rank_delta.get_elo_rank_delta();
        let d2 = second_elo_rank_delta.get_elo_rank_delta();
        proof {
            lemma_rank_delta_bounded(
                self.result_duty_cycle.1 as int,
                expectations.0 as int,
                self.k_factor as int,
            );
            lemma_rank_delta_bounded(
                self.result_duty_cycle.1 as int,
                expectations.1 as int,
                self.k_factor as int,
            );
        }
        (first_player_elo + d1, second_player_elo + d2)
    }
}

} // verus!
