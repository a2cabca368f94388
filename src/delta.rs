use vstd::prelude::*;

verus! {

/// The normalized rating difference seen by one participant: the opponent's
/// rating minus their own, less the side advantage when they hold it and plus
/// it when the opponent does, plus the draw bias in either case.
pub open spec fn delta_spec(
    opponent_elo: int,
    current_elo: int,
    elo_advantage: int,
    elo_draw: int,
    is_advantage_camp: bool,
) -> int {
    if is_advantage_camp {
        opponent_elo - current_elo - elo_advantage + elo_draw
    } else {
        opponent_elo - current_elo + elo_advantage + elo_draw
    }
}

/// One participant's view of a pairing, in fixed-point units.
#[derive(Debug)]
pub struct Delta {
    /// Opponent Elo.
    pub opponent_elo: i64,
    /// Current Elo.
    pub current_elo: i64,
    /// Elo advantage.
    pub elo_advantage: i64,
    /// Elo draw.
    pub elo_draw: i64,
    /// The camp flag.
    pub is_advantage_camp: bool,
}

impl Delta {
    /// The normalized delta that the expectation curve is applied to.
    pub fn get_delta(&self) -> (r: i64)
        requires
            crate::fixed::in_range(self.opponent_elo as int),
            crate::fixed::in_range(self.current_elo as int),
            crate::fixed::in_range(self.elo_advantage as int),
            crate::fixed::in_range(self.elo_draw as int),
        ensures
            r == delta_spec(
                self.opponent_elo as int,
                self.current_elo as int,
                self.elo_advantage as int,
                self.elo_draw as int,
                self.is_advantage_camp,
            ),
    {
        if self.is_advantage_camp {
            self.opponent_elo - self.current_elo - self.elo_advantage + self.elo_draw
        } else {
            self.opponent_elo - self.current_elo + self.elo_advantage + self.elo_draw
        }
    }
}

} // verus!
