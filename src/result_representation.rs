use vstd::prelude::*;

use crate::fixed::SCALE;

verus! {

/// Default weights of a win, a draw and a loss: one, one half and nothing.
pub const DEFAULT_ACTUAL_PROBABILITY: (i64, i64, i64) = (1_000_000, 500_000, 0);

/// How much a win, a draw and a loss each count as achieved result, in
/// fixed-point units.
#[derive(Debug, Clone, Copy)]
pub enum ActualProbability {
    Default,
    Alternative { win: i64, draw: i64, lose: i64 },
}

/// The (win, draw, lose) triple that a policy stands for.
pub open spec fn resolved(p: ActualProbability) -> (i64, i64, i64) {
    match p {
        ActualProbability::Default => (SCALE, (SCALE / 2) as i64, 0),
        ActualProbability::Alternative { win, draw, lose } => (win, draw, lose),
    }
}

impl From<ActualProbability> for (i64, i64, i64) {
    fn from(actual_p: ActualProbability) -> (r: (i64, i64, i64))
        ensures
            r == resolved(actual_p),
    {
        match actual_p {
            ActualProbability::Default => DEFAULT_ACTUAL_PROBABILITY,
            ActualProbability::Alternative { win, draw, lose } => (win, draw, lose),
        }
    }
}

impl vstd::std_specs::convert::FromSpecImpl<ActualProbability> for (i64, i64, i64) {
    open spec fn obeys_from_spec() -> bool {
        true
    }

    open spec fn from_spec(v: ActualProbability) -> (i64, i64, i64) {
        resolved(v)
    }
}

/// Two policies are equal when they resolve to the same triple, whichever
/// variant each was written as.
impl PartialEq for ActualProbability {
    fn eq(&self, other: &Self) -> (r: bool)
        ensures
            r == (resolved(*self) == resolved(*other)),
    {
        let lhs: (i64, i64, i64) = (*self).into();
        let rhs: (i64, i64, i64) = (*other).into();
        lhs.0 == rhs.0 && lhs.1 == rhs.1 && lhs.2 == rhs.2
    }
}

impl vstd::std_specs::cmp::PartialEqSpecImpl for ActualProbability {
    open spec fn obeys_eq_spec() -> bool {
        true
    }

    open spec fn eq_spec(&self, other: &ActualProbability) -> bool {
        resolved(*self) == resolved(*other)
    }
}

} // verus!
