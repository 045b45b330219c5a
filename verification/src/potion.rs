//! The potion catalog: ten kinds, each with the points it costs, the
//! points it earns and the weight with which it turns up in orders.

use crate::points::MixologyPoints;
use vstd::prelude::*;

verus! {

/// The number of potion kinds in the catalog.
pub const KIND_COUNT: usize = 10;

/// The sum of the sampling weights of all kinds.
pub const TOTAL_WEIGHT: u8 = 42;

/// A potion kind, named by the three letters of its recipe: each letter
/// stands for ten input points on the axis of that letter.
///
/// The kinds are listed from the least to the most valuable; that order is
/// their rank.
#[derive(Clone, Copy, Debug, PartialEq, Eq, PartialOrd, Ord, Hash, Structural)]
pub enum MixologyPotion {
    AAA,
    MMM,
    LLL,
    AAM,
    AAL,
    MMA,
    MML,
    LLA,
    LLM,
    MAL,
}

impl MixologyPotion {
    /// Every kind once, from the lowest rank to the highest.
    pub open spec fn catalog() -> Seq<MixologyPotion> {
        seq![
            MixologyPotion::AAA,
            MixologyPotion::MMM,
            MixologyPotion::LLL,
            MixologyPotion::AAM,
            MixologyPotion::AAL,
            MixologyPotion::MMA,
            MixologyPotion::MML,
            MixologyPotion::LLA,
            MixologyPotion::LLM,
            MixologyPotion::MAL,
        ]
    }

    /// The position of this kind in the catalog.
    pub open spec fn spec_rank(&self) -> usize {
        match self {
            MixologyPotion::AAA => 0,
            MixologyPotion::MMM => 1,
            MixologyPotion::LLL => 2,
            MixologyPotion::AAM => 3,
            MixologyPotion::AAL => 4,
            MixologyPotion::MMA => 5,
            MixologyPotion::MML => 6,
            MixologyPotion::LLA => 7,
            MixologyPotion::LLM => 8,
            MixologyPotion::MAL => 9,
        }
    }

    /// The input points that one potion of this kind costs.
    pub open spec fn spec_input_points(&self) -> MixologyPoints {
        match self {
            MixologyPotion::MMM => MixologyPoints { M: 30, A: 0, L: 0 },
            MixologyPotion::AAA => MixologyPoints { M: 0, A: 30, L: 0 },
            MixologyPotion::LLL => MixologyPoints { M: 0, A: 0, L: 30 },
            MixologyPotion::MMA => MixologyPoints { M: 20, A: 10, L: 0 },
            MixologyPotion::MML => MixologyPoints { M: 20, A: 0, L: 10 },
            MixologyPotion::AAM => MixologyPoints { M: 10, A: 20, L: 0 },
            MixologyPotion::AAL => MixologyPoints { M: 0, A: 20, L: 10 },
            MixologyPotion::LLM => MixologyPoints { M: 10, A: 0, L: 20 },
            MixologyPotion::LLA => MixologyPoints { M: 0, A: 10, L: 20 },
            MixologyPotion::MAL => MixologyPoints { M: 10, A: 10, L: 10 },
        }
    }

    /// The output points that one potion of this kind earns, before any
    /// bonus.
    pub open spec fn spec_output_points(&self) -> MixologyPoints {
        match self {
            MixologyPotion::MMM => MixologyPoints { M: 20, A: 0, L: 0 },
            MixologyPotion::AAA => MixologyPoints { M: 0, A: 20, L: 0 },
            MixologyPotion::LLL => MixologyPoints { M: 0, A: 0, L: 20 },
            MixologyPotion::MMA => MixologyPoints { M: 20, A: 10, L: 0 },
            MixologyPotion::MML => MixologyPoints { M: 20, A: 0, L: 10 },
            MixologyPotion::AAM => MixologyPoints { M: 10, A: 20, L: 0 },
            MixologyPotion::AAL => MixologyPoints { M: 0, A: 20, L: 10 },
            MixologyPotion::LLM => MixologyPoints { M: 10, A: 0, L: 20 },
            MixologyPotion::LLA => MixologyPoints { M: 0, A: 10, L: 20 },
            MixologyPotion::MAL => MixologyPoints { M: 20, A: 20, L: 20 },
        }
    }

    /// How often this kind turns up in orders, relative to the other kinds.
    pub open spec fn spec_weight(&self) -> u8 {
        match self {
            MixologyPotion::MMM => 5,
            MixologyPotion::AAA => 5,
            MixologyPotion::LLL => 5,
            MixologyPotion::MMA => 4,
            MixologyPotion::MML => 4,
            MixologyPotion::AAM => 4,
            MixologyPotion::AAL => 4,
            MixologyPotion::LLM => 4,
            MixologyPotion::LLA => 4,
            MixologyPotion::MAL => 3,
        }
    }

    /// Whether this kind is one letter three times: `MMM`, `AAA` or `LLL`.
    pub open spec fn spec_is_single_letter(&self) -> bool {
        *self == MixologyPotion::MMM || *self == MixologyPotion::AAA || *self
            == MixologyPotion::LLL
    }

    /// The weights of all kinds, in catalog order.
    pub open spec fn catalog_weights() -> Seq<u8> {
        Seq::new(KIND_COUNT as nat, |i: int| Self::catalog()[i].spec_weight())
    }

    /// The position of this kind in the catalog.
    #[verifier::when_used_as_spec(spec_rank)]
    pub fn rank(&self) -> (rank: usize)
        ensures
            rank == self.spec_rank(),
            rank < KIND_COUNT,
    {
        match self {
            MixologyPotion::AAA => 0,
            MixologyPotion::MMM => 1,
            MixologyPotion::LLL => 2,
            MixologyPotion::AAM => 3,
            MixologyPotion::AAL => 4,
            MixologyPotion::MMA => 5,
            MixologyPotion::MML => 6,
            MixologyPotion::LLA => 7,
            MixologyPotion::LLM => 8,
            MixologyPotion::MAL => 9,
        }
    }

    /// The kind at position `rank` of the catalog, if there is one.
    pub fn from_rank(rank: usize) -> (res: Option<MixologyPotion>)
        ensures
            rank < KIND_COUNT ==> res == Some(Self::catalog()[rank as int]),
            rank >= KIND_COUNT ==> res is None,
    {
        match rank {
            0 => Some(MixologyPotion::AAA),
            1 => Some(MixologyPotion::MMM),
            2 => Some(MixologyPotion::LLL),
            3 => Some(MixologyPotion::AAM),
            4 => Some(MixologyPotion::AAL),
            5 => Some(MixologyPotion::MMA),
            6 => Some(MixologyPotion::MML),
            7 => Some(MixologyPotion::LLA),
            8 => Some(MixologyPotion::LLM),
            9 => Some(MixologyPotion::MAL),
            _ => None,
        }
    }

    /// Every kind once, from the lowest rank to the highest.
    pub fn all() -> (kinds: Vec<MixologyPotion>)
        ensures
            kinds@ == Self::catalog(),
    {
        let kinds = vec![
            MixologyPotion::AAA,
            MixologyPotion::MMM,
            MixologyPotion::LLL,
            MixologyPotion::AAM,
            MixologyPotion::AAL,
            MixologyPotion::MMA,
            MixologyPotion::MML,
            MixologyPotion::LLA,
            MixologyPotion::LLM,
            MixologyPotion::MAL,
        ];
        assert(kinds@ =~= Self::catalog());
        kinds
    }

    /// The input points that one potion of this kind costs.
    #[verifier::when_used_as_spec(spec_input_points)]
    pub fn input_points(&self) -> (points: MixologyPoints)
        ensures
            points == self.spec_input_points(),
    {
        match self {
            MixologyPotion::MMM => MixologyPoints { M: 30, A: 0, L: 0 },
            MixologyPotion::AAA => MixologyPoints { M: 0, A: 30, L: 0 },
            MixologyPotion::LLL => MixologyPoints { M: 0, A: 0, L: 30 },
            MixologyPotion::MMA => MixologyPoints { M: 20, A: 10, L: 0 },
            MixologyPotion::MML => MixologyPoints { M: 20, A: 0, L: 10 },
            MixologyPotion::AAM => MixologyPoints { M: 10, A: 20, L: 0 },
            MixologyPotion::AAL => MixologyPoints { M: 0, A: 20, L: 10 },
            MixologyPotion::LLM => MixologyPoints { M: 10, A: 0, L: 20 },
            MixologyPotion::LLA => MixologyPoints { M: 0, A: 10, L: 20 },
            MixologyPotion::MAL => MixologyPoints { M: 10, A: 10, L: 10 },
        }
    }

    /// The output points that one potion of this kind earns, before any
    /// bonus.
    #[verifier::when_used_as_spec(spec_output_points)]
    pub fn output_points(&self) -> (points: MixologyPoints)
        ensures
            points == self.spec_output_points(),
    {
        match self {
            MixologyPotion::MMM => MixologyPoints { M: 20, A: 0, L: 0 },
            MixologyPotion::AAA => MixologyPoints { M: 0, A: 20, L: 0 },
            MixologyPotion::LLL => MixologyPoints { M: 0, A: 0, L: 20 },
            MixologyPotion::MMA => MixologyPoints { M: 20, A: 10, L: 0 },
            MixologyPotion::MML => MixologyPoints { M: 20, A: 0, L: 10 },
            MixologyPotion::AAM => MixologyPoints { M: 10, A: 20, L: 0 },
            MixologyPotion::AAL => MixologyPoints { M: 0, A: 20, L: 10 },
            MixologyPotion::LLM => MixologyPoints { M: 10, A: 0, L: 20 },
            MixologyPotion::LLA => MixologyPoints { M: 0, A: 10, L: 20 },
            MixologyPotion::MAL => MixologyPoints { M: 20, A: 20, L: 20 },
        }
    }

    /// How often this kind turns up in orders, relative to the other kinds.
    #[verifier::when_used_as_spec(spec_weight)]
    pub fn weight(&self) -> (weight: u8)
        ensures
            weight == self.spec_weight(),
    {
        match self {
            MixologyPotion::MMM => 5,
            MixologyPotion::AAA => 5,
            MixologyPotion::LLL => 5,
            MixologyPotion::MMA => 4,
            MixologyPotion::MML => 4,
            MixologyPotion::AAM => 4,
            MixologyPotion::AAL => 4,
            MixologyPotion::LLM => 4,
            MixologyPotion::LLA => 4,
            MixologyPotion::MAL => 3,
        }
    }

    /// Whether this kind is one letter three times: `MMM`, `AAA` or `LLL`.
    #[verifier::when_used_as_spec(spec_is_single_letter)]
    pub fn is_single_letter(&self) -> (single: bool)
        ensures
            single == self.spec_is_single_letter(),
    {
        *self == MixologyPotion::MMM || *self == MixologyPotion::AAA || *self
            == MixologyPotion::LLL
    }
}

/// The catalog lists each kind exactly once, at the position of its rank.
pub proof fn lemma_catalog_is_ranked(kind: MixologyPotion, position: int)
    ensures
        MixologyPotion::catalog().len() == KIND_COUNT,
        kind.rank() < KIND_COUNT,
        MixologyPotion::catalog()[kind.rank() as int] == kind,
        0 <= position < KIND_COUNT ==> MixologyPotion::catalog()[position].rank() == position,
{
}

/// The sum of the weights of `kinds`.
pub open spec fn weight_sum(kinds: Seq<MixologyPotion>) -> nat
    decreases kinds.len(),
{
    if kinds.len() == 0 {
        0
    } else {
        weight_sum(kinds.drop_last()) + kinds.last().weight() as nat
    }
}

/// Every kind has a positive weight, and the weights of the catalog add up
/// to `TOTAL_WEIGHT`.
pub proof fn lemma_catalog_weights(kind: MixologyPotion)
    ensures
        0 < kind.weight() <= 5,
        MixologyPotion::catalog_weights().len() == KIND_COUNT,
        MixologyPotion::catalog_weights()[kind.rank() as int] == kind.weight(),
        weight_sum(MixologyPotion::catalog()) == TOTAL_WEIGHT,
{
    lemma_catalog_is_ranked(kind, 0);
    let c = MixologyPotion::catalog();
    let c9 = c.drop_last();
    let c8 = c9.drop_last();
    let c7 = c8.drop_last();
    let c6 = c7.drop_last();
    let c5 = c6.drop_last();
    let c4 = c5.drop_last();
    let c3 = c4.drop_last();
    let c2 = c3.drop_last();
    let c1 = c2.drop_last();
    let c0 = c1.drop_last();
    assert(weight_sum(c0) == 0);
    assert(weight_sum(c1) == 5);
    assert(weight_sum(c2) == 10);
    assert(weight_sum(c3) == 15);
    assert(weight_sum(c4) == 19);
    assert(weight_sum(c5) == 23);
    assert(weight_sum(c6) == 27);
    assert(weight_sum(c7) == 31);
    assert(weight_sum(c8) == 35);
    assert(weight_sum(c9) == 39);
}

/// One kind alone earns the full twenty points on every axis: `MAL`.
pub proof fn lemma_special_kind_is_unique(kind: MixologyPotion)
    ensures
        kind.output_points() == (MixologyPoints { M: 20, A: 20, L: 20 }) <==> kind
            == MixologyPotion::MAL,
{
}

/// The single-letter kinds cost and earn points on one axis only, and every
/// other kind costs points on at least two.
pub proof fn lemma_single_letter_kinds(kind: MixologyPotion)
    ensures
        kind.is_single_letter() <==> axes_loaded(kind.input_points()) == 1,
        kind.is_single_letter() ==> axes_loaded(kind.output_points()) == 1,
{
}

/// One if `value` is not zero, zero otherwise.
pub open spec fn loaded(value: u128) -> nat {
    if value > 0 {
        1
    } else {
        0
    }
}

/// The number of axes on which `points` is not zero.
pub open spec fn axes_loaded(points: MixologyPoints) -> nat {
    loaded(points.M) + loaded(points.A) + loaded(points.L)
}

/// No potion costs more than thirty points on an axis or, before any bonus,
/// earns more than twenty; it earns nothing on an axis on which it costs
/// nothing; and it always costs thirty points in all.
pub proof fn lemma_catalog_bounds(kind: MixologyPotion)
    ensures
        kind.input_points()@.fits(30),
        kind.output_points()@.fits(20),
        kind.input_points().M + kind.input_points().A + kind.input_points().L == 30,
        kind.input_points().M == 0 ==> kind.output_points().M == 0,
        kind.input_points().A == 0 ==> kind.output_points().A == 0,
        kind.input_points().L == 0 ==> kind.output_points().L == 0,
{
}

} // verus!
