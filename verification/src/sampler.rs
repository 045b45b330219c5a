//! Weighted sampling of potion kinds.
//!
//! The sampler draws kinds with probabilities in proportion to their weights,
//! in constant time per draw. The alias table that does so and the generator
//! of random numbers behind it come from `rand_distr` and `rand`. What this
//! module states of them is taken on trust; everything else is proved from
//! it.

use crate::potion::{
    lemma_catalog_is_ranked, lemma_catalog_weights, MixologyPotion, KIND_COUNT,
};
use rand::distr::Distribution;
use rand::rngs::ThreadRng;
use rand_distr::weighted::WeightedAliasIndex;
use vstd::prelude::*;

verus! {

/// An alias table over `u8` weights: a
/// `rand_distr::weighted::WeightedAliasIndex<u8>`, of which nothing is known
/// here but what `alias_weights` names.
#[verifier::external_body]
pub struct AliasTable {
    inner: WeightedAliasIndex<u8>,
}

/// The generator of random numbers that `rand` keeps for each thread,
/// `rand::rngs::ThreadRng`: carried through, never looked into.
#[verifier::external_type_specification]
#[verifier::external_body]
pub struct ExThreadRng(ThreadRng);

/// The error with which `rand_distr` refuses a list of weights,
/// `rand_distr::weighted::Error`: carried through, never looked into.
#[verifier::external_type_specification]
#[verifier::external_body]
pub struct ExWeightError(rand_distr::weighted::Error);

/// The weights that an alias table was built from, in the order given.
pub uninterp spec fn alias_weights(table: AliasTable) -> Seq<u8>;

/// The largest weight that an alias table over `count` weights of type `u8`
/// accepts: the largest `u8`, divided by `count`.
pub open spec fn alias_weight_limit(count: nat) -> nat {
    if 0 < count <= u8::MAX {
        u8::MAX as nat / count
    } else {
        0
    }
}

/// The weight lists from which an alias table over `u8` can be built: not
/// empty, of no more than `u32::MAX` weights, none above the limit for their
/// number, and not all zero.
pub open spec fn alias_accepts(weights: Seq<u8>) -> bool {
    &&& 0 < weights.len() <= u32::MAX
    &&& forall|i: int| 0 <= i < weights.len() ==> weights[i] <= alias_weight_limit(weights.len())
    &&& exists|i: int| 0 <= i < weights.len() && weights[i] > 0
}

/// Builds an alias table: `WeightedAliasIndex::<u8>::new`.
///
/// Taken on trust, after the error cases that `new` documents: it refuses an
/// empty list and one of more than `u32::MAX` weights, a weight above
/// `u8::MAX / len` (a limit that is zero where `len` does not fit a `u8`), and
/// a list whose weights are all zero; from any other list it builds a table,
/// and that table stands for the weights it was given.
#[verifier::external_body]
fn alias_table_new(weights: Vec<u8>) -> (res: Result<AliasTable, rand_distr::weighted::Error>)
    ensures
        res is Ok <==> alias_accepts(weights@),
        res matches Ok(table) ==> alias_weights(table) == weights@,
{
    match WeightedAliasIndex::new(weights) {
        Ok(inner) => Ok(AliasTable { inner }),
        Err(error) => Err(error),
    }
}

/// Draws a position from an alias table: `Distribution::sample` of
/// `WeightedAliasIndex<u8>`.
///
/// Taken on trust: the result is a position of the list that the table was
/// built from. Which position comes out depends on the generator, and
/// nothing is claimed of it.
#[verifier::external_body]
fn alias_table_sample(table: &AliasTable, rng: &mut ThreadRng) -> (index: usize)
    ensures
        index < alias_weights(*table).len(),
{
    table.inner.sample(rng)
}

/// The calling thread's generator of random numbers: `rand::rng`. Nothing
/// is claimed of it.
#[verifier::external_body]
pub(crate) fn thread_rng() -> (rng: ThreadRng) {
    rand::rng()
}

/// Why a list of weights cannot configure a sampler.
#[derive(Clone, Copy, Debug, PartialEq, Eq, Structural)]
pub enum ConfigError {
    /// The list does not hold exactly one weight for each kind.
    WrongLength,
    /// Some weight is zero.
    ZeroWeight,
    /// Some weight is above `MAX_WEIGHT`, and none is zero.
    WeightTooLarge,
}

/// The largest weight that a sampler over the catalog can hold.
pub const MAX_WEIGHT: u8 = 25;

/// What is wrong with `weights` as the weights of the catalog's kinds, if
/// anything is: the length is checked first, then that no weight is zero,
/// then that none is too large.
pub open spec fn weights_fault(weights: Seq<u8>) -> Option<ConfigError> {
    if weights.len() != KIND_COUNT {
        Some(ConfigError::WrongLength)
    } else if exists|i: int| 0 <= i < weights.len() && weights[i] == 0 {
        Some(ConfigError::ZeroWeight)
    } else if exists|i: int| 0 <= i < weights.len() && weights[i] > MAX_WEIGHT {
        Some(ConfigError::WeightTooLarge)
    } else {
        None
    }
}

/// Whether a draw by `weights` can give `kind`: the list holds a weight at
/// the rank of the kind, and that weight is not zero.
pub open spec fn can_draw(weights: Seq<u8>, kind: MixologyPotion) -> bool {
    kind.rank() < weights.len() && weights[kind.rank() as int] > 0
}

/// A sampler of potion kinds: each draw gives the kind at rank `i` with a
/// probability in proportion to the `i`-th weight.
pub struct WeightedSampler {
    table: AliasTable,
}

impl WeightedSampler {
    /// A sampler always holds one positive weight for each kind.
    #[verifier::type_invariant]
    spec fn well_formed(self) -> bool {
        weights_fault(alias_weights(self.table)) is None
    }

    /// The weights of the kinds, by rank.
    pub closed spec fn weights(&self) -> Seq<u8> {
        alias_weights(self.table)
    }

    /// A sampler with the given weights, one for each kind by rank.
    ///
    /// The list is refused unless it holds `KIND_COUNT` weights, each of them
    /// from one to `MAX_WEIGHT`.
    pub fn new(weights: Vec<u8>) -> (res: Result<WeightedSampler, ConfigError>)
        ensures
            res is Ok <==> weights_fault(weights@) is None,
            res matches Ok(sampler) ==> sampler.weights() == weights@,
            res matches Err(fault) ==> weights_fault(weights@) == Some(fault),
    {
        if weights.len() != KIND_COUNT {
            return Err(ConfigError::WrongLength);
        }
        let mut has_zero = false;
        let mut has_large = false;
        let mut i: usize = 0;
        while i < KIND_COUNT
            invariant
                i <= KIND_COUNT,
                weights.len() == KIND_COUNT,
                has_zero <==> exists|j: int| 0 <= j < i && weights[j] == 0,
                has_large <==> exists|j: int| 0 <= j < i && weights[j] > MAX_WEIGHT,
            decreases KIND_COUNT - i,
        {
            if weights[i] == 0 {
                has_zero = true;
            }
            if weights[i] > MAX_WEIGHT {
                has_large = true;
            }
            i += 1;
        }
        if has_zero {
            return Err(ConfigError::ZeroWeight);
        }
        if has_large {
            return Err(ConfigError::WeightTooLarge);
        }
        proof {
            assert(weights[0] > 0);
            assert(alias_weight_limit(KIND_COUNT as nat) == MAX_WEIGHT);
        }
        match alias_table_new(weights) {
            Ok(table) => Ok(WeightedSampler { table }),
            Err(_) => vstd::pervasive::unreached(),
        }
    }

    /// The sampler of the catalog: each kind weighted as the catalog says.
    pub fn for_catalog() -> (sampler: WeightedSampler)
        ensures
            sampler.weights() == MixologyPotion::catalog_weights(),
    {
        let kinds = MixologyPotion::all();
        let mut weights: Vec<u8> = Vec::new();
        let mut i: usize = 0;
        while i < kinds.len()
            invariant
                i <= kinds.len(),
                kinds@ == MixologyPotion::catalog(),
                weights@.len() == i,
                forall|j: int| 0 <= j < i ==> weights@[j] == kinds@[j].weight(),
            decreases kinds.len() - i,
        {
            weights.push(kinds[i].weight());
            i += 1;
        }
        proof {
            let listed = weights@;
            assert(listed =~= MixologyPotion::catalog_weights());
            assert forall|j: int| 0 <= j < listed.len() implies 0 < #[trigger] listed[j]
                <= MAX_WEIGHT by {
                lemma_catalog_weights(kinds@[j]);
            }
        }
        match WeightedSampler::new(weights) {
            Ok(sampler) => sampler,
            Err(_) => vstd::pervasive::unreached(),
        }
    }

    /// Draws one kind: the kind whose rank is the position that the alias
    /// table gives.
    ///
    /// Which kind comes out is left to chance. Whatever the draw, it is a
    /// kind for which this sampler holds a weight, and a positive one.
    pub fn sample(&self, rng: &mut ThreadRng) -> (kind: MixologyPotion)
        ensures
            can_draw(self.weights(), kind),
    {
        proof {
            use_type_invariant(self);
        }
        let index = alias_table_sample(&self.table, rng);
        match MixologyPotion::from_rank(index) {
            Some(kind) => {
                proof {
                    lemma_catalog_is_ranked(kind, index as int);
                    assert(self.weights()[index as int] != 0);
                }
                kind
            },
            None => vstd::pervasive::unreached(),
        }
    }
}

} // verus!
