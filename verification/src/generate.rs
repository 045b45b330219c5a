//! Generation of random orders.

use crate::order::MixologyOrder;
use crate::potion::MixologyPotion;
use crate::sampler::{thread_rng, WeightedSampler};
use crate::tally::{lemma_occurrences_bound, tally_of, PotionTally};
use vstd::prelude::*;

verus! {

/// Draws `num_orders` orders with the weights of the catalog, and counts how
/// often each kind was drawn.
///
/// Each of the three slots of each order is drawn on its own. Which orders
/// come out is left to chance; the tally always counts exactly their slots.
pub fn generate_orders(num_orders: usize) -> (res: (Vec<MixologyOrder>, PotionTally))
    ensures
        res.0@.len() == num_orders,
        res.1@ == tally_of(res.0@),
{
    let sampler = WeightedSampler::for_catalog();
    generate_orders_with(num_orders, &sampler)
}

/// Draws `num_orders` orders from `sampler`, and counts how often each kind
/// was drawn.
pub fn generate_orders_with(num_orders: usize, sampler: &WeightedSampler) -> (res: (
    Vec<MixologyOrder>,
    PotionTally,
))
    ensures
        res.0@.len() == num_orders,
        res.1@ == tally_of(res.0@),
{
    let mut orders: Vec<MixologyOrder> = Vec::with_capacity(num_orders);
    let mut potion_tally = PotionTally::new();
    let mut rng = thread_rng();
    let mut i: usize = 0;
    while i < num_orders
        invariant
            i <= num_orders,
            orders@.len() == i,
            potion_tally@ == tally_of(orders@),
        decreases num_orders - i,
    {
        let first = sampler.sample(&mut rng);
        let second = sampler.sample(&mut rng);
        let third = sampler.sample(&mut rng);
        let order = MixologyOrder { first, second, third };
        proof {
            assert forall|kind: MixologyPotion| #[trigger]
                potion_tally@[kind] + order.num(kind) <= u128::MAX by {
                lemma_occurrences_bound(orders@, kind);
            }
        }
        let ghost before = orders@;
        potion_tally.record_order(&order);
        orders.push(order);
        proof {
            assert(orders@.drop_last() =~= before);
            assert(potion_tally@ =~= tally_of(orders@));
        }
        i += 1;
    }
    (orders, potion_tally)
}

} // verus!
