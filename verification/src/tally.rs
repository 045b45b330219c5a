//! Counts of how often each kind was drawn.

use crate::order::{all_slots, lemma_order_counts, MixologyOrder};
use crate::potion::{lemma_catalog_is_ranked, MixologyPotion, KIND_COUNT};
use vstd::multiset::Multiset;
use vstd::prelude::*;

verus! {

/// How many slots of `orders` hold `kind`.
pub open spec fn occurrences(orders: Seq<MixologyOrder>, kind: MixologyPotion) -> nat
    decreases orders.len(),
{
    if orders.len() == 0 {
        0
    } else {
        occurrences(orders.drop_last(), kind) + orders.last().num(kind) as nat
    }
}

/// For every kind, how many slots of `orders` hold it.
pub open spec fn tally_of(orders: Seq<MixologyOrder>) -> Map<MixologyPotion, nat> {
    Map::total(|kind: MixologyPotion| occurrences(orders, kind))
}

/// No kind fills more slots than there are: three for each order.
pub proof fn lemma_occurrences_bound(orders: Seq<MixologyOrder>, kind: MixologyPotion)
    ensures
        occurrences(orders, kind) <= 3 * orders.len(),
    decreases orders.len(),
{
    if orders.len() > 0 {
        lemma_occurrences_bound(orders.drop_last(), kind);
    }
}

/// The count of a kind is the number of times it occurs among the slots of
/// all orders, however the slots are arranged into orders.
pub proof fn lemma_occurrences_count_slots(orders: Seq<MixologyOrder>, kind: MixologyPotion)
    ensures
        occurrences(orders, kind) == all_slots(orders).to_multiset().count(kind),
    decreases orders.len(),
{
    if orders.len() == 0 {
        assert(all_slots(orders).to_multiset() =~= Multiset::<MixologyPotion>::empty()) by {
            vstd::seq_lib::to_multiset_len(all_slots(orders));
        }
    } else {
        let order = orders.last();
        let before = all_slots(orders.drop_last());
        lemma_occurrences_count_slots(orders.drop_last(), kind);
        vstd::seq_lib::lemma_multiset_commutative(before, order.slots());
        let none = Seq::<MixologyPotion>::empty();
        let one = none.push(order.first);
        let two = one.push(order.second);
        assert(order.slots() =~= two.push(order.third));
        vstd::seq_lib::to_multiset_len(none);
        vstd::seq_lib::to_multiset_build(none, order.first);
        vstd::seq_lib::to_multiset_build(one, order.second);
        vstd::seq_lib::to_multiset_build(two, order.third);
    }
}

/// The counts of all kinds add up to the number of slots: every slot holds
/// exactly one kind.
pub proof fn lemma_occurrences_total(orders: Seq<MixologyOrder>)
    ensures
        occurrences(orders, MixologyPotion::AAA) + occurrences(orders, MixologyPotion::MMM)
            + occurrences(orders, MixologyPotion::LLL) + occurrences(orders, MixologyPotion::AAM)
            + occurrences(orders, MixologyPotion::AAL) + occurrences(orders, MixologyPotion::MMA)
            + occurrences(orders, MixologyPotion::MML) + occurrences(orders, MixologyPotion::LLA)
            + occurrences(orders, MixologyPotion::LLM) + occurrences(orders, MixologyPotion::MAL)
            == 3 * orders.len(),
    decreases orders.len(),
{
    if orders.len() > 0 {
        lemma_occurrences_total(orders.drop_last());
        lemma_order_counts(orders.last());
    }
}

/// A count for each kind of the catalog, held at the position of its rank.
pub struct PotionTally {
    counts: [u128; KIND_COUNT],
}

impl View for PotionTally {
    type V = Map<MixologyPotion, nat>;

    /// The count of every kind.
    closed spec fn view(&self) -> Map<MixologyPotion, nat> {
        Map::total(|kind: MixologyPotion| self.counts@[kind.rank() as int] as nat)
    }
}

impl PotionTally {
    /// A tally in which no kind has been counted yet: that of no orders.
    pub fn new() -> (tally: PotionTally)
        ensures
            tally@ == Map::total(|kind: MixologyPotion| 0nat),
            tally@ == tally_of(Seq::empty()),
    {
        let tally = PotionTally { counts: [0; KIND_COUNT] };
        assert(tally@ =~= Map::total(|kind: MixologyPotion| 0nat));
        assert(tally@ =~= tally_of(Seq::empty()));
        tally
    }

    /// How often `kind` has been counted.
    pub fn get(&self, kind: MixologyPotion) -> (count: u128)
        ensures
            count == self@[kind],
    {
        self.counts[kind.rank()]
    }

    /// Counts `kind` once more.
    pub fn record(&mut self, kind: MixologyPotion)
        requires
            old(self)@[kind] < u128::MAX,
        ensures
            final(self)@ == old(self)@.insert(kind, (old(self)@[kind] + 1) as nat),
    {
        let rank = kind.rank();
        let count = self.counts[rank];
        self.counts[rank] = count + 1;
        proof {
            assert forall|other: MixologyPotion| other != kind implies other.rank()
                != kind.rank() by {
                lemma_catalog_is_ranked(other, 0);
                lemma_catalog_is_ranked(kind, 0);
            }
            assert(self@ =~= old(self)@.insert(kind, (old(self)@[kind] + 1) as nat));
        }
    }

    /// Counts the three potions of `order`.
    pub fn record_order(&mut self, order: &MixologyOrder)
        requires
            forall|kind: MixologyPotion| #[trigger]
                old(self)@[kind] + order.num(kind) <= u128::MAX,
        ensures
            final(self)@ == Map::total(
                |kind: MixologyPotion| (old(self)@[kind] + order.num(kind)) as nat,
            ),
    {
        proof {
            assert(self@[order.first] + order.num(order.first) <= u128::MAX);
            assert(self@[order.second] + order.num(order.second) <= u128::MAX);
            assert(self@[order.third] + order.num(order.third) <= u128::MAX);
        }
        self.record(order.first);
        self.record(order.second);
        self.record(order.third);
        proof {
            assert(self@ =~= Map::total(
                |kind: MixologyPotion| (old(self)@[kind] + order.num(kind)) as nat,
            ));
        }
    }
}

} // verus!
