//! Orders: three potions asked for together.

use crate::potion::MixologyPotion;
use vstd::prelude::*;

verus! {

/// An order of three potions. The same kind may fill more than one slot.
#[derive(Clone, Copy, Debug, PartialEq, Eq, Structural)]
pub struct MixologyOrder {
    pub first: MixologyPotion,
    pub second: MixologyPotion,
    pub third: MixologyPotion,
}

/// One if `slot` holds `pot`, zero otherwise.
pub open spec fn slot_count(slot: MixologyPotion, pot: MixologyPotion) -> nat {
    if slot == pot {
        1
    } else {
        0
    }
}

/// The higher-ranked of two kinds.
pub open spec fn higher(a: MixologyPotion, b: MixologyPotion) -> MixologyPotion {
    if a.rank() >= b.rank() {
        a
    } else {
        b
    }
}

impl MixologyOrder {
    /// The three slots in order.
    pub open spec fn slots(&self) -> Seq<MixologyPotion> {
        seq![self.first, self.second, self.third]
    }

    /// Whether some slot holds `pot`.
    pub open spec fn spec_contains(&self, pot: MixologyPotion) -> bool {
        self.first == pot || self.second == pot || self.third == pot
    }

    /// How many slots hold `pot`.
    pub open spec fn spec_num(&self, pot: MixologyPotion) -> u8 {
        (slot_count(self.first, pot) + slot_count(self.second, pot) + slot_count(
            self.third,
            pot,
        )) as u8
    }

    /// The highest-ranked kind among the three slots.
    pub open spec fn spec_best(&self) -> MixologyPotion {
        higher(higher(self.first, self.second), self.third)
    }

    /// How many slots hold a single-letter kind.
    pub open spec fn spec_num_single(&self) -> u8 {
        (self.spec_num(MixologyPotion::MMM) + self.spec_num(MixologyPotion::AAA)
            + self.spec_num(MixologyPotion::LLL)) as u8
    }

    /// Whether some slot holds `pot`.
    #[verifier::when_used_as_spec(spec_contains)]
    pub fn contains(&self, pot: MixologyPotion) -> (found: bool)
        ensures
            found == self.spec_contains(pot),
    {
        self.first == pot || self.second == pot || self.third == pot
    }

    /// How many slots hold `pot`: zero to three.
    #[verifier::when_used_as_spec(spec_num)]
    pub fn num(&self, pot: MixologyPotion) -> (num: u8)
        ensures
            num == self.spec_num(pot),
            num <= 3,
            num > 0 <==> self.contains(pot),
    {
        let mut num: u8 = 0;
        if self.first == pot {
            num += 1;
        }
        if self.second == pot {
            num += 1;
        }
        if self.third == pot {
            num += 1;
        }
        num
    }

    /// The highest-ranked kind among the three slots. It fills some slot, and
    /// no slot holds a kind of higher rank.
    #[verifier::when_used_as_spec(spec_best)]
    pub fn best(&self) -> (best: MixologyPotion)
        ensures
            best == self.spec_best(),
            self.contains(best),
            self.first.rank() <= best.rank(),
            self.second.rank() <= best.rank(),
            self.third.rank() <= best.rank(),
    {
        let mut best = self.first;
        if self.second.rank() > best.rank() {
            best = self.second;
        }
        if self.third.rank() > best.rank() {
            best = self.third;
        }
        best
    }

    /// How many slots hold a single-letter kind: zero to three.
    #[verifier::when_used_as_spec(spec_num_single)]
    pub fn num_single(&self) -> (num: u8)
        ensures
            num == self.spec_num_single(),
            num <= 3,
    {
        let num_mmm = self.num(MixologyPotion::MMM);
        let num_aaa = self.num(MixologyPotion::AAA);
        let num_lll = self.num(MixologyPotion::LLL);
        num_mmm + num_aaa + num_lll
    }
}

/// The slots of all orders, three for each, in the order of the orders.
pub open spec fn all_slots(orders: Seq<MixologyOrder>) -> Seq<MixologyPotion>
    decreases orders.len(),
{
    if orders.len() == 0 {
        Seq::empty()
    } else {
        all_slots(orders.drop_last()) + orders.last().slots()
    }
}

/// A slot holds exactly one kind, and it counts as a single-letter slot
/// exactly when that kind is `MMM`, `AAA` or `LLL`.
proof fn lemma_slot_counts(slot: MixologyPotion)
    ensures
        slot_count(slot, MixologyPotion::AAA) + slot_count(slot, MixologyPotion::MMM)
            + slot_count(slot, MixologyPotion::LLL) + slot_count(slot, MixologyPotion::AAM)
            + slot_count(slot, MixologyPotion::AAL) + slot_count(slot, MixologyPotion::MMA)
            + slot_count(slot, MixologyPotion::MML) + slot_count(slot, MixologyPotion::LLA)
            + slot_count(slot, MixologyPotion::LLM) + slot_count(slot, MixologyPotion::MAL) == 1,
        slot_count(slot, MixologyPotion::MMM) + slot_count(slot, MixologyPotion::AAA)
            + slot_count(slot, MixologyPotion::LLL) == single_count(slot),
{
}

/// One if `slot` holds a single-letter kind, zero otherwise.
pub open spec fn single_count(slot: MixologyPotion) -> nat {
    if slot.is_single_letter() {
        1
    } else {
        0
    }
}

/// The counts of all kinds in one order add up to its three slots, and
/// the single-letter count is the number of slots that hold such a kind.
pub proof fn lemma_order_counts(order: MixologyOrder)
    ensures
        order.num(MixologyPotion::AAA) + order.num(MixologyPotion::MMM) + order.num(
            MixologyPotion::LLL,
        ) + order.num(MixologyPotion::AAM) + order.num(MixologyPotion::AAL) + order.num(
            MixologyPotion::MMA,
        ) + order.num(MixologyPotion::MML) + order.num(MixologyPotion::LLA) + order.num(
            MixologyPotion::LLM,
        ) + order.num(MixologyPotion::MAL) == 3,
        order.num_single() == single_count(order.first) + single_count(order.second)
            + single_count(order.third),
{
    lemma_slot_counts(order.first);
    lemma_slot_counts(order.second);
    lemma_slot_counts(order.third);
}

/// An order that holds `MAL` has at most two single-letter slots, and `MAL`
/// is its best kind.
pub proof fn lemma_special_caps_single(order: MixologyOrder)
    requires
        order.contains(MixologyPotion::MAL),
    ensures
        order.num_single() + order.num(MixologyPotion::MAL) <= 3,
        order.num_single() <= 2,
        order.best() == MixologyPotion::MAL,
{
}

} // verus!
