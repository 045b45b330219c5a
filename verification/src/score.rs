//! The scoring model: what each strategy spends and earns, order by order
//! and over a whole sequence of orders.
//!
//! A strategy decides, order by order, which potions to complete. A
//! completed potion costs its input points and earns its output points,
//! multiplied by a bonus and rounded down on each axis. The score of a
//! strategy over a sequence of orders is the sum of its scores on each
//! order.

use crate::order::{all_slots, lemma_special_caps_single, MixologyOrder};
use crate::points::{
    lemma_scale_monotonic, scale_axis, MixologyPoints, Multiplier, Totals, FULL_TENTHS,
    PAIR_TENTHS, UNIT_TENTHS,
};
use crate::potion::{lemma_catalog_bounds, MixologyPotion};
use vstd::prelude::*;

verus! {

/// The input points that a strategy spent and the output points that it
/// earned.
pub struct Score {
    pub input: Totals,
    pub output: Totals,
}

impl Score {
    /// Nothing spent, nothing earned.
    pub open spec fn zero() -> Score {
        Score { input: Totals::zero(), output: Totals::zero() }
    }

    /// The sum of two scores, axis by axis.
    pub open spec fn plus(self, other: Score) -> Score {
        Score { input: self.input.plus(other.input), output: self.output.plus(other.output) }
    }
}

/// The score that a pair of running totals stands for.
pub open spec fn score_of(totals: (MixologyPoints, MixologyPoints)) -> Score {
    Score { input: totals.0@, output: totals.1@ }
}

/// A policy for which potions of an order to complete.
#[derive(Clone, Copy, Debug, PartialEq, Eq, Structural)]
pub enum Strategy {
    /// Complete all three potions of every order.
    EveryOrder,
    /// Complete only the `MAL` potions of an order that has any, and all
    /// three potions of any other order.
    EveryOrderUnlessMal,
    /// Complete only the `MAL` potions of an order that has any, and only the
    /// best potion of any other order.
    BestOrderUnlessMal,
    /// Complete all three potions of an order that holds `MAL`, and only the
    /// best potion of any other order.
    BestOrderUnlessMalThenAll,
    /// Leave out the single-letter potions, unless there are two or more of
    /// them: then complete only the best potion.
    AllButSingleLetter,
    /// In an order that holds `MAL`, leave out the single-letter potions,
    /// unless there are two of them: then complete only the best potion.
    /// Complete only the best potion of any other order.
    BestOrderUnlessMalThenAllButSingle,
    /// Complete all three potions of an order that holds `MAL`, and treat any
    /// other order as `AllButSingleLetter` does.
    AllButSingleLetterUnlessMalThenAll,
}

/// The score of completing one potion of `kind` at a bonus of `tenths`.
#[verifier::opaque]
pub open spec fn completed(kind: MixologyPotion, tenths: nat) -> Score {
    Score { input: kind.input_points()@, output: kind.output_points()@.scaled(tenths) }
}

/// The score of the potion in one slot: that of completing it if the slot is
/// taken, nothing otherwise.
pub open spec fn completed_if(take: bool, kind: MixologyPotion, tenths: nat) -> Score {
    if take {
        completed(kind, tenths)
    } else {
        Score::zero()
    }
}

/// The score of completing, at a bonus of `tenths`, the potions of `order`
/// whose slots are taken.
pub open spec fn chosen(
    order: MixologyOrder,
    first: bool,
    second: bool,
    third: bool,
    tenths: nat,
) -> Score {
    completed_if(first, order.first, tenths).plus(
        completed_if(second, order.second, tenths),
    ).plus(completed_if(third, order.third, tenths))
}

/// All three potions of `order` completed at a bonus of `tenths`.
pub open spec fn all_completed(order: MixologyOrder, tenths: nat) -> Score {
    chosen(order, true, true, true, tenths)
}

/// Only the `MAL` potions of `order` completed, at the bonus for as many
/// potions as there are of them.
pub open spec fn special_completed(order: MixologyOrder) -> Score {
    chosen(
        order,
        order.first == MixologyPotion::MAL,
        order.second == MixologyPotion::MAL,
        order.third == MixologyPotion::MAL,
        Multiplier::bonus_tenths(order.num(MixologyPotion::MAL) as nat),
    )
}

/// Only the best potion of `order` completed, without a bonus.
pub open spec fn best_completed(order: MixologyOrder) -> Score {
    completed(order.best(), UNIT_TENTHS as nat)
}

/// Every potion of `order` that is not of a single letter, completed at
/// a bonus of `tenths`.
pub open spec fn mixed_completed(order: MixologyOrder, tenths: nat) -> Score {
    chosen(
        order,
        !order.first.is_single_letter(),
        !order.second.is_single_letter(),
        !order.third.is_single_letter(),
        tenths,
    )
}

/// The bonus, in tenths, for the potions that are left of an order when
/// `num_single` single-letter potions are set aside: 1.2 when one is, 1.4
/// otherwise.
pub open spec fn mixed_tenths(num_single: u8) -> nat {
    if num_single == 1 {
        PAIR_TENTHS as nat
    } else {
        FULL_TENTHS as nat
    }
}

/// The score of `order` when single-letter potions are avoided: with two or
/// three of them only the best potion is completed, otherwise every other
/// potion is.
pub open spec fn single_avoided(order: MixologyOrder) -> Score {
    if order.num_single() >= 2 {
        best_completed(order)
    } else {
        mixed_completed(order, mixed_tenths(order.num_single()))
    }
}

/// What `strategy` spends and earns on one order.
#[verifier::opaque]
pub open spec fn order_score(strategy: Strategy, order: MixologyOrder) -> Score {
    let has_mal = order.contains(MixologyPotion::MAL);
    match strategy {
        Strategy::EveryOrder => all_completed(order, FULL_TENTHS as nat),
        Strategy::EveryOrderUnlessMal => if has_mal {
            special_completed(order)
        } else {
            all_completed(order, FULL_TENTHS as nat)
        },
        Strategy::BestOrderUnlessMal => if has_mal {
            special_completed(order)
        } else {
            best_completed(order)
        },
        Strategy::BestOrderUnlessMalThenAll => if has_mal {
            all_completed(order, FULL_TENTHS as nat)
        } else {
            best_completed(order)
        },
        Strategy::AllButSingleLetter => single_avoided(order),
        Strategy::BestOrderUnlessMalThenAllButSingle => if has_mal {
            if order.num_single() == 2 {
                best_completed(order)
            } else {
                mixed_completed(order, mixed_tenths(order.num_single()))
            }
        } else {
            best_completed(order)
        },
        Strategy::AllButSingleLetterUnlessMalThenAll => if has_mal {
            all_completed(order, FULL_TENTHS as nat)
        } else {
            single_avoided(order)
        },
    }
}

/// What `strategy` spends and earns over a sequence of orders: the
/// sum of its scores on each of them.
pub open spec fn total_score(strategy: Strategy, orders: Seq<MixologyOrder>) -> Score
    decreases orders.len(),
{
    if orders.len() == 0 {
        Score::zero()
    } else {
        total_score(strategy, orders.drop_last()).plus(order_score(strategy, orders.last()))
    }
}

/// The most that one order can cost on an axis: three potions of thirty
/// points.
pub const ORDER_INPUT_MAX: u128 = 90;

/// The most that one order can earn on an axis: three potions of twenty
/// points at the full bonus.
pub const ORDER_OUTPUT_MAX: u128 = 84;

/// One completed potion costs at most thirty points on an axis and, at a
/// bonus of no more than 1.4, earns at most twenty-eight.
pub proof fn lemma_completed_bounds(kind: MixologyPotion, tenths: nat)
    requires
        tenths <= FULL_TENTHS,
    ensures
        completed(kind, tenths).input.fits(30),
        completed(kind, tenths).output.fits(28),
{
    reveal(completed);
    lemma_catalog_bounds(kind);
    let out = kind.output_points()@;
    assert(scale_axis(20, 14) == 28) by {
        reveal(scale_axis);
    }
    lemma_scale_monotonic(out.m, tenths, 20, 14);
    lemma_scale_monotonic(out.a, tenths, 20, 14);
    lemma_scale_monotonic(out.l, tenths, 20, 14);
}

/// Whichever potions of an order are completed, at a bonus of no more than
/// 1.4, they cost at most `ORDER_INPUT_MAX` and earn at most
/// `ORDER_OUTPUT_MAX` on an axis.
proof fn lemma_chosen_bounds(
    order: MixologyOrder,
    first: bool,
    second: bool,
    third: bool,
    tenths: nat,
)
    requires
        tenths <= FULL_TENTHS,
    ensures
        chosen(order, first, second, third, tenths).input.fits(ORDER_INPUT_MAX as nat),
        chosen(order, first, second, third, tenths).output.fits(ORDER_OUTPUT_MAX as nat),
{
    lemma_completed_bounds(order.first, tenths);
    lemma_completed_bounds(order.second, tenths);
    lemma_completed_bounds(order.third, tenths);
}

/// No strategy spends more than `ORDER_INPUT_MAX` or earns more than
/// `ORDER_OUTPUT_MAX` on an axis by one order.
pub proof fn lemma_order_score_bounds(strategy: Strategy, order: MixologyOrder)
    ensures
        order_score(strategy, order).input.fits(ORDER_INPUT_MAX as nat),
        order_score(strategy, order).output.fits(ORDER_OUTPUT_MAX as nat),
{
    reveal(order_score);
    let mal = MixologyPotion::MAL;
    lemma_chosen_bounds(order, true, true, true, FULL_TENTHS as nat);
    lemma_chosen_bounds(
        order,
        order.first == mal,
        order.second == mal,
        order.third == mal,
        Multiplier::bonus_tenths(order.num(mal) as nat),
    );
    lemma_chosen_bounds(
        order,
        !order.first.is_single_letter(),
        !order.second.is_single_letter(),
        !order.third.is_single_letter(),
        mixed_tenths(order.num_single()),
    );
    lemma_completed_bounds(order.best(), UNIT_TENTHS as nat);
}

/// Over `n` orders no strategy spends more than `n` times
/// `ORDER_INPUT_MAX`, or earns more than `n` times `ORDER_OUTPUT_MAX`,
/// on an axis.
pub proof fn lemma_total_score_bounds(strategy: Strategy, orders: Seq<MixologyOrder>)
    ensures
        total_score(strategy, orders).input.fits((ORDER_INPUT_MAX * orders.len()) as nat),
        total_score(strategy, orders).output.fits((ORDER_OUTPUT_MAX * orders.len()) as nat),
    decreases orders.len(),
{
    if orders.len() > 0 {
        lemma_total_score_bounds(strategy, orders.drop_last());
        lemma_order_score_bounds(strategy, orders.last());
    }
}

/// Scoring one sequence of orders after another gives the sum of the two
/// scores, axis by axis, whatever the strategy: the orders of a run can be
/// scored in parts and the parts added up.
pub proof fn lemma_total_score_concat(
    strategy: Strategy,
    a: Seq<MixologyOrder>,
    b: Seq<MixologyOrder>,
)
    ensures
        total_score(strategy, a + b) == total_score(strategy, a).plus(total_score(strategy, b)),
    decreases b.len(),
{
    if b.len() == 0 {
        assert(a + b =~= a);
    } else {
        assert((a + b).drop_last() =~= a + b.drop_last());
        assert((a + b).last() == b.last());
        lemma_total_score_concat(strategy, a, b.drop_last());
    }
}

/// Taking one order out of a sequence takes its score out of the total.
proof fn lemma_total_score_remove(strategy: Strategy, orders: Seq<MixologyOrder>, i: int)
    requires
        0 <= i < orders.len(),
    ensures
        total_score(strategy, orders) == total_score(strategy, orders.remove(i)).plus(
            order_score(strategy, orders[i]),
        ),
{
    let before = orders.take(i);
    let one = seq![orders[i]];
    let after = orders.skip(i + 1);
    assert(orders =~= before + one + after);
    assert(orders.remove(i) =~= before + after);
    lemma_total_score_concat(strategy, before + one, after);
    lemma_total_score_concat(strategy, before, one);
    lemma_total_score_concat(strategy, before, after);
    assert(one.drop_last() =~= Seq::<MixologyOrder>::empty());
    assert(total_score(strategy, one) == order_score(strategy, orders[i])) by {
        assert(total_score(strategy, one.drop_last()) == Score::zero());
        assert(one.last() == orders[i]);
    }
}

/// The score of a strategy depends only on which orders there are and how
/// often each occurs, not on the sequence in which they are taken.
pub proof fn lemma_total_score_permutation(
    strategy: Strategy,
    a: Seq<MixologyOrder>,
    b: Seq<MixologyOrder>,
)
    requires
        a.to_multiset() == b.to_multiset(),
    ensures
        total_score(strategy, a) == total_score(strategy, b),
    decreases a.len(),
{
    vstd::seq_lib::to_multiset_len(a);
    vstd::seq_lib::to_multiset_len(b);
    if a.len() > 0 {
        let order = a.last();
        let rest = a.drop_last();
        assert(a =~= rest.push(order));
        vstd::seq_lib::to_multiset_build(rest, order);
        vstd::seq_lib::to_multiset_contains(b, order);
        assert(b.contains(order));
        let i = choose|i: int| 0 <= i < b.len() && b[i] == order;
        vstd::seq_lib::to_multiset_remove(b, i);
        assert(rest.to_multiset() =~= b.remove(i).to_multiset());
        lemma_total_score_permutation(strategy, rest, b.remove(i));
        lemma_total_score_remove(strategy, b, i);
    }
}

/// Orders dealt out to two shards in any way, each shard scored on its own,
/// score in sum what the whole sequence scores.
pub proof fn lemma_total_score_shards(
    strategy: Strategy,
    whole: Seq<MixologyOrder>,
    a: Seq<MixologyOrder>,
    b: Seq<MixologyOrder>,
)
    requires
        whole.to_multiset() == a.to_multiset().add(b.to_multiset()),
    ensures
        total_score(strategy, whole) == total_score(strategy, a).plus(total_score(strategy, b)),
{
    vstd::seq_lib::lemma_multiset_commutative(a, b);
    lemma_total_score_permutation(strategy, whole, a + b);
    lemma_total_score_concat(strategy, a, b);
}

/// The score of completing every potion of `kinds` at a bonus of `tenths`:
/// each potion's output points are scaled and rounded down before they are
/// added.
pub open spec fn completed_sum(kinds: Seq<MixologyPotion>, tenths: nat) -> Score
    decreases kinds.len(),
{
    if kinds.len() == 0 {
        Score::zero()
    } else {
        completed_sum(kinds.drop_last(), tenths).plus(completed(kinds.last(), tenths))
    }
}

/// Completing every order spends the input points of every slot and earns,
/// on each axis, the sum over all slots of the slot's output points times 1.4,
/// rounded down slot by slot.
pub proof fn lemma_every_order_sums_slots(orders: Seq<MixologyOrder>)
    ensures
        all_slots(orders).len() == 3 * orders.len(),
        total_score(Strategy::EveryOrder, orders) == completed_sum(
            all_slots(orders),
            FULL_TENTHS as nat,
        ),
    decreases orders.len(),
{
    if orders.len() > 0 {
        reveal(order_score);
        let tenths = FULL_TENTHS as nat;
        let order = orders.last();
        let before = all_slots(orders.drop_last());
        lemma_every_order_sums_slots(orders.drop_last());
        let one = before.push(order.first);
        let two = one.push(order.second);
        let three = two.push(order.third);
        assert(three =~= before + order.slots());
        assert(one.drop_last() =~= before);
        assert(two.drop_last() =~= one);
        assert(three.drop_last() =~= two);
        assert(completed_sum(one, tenths) == completed_sum(before, tenths).plus(
            completed(order.first, tenths),
        ));
        assert(completed_sum(two, tenths) == completed_sum(one, tenths).plus(
            completed(order.second, tenths),
        ));
        assert(completed_sum(three, tenths) == completed_sum(two, tenths).plus(
            completed(order.third, tenths),
        ));
    }
}

/// On an order that holds `MAL`, completing every order unless it holds
/// `MAL` and completing the best potion unless the order holds `MAL` score
/// alike: both complete the `MAL` potions only. When all three potions are
/// `MAL`, completing the whole order scores the same again.
pub proof fn lemma_special_branch_shared(order: MixologyOrder)
    requires
        order.contains(MixologyPotion::MAL),
    ensures
        order_score(Strategy::EveryOrderUnlessMal, order) == special_completed(order),
        order_score(Strategy::BestOrderUnlessMal, order) == special_completed(order),
        order.num(MixologyPotion::MAL) == 3 ==> order_score(
            Strategy::BestOrderUnlessMalThenAll,
            order,
        ) == special_completed(order),
{
    reveal(order_score);
}

/// On an order that holds `MAL`, leaving out the single-letter potions
/// scores the same whether or not the rule looks for `MAL` first: such an
/// order never has three single-letter potions, the one case in which the two
/// rules part.
pub proof fn lemma_special_single_avoided(order: MixologyOrder)
    requires
        order.contains(MixologyPotion::MAL),
    ensures
        order.num_single() <= 2,
        order_score(Strategy::BestOrderUnlessMalThenAllButSingle, order) == order_score(
            Strategy::AllButSingleLetter,
            order,
        ),
{
    reveal(order_score);
    lemma_special_caps_single(order);
}

impl Score {
    /// Whether nothing is earned on any axis on which nothing is spent.
    pub open spec fn grounded(self) -> bool {
        &&& self.input.m == 0 ==> self.output.m == 0
        &&& self.input.a == 0 ==> self.output.a == 0
        &&& self.input.l == 0 ==> self.output.l == 0
    }
}

/// One completed potion earns nothing on an axis on which it costs nothing.
proof fn lemma_completed_grounded(kind: MixologyPotion, tenths: nat)
    ensures
        completed(kind, tenths).grounded(),
{
    reveal(completed);
    lemma_catalog_bounds(kind);
    assert(scale_axis(0, tenths) == 0) by {
        reveal(scale_axis);
    }
}

/// Whichever potions of an order are completed, they earn nothing on an axis
/// on which they cost nothing.
proof fn lemma_chosen_grounded(
    order: MixologyOrder,
    first: bool,
    second: bool,
    third: bool,
    tenths: nat,
)
    ensures
        chosen(order, first, second, third, tenths).grounded(),
{
    lemma_completed_grounded(order.first, tenths);
    lemma_completed_grounded(order.second, tenths);
    lemma_completed_grounded(order.third, tenths);
}

/// On one order a strategy earns nothing on an axis on which it spends
/// nothing.
proof fn lemma_order_score_grounded(strategy: Strategy, order: MixologyOrder)
    ensures
        order_score(strategy, order).grounded(),
{
    reveal(order_score);
    let mal = MixologyPotion::MAL;
    lemma_chosen_grounded(order, true, true, true, FULL_TENTHS as nat);
    lemma_chosen_grounded(
        order,
        order.first == mal,
        order.second == mal,
        order.third == mal,
        Multiplier::bonus_tenths(order.num(mal) as nat),
    );
    lemma_chosen_grounded(
        order,
        !order.first.is_single_letter(),
        !order.second.is_single_letter(),
        !order.third.is_single_letter(),
        mixed_tenths(order.num_single()),
    );
    lemma_completed_grounded(order.best(), UNIT_TENTHS as nat);
}

/// A strategy that spends nothing on an axis over a whole sequence of
/// orders earns nothing on that axis: an output total is never set
/// against an input total of zero unless it is zero itself.
pub proof fn lemma_no_output_without_input(strategy: Strategy, orders: Seq<MixologyOrder>)
    ensures
        total_score(strategy, orders).grounded(),
    decreases orders.len(),
{
    if orders.len() > 0 {
        lemma_no_output_without_input(strategy, orders.drop_last());
        lemma_order_score_grounded(strategy, orders.last());
    }
}

} // verus!
