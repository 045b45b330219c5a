//! The seven completion strategies, scored over a sequence of orders.

use crate::order::{all_slots, MixologyOrder};
use crate::points::{
    lemma_scale_whole, scale_axis, MixologyPoints, Multiplier, FULL_TENTHS, PAIR_TENTHS,
};
use crate::potion::MixologyPotion;
use crate::score::{
    all_completed, best_completed, completed, completed_sum,
    lemma_completed_bounds, lemma_every_order_sums_slots, lemma_order_score_bounds,
    lemma_total_score_bounds, mixed_completed, mixed_tenths, order_score, score_of,
    single_avoided, special_completed, total_score, Strategy, ORDER_INPUT_MAX,
};
use vstd::prelude::*;

verus! {

/// Adds one potion of `kind`, completed at `bonus`, to the running totals.
fn add_completed(
    kind: MixologyPotion,
    bonus: Multiplier,
    input_pts: &mut MixologyPoints,
    output_pts: &mut MixologyPoints,
)
    requires
        bonus.tenths <= FULL_TENTHS,
        old(input_pts)@.fits(60),
        old(output_pts)@.fits(56),
    ensures
        score_of((*final(input_pts), *final(output_pts))) == score_of(
            (*old(input_pts), *old(output_pts)),
        ).plus(completed(kind, bonus.tenths as nat)),
{
    proof {
        reveal(completed);
        lemma_completed_bounds(kind, bonus.tenths as nat);
    }
    input_pts.add_assign(kind.input_points());
    output_pts.add_assign(kind.output_points().mul(bonus));
}

/// Completes all three potions of `order` at `bonus`.
fn score_all(order: &MixologyOrder, bonus: Multiplier) -> (res: (
    MixologyPoints,
    MixologyPoints,
))
    requires
        bonus.tenths <= FULL_TENTHS,
    ensures
        score_of(res) == all_completed(*order, bonus.tenths as nat),
{
    let mut input_pts = MixologyPoints::default();
    let mut output_pts = MixologyPoints::default();
    proof {
        lemma_completed_bounds(order.first, bonus.tenths as nat);
        lemma_completed_bounds(order.second, bonus.tenths as nat);
    }
    add_completed(order.first, bonus, &mut input_pts, &mut output_pts);
    add_completed(order.second, bonus, &mut input_pts, &mut output_pts);
    add_completed(order.third, bonus, &mut input_pts, &mut output_pts);
    (input_pts, output_pts)
}

/// Completes only the `MAL` potions of an order that holds at least one.
fn score_special(order: &MixologyOrder) -> (res: (MixologyPoints, MixologyPoints))
    requires
        order.contains(MixologyPotion::MAL),
    ensures
        score_of(res) == special_completed(*order),
{
    let num_mal = order.num(MixologyPotion::MAL);
    let mul_factor = match Multiplier::for_count(num_mal) {
        Ok(mul_factor) => mul_factor,
        Err(_) => vstd::pervasive::unreached(),
    };
    let times = Multiplier::whole(num_mal);
    proof {
        reveal(completed);
        let bonus = mul_factor.tenths as nat;
        lemma_completed_bounds(MixologyPotion::MAL, bonus);
        lemma_scale_whole(10, num_mal as nat);
        lemma_scale_whole(scale_axis(20, bonus), num_mal as nat);
        assert(scale_axis(20, bonus) * num_mal <= 3 * 28) by (nonlinear_arith)
            requires
                scale_axis(20, bonus) <= 28,
                num_mal <= 3,
        ;
        assert(10 * num_mal <= 30);
    }
    let input_pts = MixologyPotion::MAL.input_points().mul(times);
    let output_pts = MixologyPotion::MAL.output_points().mul(mul_factor).mul(times);
    proof {
        let each = completed(MixologyPotion::MAL, mul_factor.tenths as nat);
        assert(each.output.m * num_mal == if num_mal == 1 {
            each.output.m
        } else if num_mal == 2 {
            each.output.m + each.output.m
        } else {
            each.output.m + each.output.m + each.output.m
        }) by (nonlinear_arith)
            requires
                1 <= num_mal <= 3,
        ;
    }
    (input_pts, output_pts)
}

/// Completes only the best potion of `order`, without a bonus.
fn score_best(order: &MixologyOrder) -> (res: (MixologyPoints, MixologyPoints))
    ensures
        score_of(res) == best_completed(*order),
{
    let best = order.best();
    proof {
        reveal(completed);
        let out = best.output_points()@;
        lemma_scale_whole(out.m, 1);
        lemma_scale_whole(out.a, 1);
        lemma_scale_whole(out.l, 1);
    }
    (best.input_points(), best.output_points())
}

/// Completes every potion of `order` that is not of a single letter, at
/// `bonus`.
fn score_mixed(order: &MixologyOrder, bonus: Multiplier) -> (res: (
    MixologyPoints,
    MixologyPoints,
))
    requires
        bonus.tenths <= FULL_TENTHS,
    ensures
        score_of(res) == mixed_completed(*order, bonus.tenths as nat),
{
    let mut input_pts = MixologyPoints::default();
    let mut output_pts = MixologyPoints::default();
    proof {
        lemma_completed_bounds(order.first, bonus.tenths as nat);
        lemma_completed_bounds(order.second, bonus.tenths as nat);
    }
    if !order.first.is_single_letter() {
        add_completed(order.first, bonus, &mut input_pts, &mut output_pts);
    }
    if !order.second.is_single_letter() {
        add_completed(order.second, bonus, &mut input_pts, &mut output_pts);
    }
    if !order.third.is_single_letter() {
        add_completed(order.third, bonus, &mut input_pts, &mut output_pts);
    }
    (input_pts, output_pts)
}

/// The bonus for the potions that are left of an order when `num_single`
/// single-letter potions are set aside.
fn mixed_bonus(num_single: u8) -> (bonus: Multiplier)
    ensures
        bonus.tenths == mixed_tenths(num_single),
{
    if num_single == 1 {
        Multiplier { tenths: PAIR_TENTHS }
    } else {
        Multiplier { tenths: FULL_TENTHS }
    }
}

/// Completes `order` while avoiding single-letter potions.
fn score_avoiding_single(order: &MixologyOrder) -> (res: (MixologyPoints, MixologyPoints))
    ensures
        score_of(res) == single_avoided(*order),
{
    let num_single = order.num_single();
    if num_single == 3 || num_single == 2 {
        score_best(order)
    } else {
        score_mixed(order, mixed_bonus(num_single))
    }
}

/// What `strategy` spends and earns on `order`: the pair of the
/// input points and the output points.
pub fn score_order(strategy: Strategy, order: &MixologyOrder) -> (res: (
    MixologyPoints,
    MixologyPoints,
))
    ensures
        score_of(res) == order_score(strategy, *order),
{
    proof {
        reveal(order_score);
    }
    let full = Multiplier { tenths: FULL_TENTHS };
    let has_mal = order.contains(MixologyPotion::MAL);
    match strategy {
        Strategy::EveryOrder => score_all(order, full),
        Strategy::EveryOrderUnlessMal => {
            if has_mal {
                score_special(order)
            } else {
                score_all(order, full)
            }
        },
        Strategy::BestOrderUnlessMal => {
            if has_mal {
                score_special(order)
            } else {
                score_best(order)
            }
        },
        Strategy::BestOrderUnlessMalThenAll => {
            if has_mal {
                score_all(order, full)
            } else {
                score_best(order)
            }
        },
        Strategy::AllButSingleLetter => score_avoiding_single(order),
        Strategy::BestOrderUnlessMalThenAllButSingle => {
            if has_mal {
                let num_single = order.num_single();
                if num_single == 2 {
                    score_best(order)
                } else {
                    score_mixed(order, mixed_bonus(num_single))
                }
            } else {
                score_best(order)
            }
        },
        Strategy::AllButSingleLetterUnlessMalThenAll => {
            if has_mal {
                score_all(order, full)
            } else {
                score_avoiding_single(order)
            }
        },
    }
}

/// Scores `strategy` over `orders`: the totals of what it spends and of what
/// it earns.
pub fn evaluate(strategy: Strategy, orders: &[MixologyOrder]) -> (res: (
    MixologyPoints,
    MixologyPoints,
))
    ensures
        score_of(res) == total_score(strategy, orders@),
{
    let mut input_pts = MixologyPoints::default();
    let mut output_pts = MixologyPoints::default();
    let mut i: usize = 0;
    while i < orders.len()
        invariant
            i <= orders.len(),
            score_of((input_pts, output_pts)) == total_score(strategy, orders@.take(i as int)),
        decreases orders.len() - i,
    {
        let step = score_order(strategy, &orders[i]);
        proof {
            let done = orders@.take(i as int);
            let next = orders@.take(i + 1);
            assert(next.drop_last() =~= done);
            assert(next.last() == orders@[i as int]);
            lemma_total_score_bounds(strategy, done);
            lemma_order_score_bounds(strategy, orders@[i as int]);
            assert(ORDER_INPUT_MAX * done.len() + ORDER_INPUT_MAX <= u128::MAX) by (nonlinear_arith)
                requires
                    done.len() <= usize::MAX,
                    usize::MAX <= u64::MAX,
            ;
        }
        input_pts.add_assign(step.0);
        output_pts.add_assign(step.1);
        i += 1;
    }
    proof {
        assert(orders@.take(i as int) =~= orders@);
    }
    (input_pts, output_pts)
}

/// Completes all three potions of every order, always at the full bonus
/// of 1.4.
///
/// On each axis the output total is the sum, over every slot of every order,
/// of the slot's output points times 1.4, rounded down slot by slot.
pub fn complete_every_order(orders: &[MixologyOrder]) -> (res: (MixologyPoints, MixologyPoints))
    ensures
        score_of(res) == total_score(Strategy::EveryOrder, orders@),
        score_of(res) == completed_sum(all_slots(orders@), FULL_TENTHS as nat),
{
    proof {
        lemma_every_order_sums_slots(orders@);
    }
    evaluate(Strategy::EveryOrder, orders)
}

/// Completes only the `MAL` potions of an order that has any, at the bonus
/// for that many potions, and all three potions of any other order.
pub fn complete_every_order_unless_mal(orders: &[MixologyOrder]) -> (res: (
    MixologyPoints,
    MixologyPoints,
))
    ensures
        score_of(res) == total_score(Strategy::EveryOrderUnlessMal, orders@),
{
    evaluate(Strategy::EveryOrderUnlessMal, orders)
}

/// Completes only the `MAL` potions of an order that has any, at the bonus
/// for that many potions, and only the best potion of any other order.
pub fn complete_best_order_unless_mal(orders: &[MixologyOrder]) -> (res: (
    MixologyPoints,
    MixologyPoints,
))
    ensures
        score_of(res) == total_score(Strategy::BestOrderUnlessMal, orders@),
{
    evaluate(Strategy::BestOrderUnlessMal, orders)
}

/// Completes all three potions of an order that holds `MAL`, and only the
/// best potion of any other order.
pub fn complete_best_order_unless_mal_then_all(orders: &[MixologyOrder]) -> (res: (
    MixologyPoints,
    MixologyPoints,
))
    ensures
        score_of(res) == total_score(Strategy::BestOrderUnlessMalThenAll, orders@),
{
    evaluate(Strategy::BestOrderUnlessMalThenAll, orders)
}

/// Completes the potions that are not of a single letter, unless two or
/// three of an order are: then only its best potion.
pub fn complete_all_but_single_letter(orders: &[MixologyOrder]) -> (res: (
    MixologyPoints,
    MixologyPoints,
))
    ensures
        score_of(res) == total_score(Strategy::AllButSingleLetter, orders@),
{
    evaluate(Strategy::AllButSingleLetter, orders)
}

/// In an order that holds `MAL`, completes the potions that are not made of
/// a single letter, unless two are: then only its best potion. Completes only
/// the best potion of any other order.
pub fn complete_best_order_unless_mal_then_all_but_single(orders: &[MixologyOrder]) -> (res: (
    MixologyPoints,
    MixologyPoints,
))
    ensures
        score_of(res) == total_score(Strategy::BestOrderUnlessMalThenAllButSingle, orders@),
{
    evaluate(Strategy::BestOrderUnlessMalThenAllButSingle, orders)
}

/// Completes all three potions of an order that holds `MAL`, and avoids the
/// single-letter potions of any other order.
pub fn complete_all_but_single_letter_unless_mal_then_all(orders: &[MixologyOrder]) -> (res: (
    MixologyPoints,
    MixologyPoints,
))
    ensures
        score_of(res) == total_score(Strategy::AllButSingleLetterUnlessMalThenAll, orders@),
{
    evaluate(Strategy::AllButSingleLetterUnlessMalThenAll, orders)
}

} // verus!
