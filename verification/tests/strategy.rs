use mixology::order::MixologyOrder;
use mixology::points::MixologyPoints;
use mixology::potion::MixologyPotion;
use mixology::score::Strategy;
use mixology::strategy::{
    complete_all_but_single_letter, complete_all_but_single_letter_unless_mal_then_all,
    complete_best_order_unless_mal, complete_best_order_unless_mal_then_all,
    complete_best_order_unless_mal_then_all_but_single, complete_every_order,
    complete_every_order_unless_mal, evaluate, score_order,
};

use mixology::potion::MixologyPotion::{AAA, AAL, AAM, LLA, LLL, LLM, MAL, MMA, MML, MMM};

fn pts(m: u128, a: u128, l: u128) -> MixologyPoints {
    MixologyPoints { M: m, A: a, L: l }
}

fn order(first: MixologyPotion, second: MixologyPotion, third: MixologyPotion) -> MixologyOrder {
    MixologyOrder { first, second, third }
}

fn strategies() -> Vec<Strategy> {
    vec![
        Strategy::EveryOrder,
        Strategy::EveryOrderUnlessMal,
        Strategy::BestOrderUnlessMal,
        Strategy::BestOrderUnlessMalThenAll,
        Strategy::AllButSingleLetter,
        Strategy::BestOrderUnlessMalThenAllButSingle,
        Strategy::AllButSingleLetterUnlessMalThenAll,
    ]
}

fn every_order() -> Vec<MixologyOrder> {
    let kinds = MixologyPotion::all();
    let mut orders = Vec::new();
    for a in kinds.iter() {
        for b in kinds.iter() {
            for c in kinds.iter() {
                orders.push(order(*a, *b, *c));
            }
        }
    }
    orders
}

#[test]
fn three_mmm_completed_in_full() {
    let orders = vec![order(MMM, MMM, MMM)];
    let (input, output) = complete_every_order(&orders);
    assert_eq!(input, pts(90, 0, 0));
    assert_eq!(output, pts(84, 0, 0));
}

#[test]
fn three_mmm_with_single_letters_avoided() {
    let orders = vec![order(MMM, MMM, MMM)];
    let (input, output) = complete_all_but_single_letter(&orders);
    assert_eq!(input, pts(30, 0, 0));
    assert_eq!(output, pts(20, 0, 0));
    let ratio = output.M as f64 / input.M as f64;
    assert!((ratio - 0.667).abs() < 0.0005);
}

#[test]
fn every_order_earns_the_sum_of_scaled_slots() {
    let orders = vec![order(MMM, AAM, MAL), order(LLA, LLA, AAA), order(MML, AAL, LLM)];
    let (input, output) = complete_every_order(&orders);
    // At 1.4 the slots earn: MMM 28/0/0, AAM 14/28/0, MAL 28/28/28,
    // LLA 0/14/28 (twice), AAA 0/28/0, MML 28/0/14, AAL 0/28/14, LLM 14/0/28.
    assert_eq!(output.M, 28 + 14 + 28 + 28 + 14);
    assert_eq!(output.A, 28 + 28 + 14 + 14 + 28 + 28);
    assert_eq!(output.L, 28 + 28 + 28 + 14 + 14 + 28);
    assert_eq!(output, pts(112, 140, 140));
    assert_eq!(input, pts(80, 100, 90));
    let mut by_slot = pts(0, 0, 0);
    for o in orders.iter() {
        for kind in [o.first, o.second, o.third] {
            let out = kind.output_points();
            by_slot.add_assign(pts(out.M * 14 / 10, out.A * 14 / 10, out.L * 14 / 10));
        }
    }
    assert_eq!(output, by_slot);
}

#[test]
fn three_mal_earn_the_full_bonus_and_nothing_else() {
    let orders = vec![order(MAL, MAL, MAL)];
    let unless_mal = complete_every_order_unless_mal(&orders);
    assert_eq!(unless_mal.0, pts(30, 30, 30));
    assert_eq!(unless_mal.1, pts(84, 84, 84));
    assert_eq!(complete_best_order_unless_mal(&orders), unless_mal);
    assert_eq!(complete_best_order_unless_mal_then_all(&orders), unless_mal);
}

#[test]
fn only_the_mal_slots_count_when_mal_is_singled_out() {
    let two = vec![order(MAL, AAA, MAL)];
    assert_eq!(complete_every_order_unless_mal(&two), (pts(20, 20, 20), pts(48, 48, 48)));
    assert_eq!(complete_best_order_unless_mal(&two), (pts(20, 20, 20), pts(48, 48, 48)));
    let one = vec![order(MMA, MAL, LLL)];
    assert_eq!(complete_every_order_unless_mal(&one), (pts(10, 10, 10), pts(20, 20, 20)));
    assert_eq!(complete_best_order_unless_mal(&one), (pts(10, 10, 10), pts(20, 20, 20)));
}

#[test]
fn mal_branch_is_shared_on_every_order_with_mal() {
    for o in every_order() {
        if o.contains(MAL) {
            assert_eq!(
                score_order(Strategy::EveryOrderUnlessMal, &o),
                score_order(Strategy::BestOrderUnlessMal, &o)
            );
        }
    }
}

#[test]
fn two_pure_slots_leave_only_the_best_potion() {
    let orders = vec![order(MMM, AAA, AAM)];
    let (input, output) = complete_all_but_single_letter(&orders);
    assert_eq!(input, AAM.input_points());
    assert_eq!(output, AAM.output_points());
    assert_eq!(input, pts(10, 20, 0));
    assert_eq!(output, pts(10, 20, 0));
}

#[test]
fn every_order_unless_mal_without_mal_completes_all() {
    let orders = vec![order(AAA, MMM, LLL)];
    assert_eq!(complete_every_order_unless_mal(&orders), (pts(30, 30, 30), pts(28, 28, 28)));
}

#[test]
fn best_order_unless_mal_without_mal_completes_the_best() {
    let orders = vec![order(AAM, MMA, LLL)];
    assert_eq!(complete_best_order_unless_mal(&orders), (pts(20, 10, 0), pts(20, 10, 0)));
}

#[test]
fn best_order_unless_mal_then_all_on_both_branches() {
    let with = vec![order(MAL, AAA, MMM)];
    assert_eq!(complete_best_order_unless_mal_then_all(&with), (pts(40, 40, 10), pts(56, 56, 28)));
    let without = vec![order(AAA, MMM, LLL)];
    assert_eq!(complete_best_order_unless_mal_then_all(&without), (pts(0, 0, 30), pts(0, 0, 20)));
}

#[test]
fn all_but_single_letter_by_number_of_pure_slots() {
    let none = vec![order(AAM, MMA, MAL)];
    assert_eq!(complete_all_but_single_letter(&none), (pts(40, 40, 10), pts(70, 70, 28)));
    let one = vec![order(MMM, AAM, LLA)];
    assert_eq!(complete_all_but_single_letter(&one), (pts(10, 30, 20), pts(12, 36, 24)));
    let two = vec![order(LLL, AAL, AAA)];
    assert_eq!(complete_all_but_single_letter(&two), (pts(0, 20, 10), pts(0, 20, 10)));
    let three = vec![order(AAA, LLL, MMM)];
    assert_eq!(complete_all_but_single_letter(&three), (pts(0, 0, 30), pts(0, 0, 20)));
}

#[test]
fn best_order_unless_mal_then_all_but_single_on_every_branch() {
    let two_pure = vec![order(MAL, MMM, AAA)];
    assert_eq!(
        complete_best_order_unless_mal_then_all_but_single(&two_pure),
        (pts(10, 10, 10), pts(20, 20, 20))
    );
    let one_pure = vec![order(MAL, MMM, AAM)];
    assert_eq!(
        complete_best_order_unless_mal_then_all_but_single(&one_pure),
        (pts(20, 30, 10), pts(36, 48, 24))
    );
    let no_pure = vec![order(MAL, AAM, LLA)];
    assert_eq!(
        complete_best_order_unless_mal_then_all_but_single(&no_pure),
        (pts(20, 40, 30), pts(42, 70, 56))
    );
    let no_mal = vec![order(AAM, LLA, MMM)];
    assert_eq!(
        complete_best_order_unless_mal_then_all_but_single(&no_mal),
        (pts(0, 10, 20), pts(0, 10, 20))
    );
}

#[test]
fn all_but_single_letter_unless_mal_then_all_on_both_branches() {
    let with = vec![order(MAL, MMM, AAA)];
    assert_eq!(
        complete_all_but_single_letter_unless_mal_then_all(&with),
        (pts(40, 40, 10), pts(56, 56, 28))
    );
    let without = vec![order(MMM, AAM, LLA)];
    assert_eq!(
        complete_all_but_single_letter_unless_mal_then_all(&without),
        (pts(10, 30, 20), pts(12, 36, 24))
    );
    let pure = vec![order(MMM, MMM, LLL)];
    assert_eq!(
        complete_all_but_single_letter_unless_mal_then_all(&pure),
        (pts(0, 0, 30), pts(0, 0, 20))
    );
}

#[test]
fn no_orders_score_nothing() {
    let orders: Vec<MixologyOrder> = Vec::new();
    for strategy in strategies() {
        assert_eq!(evaluate(strategy, &orders), (pts(0, 0, 0), pts(0, 0, 0)));
    }
    assert_eq!(complete_every_order(&orders), (pts(0, 0, 0), pts(0, 0, 0)));
}

#[test]
fn named_strategies_are_the_listed_ones() {
    let orders = every_order();
    assert_eq!(complete_every_order(&orders), evaluate(Strategy::EveryOrder, &orders));
    assert_eq!(
        complete_every_order_unless_mal(&orders),
        evaluate(Strategy::EveryOrderUnlessMal, &orders)
    );
    assert_eq!(
        complete_best_order_unless_mal(&orders),
        evaluate(Strategy::BestOrderUnlessMal, &orders)
    );
    assert_eq!(
        complete_best_order_unless_mal_then_all(&orders),
        evaluate(Strategy::BestOrderUnlessMalThenAll, &orders)
    );
    assert_eq!(
        complete_all_but_single_letter(&orders),
        evaluate(Strategy::AllButSingleLetter, &orders)
    );
    assert_eq!(
        complete_best_order_unless_mal_then_all_but_single(&orders),
        evaluate(Strategy::BestOrderUnlessMalThenAllButSingle, &orders)
    );
    assert_eq!(
        complete_all_but_single_letter_unless_mal_then_all(&orders),
        evaluate(Strategy::AllButSingleLetterUnlessMalThenAll, &orders)
    );
}

#[test]
fn totals_are_the_sum_of_the_order_scores() {
    let orders = every_order();
    for strategy in strategies() {
        let mut input = pts(0, 0, 0);
        let mut output = pts(0, 0, 0);
        for o in orders.iter() {
            let step = score_order(strategy, o);
            input.add_assign(step.0);
            output.add_assign(step.1);
        }
        assert_eq!(evaluate(strategy, &orders), (input, output));
    }
}

#[test]
fn scoring_in_two_parts_adds_up() {
    let orders = every_order();
    for strategy in strategies() {
        let whole = evaluate(strategy, &orders);
        for cut in [0, 1, 17, 500, 999, 1000] {
            let left = evaluate(strategy, &orders[..cut]);
            let right = evaluate(strategy, &orders[cut..]);
            assert_eq!(whole.0, left.0.add(right.0));
            assert_eq!(whole.1, left.1.add(right.1));
        }
    }
}

#[test]
fn scoring_interleaved_shards_adds_up() {
    let orders = every_order();
    let mut even = Vec::new();
    let mut odd = Vec::new();
    for (i, o) in orders.iter().enumerate() {
        if i % 2 == 0 {
            even.push(*o);
        } else {
            odd.push(*o);
        }
    }
    for strategy in strategies() {
        let whole = evaluate(strategy, &orders);
        let a = evaluate(strategy, &even);
        let b = evaluate(strategy, &odd);
        assert_eq!(whole.0, a.0.add(b.0));
        assert_eq!(whole.1, a.1.add(b.1));
    }
}

#[test]
fn zero_input_on_an_axis_means_zero_output_on_it() {
    let orders = vec![order(MMM, MMM, MMM), order(MMM, MMA, MMM)];
    for strategy in strategies() {
        let (input, output) = evaluate(strategy, &orders);
        assert_eq!(input.L, 0);
        assert_eq!(output.L, 0);
        let ratio = output.L as f64 / input.L as f64;
        assert!(ratio.is_nan());
        assert!(input.M > 0);
        assert!((output.M as f64 / input.M as f64).is_finite());
    }
}

#[test]
fn one_order_stays_within_its_bounds() {
    for o in every_order() {
        for strategy in strategies() {
            let (input, output) = score_order(strategy, &o);
            for v in [input.M, input.A, input.L] {
                assert!(v <= 90);
            }
            for v in [output.M, output.A, output.L] {
                assert!(v <= 84);
            }
        }
    }
}

fn scaled(points: MixologyPoints, factor: f32) -> MixologyPoints {
    MixologyPoints {
        M: (points.M as f32 * factor) as u128,
        A: (points.A as f32 * factor) as u128,
        L: (points.L as f32 * factor) as u128,
    }
}

fn is_pure(kind: MixologyPotion) -> bool {
    kind == MMM || kind == AAA || kind == LLL
}

fn all_in_floats(o: &MixologyOrder, factor: f32) -> (MixologyPoints, MixologyPoints) {
    let mut input = pts(0, 0, 0);
    let mut output = pts(0, 0, 0);
    for kind in [o.first, o.second, o.third] {
        input.add_assign(kind.input_points());
        output.add_assign(scaled(kind.output_points(), factor));
    }
    (input, output)
}

fn mal_in_floats(o: &MixologyOrder) -> (MixologyPoints, MixologyPoints) {
    let num_mal = o.num(MAL);
    let factor: f32 = match num_mal {
        1 => 1.,
        2 => 1.2,
        3 => 1.4,
        _ => panic!("no such count"),
    };
    (
        scaled(MAL.input_points(), num_mal as f32),
        scaled(scaled(MAL.output_points(), factor), num_mal as f32),
    )
}

fn best_in_floats(o: &MixologyOrder) -> (MixologyPoints, MixologyPoints) {
    let best = std::cmp::max(std::cmp::max(o.first, o.second), o.third);
    (best.input_points(), best.output_points())
}

fn mixed_in_floats(o: &MixologyOrder, factor: f32) -> (MixologyPoints, MixologyPoints) {
    let mut input = pts(0, 0, 0);
    let mut output = pts(0, 0, 0);
    for kind in [o.first, o.second, o.third] {
        if !is_pure(kind) {
            input.add_assign(kind.input_points());
            output.add_assign(scaled(kind.output_points(), factor));
        }
    }
    (input, output)
}

fn avoiding_in_floats(o: &MixologyOrder) -> (MixologyPoints, MixologyPoints) {
    let num_single = o.num(MMM) + o.num(AAA) + o.num(LLL);
    if num_single == 3 || num_single == 2 {
        return best_in_floats(o);
    }
    mixed_in_floats(o, if num_single == 1 { 1.2 } else { 1.4 })
}

fn in_floats(strategy: Strategy, o: &MixologyOrder) -> (MixologyPoints, MixologyPoints) {
    let has_mal = o.first == MAL || o.second == MAL || o.third == MAL;
    match strategy {
        Strategy::EveryOrder => all_in_floats(o, 1.4),
        Strategy::EveryOrderUnlessMal => {
            if has_mal {
                mal_in_floats(o)
            } else {
                all_in_floats(o, 1.4)
            }
        }
        Strategy::BestOrderUnlessMal => {
            if has_mal {
                mal_in_floats(o)
            } else {
                best_in_floats(o)
            }
        }
        Strategy::BestOrderUnlessMalThenAll => {
            if has_mal {
                all_in_floats(o, 1.4)
            } else {
                best_in_floats(o)
            }
        }
        Strategy::AllButSingleLetter => avoiding_in_floats(o),
        Strategy::BestOrderUnlessMalThenAllButSingle => {
            if has_mal {
                let num_single = o.num(MMM) + o.num(AAA) + o.num(LLL);
                if num_single == 2 {
                    best_in_floats(o)
                } else {
                    mixed_in_floats(o, if num_single == 1 { 1.2 } else { 1.4 })
                }
            } else {
                best_in_floats(o)
            }
        }
        Strategy::AllButSingleLetterUnlessMalThenAll => {
            if has_mal {
                all_in_floats(o, 1.4)
            } else {
                avoiding_in_floats(o)
            }
        }
    }
}

#[test]
fn tenths_agree_with_single_precision_floats_on_every_order() {
    for o in every_order() {
        for strategy in strategies() {
            assert_eq!(score_order(strategy, &o), in_floats(strategy, &o));
        }
    }
}
