//! Point totals on the three axes, and the multipliers that scale them.

use vstd::prelude::*;

verus! {

/// Mathematical point totals: one unbounded natural number per axis.
pub struct Totals {
    pub m: nat,
    pub a: nat,
    pub l: nat,
}

impl Totals {
    /// Nothing on any axis.
    pub open spec fn zero() -> Totals {
        Totals { m: 0, a: 0, l: 0 }
    }

    /// Axis-wise sum.
    pub open spec fn plus(self, other: Totals) -> Totals {
        Totals { m: self.m + other.m, a: self.a + other.a, l: self.l + other.l }
    }

    /// Every axis multiplied by `tenths / 10`, each rounded down to a whole
    /// number on its own.
    pub open spec fn scaled(self, tenths: nat) -> Totals {
        Totals {
            m: scale_axis(self.m, tenths),
            a: scale_axis(self.a, tenths),
            l: scale_axis(self.l, tenths),
        }
    }

    /// Whether no axis exceeds `bound`.
    pub open spec fn fits(self, bound: nat) -> bool {
        self.m <= bound && self.a <= bound && self.l <= bound
    }
}

/// One axis value multiplied by `tenths / 10` and rounded down.
#[verifier::opaque]
pub open spec fn scale_axis(value: nat, tenths: nat) -> nat {
    (value * tenths) / 10
}

/// Scaling grows with the value and with the factor.
pub proof fn lemma_scale_monotonic(value: nat, tenths: nat, value_max: nat, tenths_max: nat)
    requires
        value <= value_max,
        tenths <= tenths_max,
    ensures
        scale_axis(value, tenths) <= scale_axis(value_max, tenths_max),
{
    reveal(scale_axis);
    assert(value * tenths <= value_max * tenths_max) by (nonlinear_arith)
        requires
            value <= value_max,
            tenths <= tenths_max,
    ;
}

/// Scaling by a whole number is multiplying by it.
pub proof fn lemma_scale_whole(value: nat, n: nat)
    ensures
        scale_axis(value, 10 * n) == value * n,
{
    reveal(scale_axis);
    assert(value * (10 * n) == (value * n) * 10) by (nonlinear_arith);
    vstd::arithmetic::div_mod::lemma_div_by_multiple((value * n) as int, 10);
}

/// A scaling factor held exactly, in tenths: `12` stands for 1.2.
#[derive(Clone, Copy, Debug, PartialEq, Eq, Structural)]
pub struct Multiplier {
    pub tenths: u32,
}

/// Tenths of the multiplier that leaves a value unchanged.
pub const UNIT_TENTHS: u32 = 10;

/// Tenths of the bonus for completing two potions of an order.
pub const PAIR_TENTHS: u32 = 12;

/// Tenths of the bonus for completing all three potions of an order.
pub const FULL_TENTHS: u32 = 14;

/// A count of potions completed together that no order can have.
#[derive(Clone, Copy, Debug, PartialEq, Eq, Structural)]
pub struct CountOutOfRange {
    pub count: u8,
}

impl Multiplier {
    /// The bonus, in tenths, for completing `count` potions of one order:
    /// 1.0 for one, 1.2 for two, 1.4 for three.
    pub open spec fn bonus_tenths(count: nat) -> nat
        recommends
            1 <= count <= 3,
    {
        if count == 1 {
            10
        } else if count == 2 {
            12
        } else {
            14
        }
    }

    /// The multiplier that stands for the whole number `n`.
    pub fn whole(n: u8) -> (res: Multiplier)
        ensures
            res.tenths == 10 * n,
    {
        let wide: u32 = n.into();
        Multiplier { tenths: wide * 10 }
    }

    /// The completion bonus for `count` potions of one order. An order has
    /// three slots, so any other count than one, two or three is refused.
    pub fn for_count(count: u8) -> (res: Result<Multiplier, CountOutOfRange>)
        ensures
            1 <= count <= 3 ==> res == Ok::<Multiplier, CountOutOfRange>(
                Multiplier { tenths: Self::bonus_tenths(count as nat) as u32 },
            ),
            !(1 <= count <= 3) ==> res == Err::<Multiplier, CountOutOfRange>(
                CountOutOfRange { count },
            ),
    {
        if count == 1 {
            Ok(Multiplier { tenths: UNIT_TENTHS })
        } else if count == 2 {
            Ok(Multiplier { tenths: PAIR_TENTHS })
        } else if count == 3 {
            Ok(Multiplier { tenths: FULL_TENTHS })
        } else {
            Err(CountOutOfRange { count })
        }
    }
}

/// Running point totals of one evaluation, one counter per axis.
#[allow(non_snake_case)]
#[derive(Clone, Copy, Debug, PartialEq, Eq, Structural)]
pub struct MixologyPoints {
    pub M: u128,
    pub A: u128,
    pub L: u128,
}

impl View for MixologyPoints {
    type V = Totals;

    open spec fn view(&self) -> Totals {
        Totals { m: self.M as nat, a: self.A as nat, l: self.L as nat }
    }
}

impl Default for MixologyPoints {
    /// All three totals at zero.
    fn default() -> (res: MixologyPoints)
        ensures
            res@ == Totals::zero(),
    {
        MixologyPoints { M: 0, A: 0, L: 0 }
    }
}

/// `value * tenths / 10` rounded down, computed without forming the product.
fn scale_value(value: u128, tenths: u32) -> (res: u128)
    requires
        scale_axis(value as nat, tenths as nat) <= u128::MAX,
    ensures
        res == scale_axis(value as nat, tenths as nat),
{
    let whole: u128 = value / 10;
    let rest: u128 = value % 10;
    let factor: u128 = tenths.into();
    proof {
        lemma_scale_split(value as nat, tenths as nat);
    }
    assert(whole * factor <= scale_axis(value as nat, tenths as nat)) by (nonlinear_arith)
        requires
            scale_axis(value as nat, tenths as nat) == whole * factor + (rest * factor) / 10,
            0 <= rest * factor,
    ;
    assert(rest * factor <= 9 * 0xffff_ffff) by (nonlinear_arith)
        requires
            rest <= 9,
            factor <= 0xffff_ffff,
    ;
    whole * factor + (rest * factor) / 10
}

/// Splitting `value` into tens and units splits the scaled value the same way.
proof fn lemma_scale_split(value: nat, tenths: nat)
    ensures
        scale_axis(value, tenths) == (value / 10) * tenths + ((value % 10) * tenths) / 10,
{
    reveal(scale_axis);
    let q = value / 10;
    let r = value % 10;
    assert(value * tenths == (q * tenths) * 10 + r * tenths) by (nonlinear_arith)
        requires
            value == q * 10 + r,
    ;
    vstd::arithmetic::div_mod::lemma_hoist_over_denominator(
        (r * tenths) as int,
        (q * tenths) as int,
        10,
    );
}

impl MixologyPoints {
    /// Adds `rhs` to these totals, axis by axis.
    pub fn add_assign(&mut self, rhs: MixologyPoints)
        requires
            old(self)@.plus(rhs@).fits(u128::MAX as nat),
        ensures
            final(self)@ == old(self)@.plus(rhs@),
    {
        self.M = self.M + rhs.M;
        self.A = self.A + rhs.A;
        self.L = self.L + rhs.L;
    }

    /// The axis-wise sum of two totals.
    pub fn add(self, rhs: MixologyPoints) -> (res: MixologyPoints)
        requires
            self@.plus(rhs@).fits(u128::MAX as nat),
        ensures
            res@ == self@.plus(rhs@),
    {
        let mut sum = self;
        sum.add_assign(rhs);
        sum
    }

    /// These totals scaled by `rhs`, each axis rounded down on its own.
    pub fn mul(self, rhs: Multiplier) -> (res: MixologyPoints)
        requires
            self@.scaled(rhs.tenths as nat).fits(u128::MAX as nat),
        ensures
            res@ == self@.scaled(rhs.tenths as nat),
    {
        MixologyPoints {
            M: scale_value(self.M, rhs.tenths),
            A: scale_value(self.A, rhs.tenths),
            L: scale_value(self.L, rhs.tenths),
        }
    }
}

} // verus!
