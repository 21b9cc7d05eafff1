//! Non-negative quantities in fixed point, and how they are shown.

use vstd::prelude::*;
use crate::numeral::{fixed_text, push_fixed};

verus! {

/// How many millionths make one whole.
pub const MILLIONTHS_PER_UNIT: u64 = 1_000_000;

/// How many millionths make one tenth.
pub const MILLIONTHS_PER_TENTH: u64 = 100_000;

/// `n` counted in multiples of `unit`, to the nearest multiple; where `n`
/// lies halfway between two, the even count is taken.
pub open spec fn round_half_even(n: nat, unit: nat) -> nat
    recommends
        unit > 0,
{
    let count = n / unit;
    let rest = n % unit;
    if 2 * rest > unit || (2 * rest == unit && count % 2 == 1) {
        count + 1
    } else {
        count
    }
}

/// The distance between `n` and `count` multiples of `unit`.
pub open spec fn distance_to(n: nat, count: nat, unit: nat) -> nat {
    if count * unit >= n {
        (count * unit - n) as nat
    } else {
        (n - count * unit) as nat
    }
}

/// Rounds `n` to a count of `unit`s. The result is a nearest count, and
/// the even one where two are equally near.
pub fn round_to_unit(n: u64, unit: u64) -> (count: u64)
    requires
        unit > 0,
    ensures
        count == round_half_even(n as nat, unit as nat),
        2 * distance_to(n as nat, count as nat, unit as nat) <= unit,
        2 * distance_to(n as nat, count as nat, unit as nat) == unit ==> count % 2 == 0,
{
    let whole: u64 = n / unit;
    let rest: u64 = n % unit;
    let gap: u64 = unit - rest;
    proof {
        assert(n as nat == (whole as nat) * (unit as nat) + rest as nat) by (nonlinear_arith)
            requires
                unit > 0,
                whole == n / unit,
                rest == n % unit,
        ;
        assert((whole as nat + 1) * (unit as nat) == (whole as nat) * (unit as nat) + unit as nat)
            by (nonlinear_arith);
        assert(unit >= 2 ==> whole < u64::MAX) by (nonlinear_arith)
            requires
                unit > 0,
                whole == n / unit,
                n <= u64::MAX,
        ;
    }
    if rest > gap || (rest == gap && whole % 2 == 1) {
        whole + 1
    } else {
        whole
    }
}

/// A non-negative quantity, held as a whole number of millionths of its
/// unit of measure.
#[derive(Debug, Copy, Clone, PartialEq, Eq, Structural)]
pub struct Quantity {
    pub millionths: u64,
}

impl View for Quantity {
    type V = nat;

    open spec fn view(&self) -> nat {
        self.millionths as nat
    }
}

/// The quantity `q`, given in millionths, to one decimal place.
pub open spec fn one_decimal_text(q: nat) -> Seq<char> {
    fixed_text(round_half_even(q, MILLIONTHS_PER_TENTH as nat), 1)
}

/// The quantity `q`, given in millionths, counted in thousands of its unit
/// and shown to three decimal places.
pub open spec fn thousands_text(q: nat) -> Seq<char> {
    fixed_text(round_half_even(q, MILLIONTHS_PER_UNIT as nat), 3)
}

impl Quantity {
    /// The quantity of `millionths` millionths.
    pub fn from_millionths(millionths: u64) -> (q: Quantity)
        ensures
            q@ == millionths,
    {
        Quantity { millionths }
    }

    /// Appends the quantity to one decimal place.
    pub fn fmt_one_decimal(&self, f: &mut String)
        ensures
            final(f)@ == old(f)@ + one_decimal_text(self@),
    {
        push_fixed(f, round_to_unit(self.millionths, MILLIONTHS_PER_TENTH), 1);
    }

    /// Appends the quantity in thousands of its unit, to three decimal
    /// places.
    pub fn fmt_thousands(&self, f: &mut String)
        ensures
            final(f)@ == old(f)@ + thousands_text(self@),
    {
        push_fixed(f, round_to_unit(self.millionths, MILLIONTHS_PER_UNIT), 3);
    }
}

} // verus!
