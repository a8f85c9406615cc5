//! Exact percentages.
//!
//! A [`Percent`] is the rational number `numer / denom`. Keeping the ratio,
//! rather than a rounded quotient, makes threshold tests exact; rounding
//! happens only when a value is shown.

use crate::text::{decimal, decimal_string, digit_char, digit_text};
use vstd::prelude::*;

verus! {

/// The largest numerator a [`Percent`] can hold: 2^120 - 1.
pub const MAX_NUMER: u128 = 0xff_ffff_ffff_ffff_ffff_ffff_ffff_ffff;

/// `a / b` rounded to the nearest integer; a tie goes to the even neighbour.
pub open spec fn round_half_even(a: nat, b: nat) -> nat
    recommends
        b > 0,
{
    let q = a / b;
    let r = a % b;
    if 2 * r < b {
        q
    } else if 2 * r > b {
        q + 1
    } else if q % 2 == 0 {
        q
    } else {
        q + 1
    }
}

/// The text of `tenths / 10` with exactly one digit after the point.
pub open spec fn one_decimal(tenths: nat) -> Seq<char> {
    decimal(tenths / 10) + seq!['.', digit_char(tenths % 10)]
}

/// A non-negative percentage, held exactly as `numer / denom`.
#[derive(Clone, Copy, Debug, PartialEq, Eq, Structural)]
pub struct Percent {
    numer: u128,
    denom: u64,
}

impl Percent {
    #[verifier::type_invariant]
    spec fn well_formed(self) -> bool {
        self.denom > 0 && self.numer <= MAX_NUMER
    }

    /// The numerator of the ratio.
    pub closed spec fn numer(self) -> nat {
        self.numer as nat
    }

    /// The denominator of the ratio.
    pub closed spec fn denom(self) -> nat {
        self.denom as nat
    }

    /// The percentage `numer / denom`.
    pub closed spec fn of(numer: nat, denom: nat) -> Percent {
        Percent { numer: numer as u128, denom: denom as u64 }
    }

    /// Whether the percentage is strictly greater than `threshold`.
    pub open spec fn above(self, threshold: nat) -> bool {
        self.numer() > threshold * self.denom()
    }

    /// The percentage in tenths, rounded half to even.
    pub open spec fn rounded_tenths(self) -> nat {
        round_half_even(self.numer() * 10, self.denom())
    }

    /// The text shown for the percentage: one digit after the point.
    pub open spec fn text(self) -> Seq<char> {
        one_decimal(self.rounded_tenths())
    }

    /// `of` builds the ratio it is given, as long as both parts fit.
    pub broadcast proof fn lemma_of_parts(numer: nat, denom: nat)
        requires
            numer <= u128::MAX,
            denom <= u64::MAX,
        ensures
            (#[trigger] Percent::of(numer, denom)).numer() == numer,
            Percent::of(numer, denom).denom() == denom,
    {
    }

    /// A percentage is determined by its numerator and denominator.
    pub broadcast proof fn lemma_parts_determine(self)
        ensures
            #[trigger] Percent::of(self.numer(), self.denom()) == self,
    {
    }

    /// The ratio `numer / denom`, if `denom` is positive and `numer` is at
    /// most [`MAX_NUMER`].
    pub fn new(numer: u128, denom: u64) -> (p: Option<Percent>)
        ensures
            p is Some <==> denom > 0 && numer <= MAX_NUMER,
            p is Some ==> p->0 == Percent::of(numer as nat, denom as nat),
    {
        if denom > 0 && numer <= MAX_NUMER {
            Some(Percent { numer, denom })
        } else {
            None
        }
    }

    /// Zero percent.
    pub fn zero() -> (p: Percent)
        ensures
            p == Percent::of(0, 1),
    {
        Percent { numer: 0, denom: 1 }
    }

    /// The whole percentage `n`.
    pub fn whole(n: u64) -> (p: Percent)
        ensures
            p == Percent::of(n as nat, 1),
    {
        Percent { numer: n as u128, denom: 1 }
    }

    /// The numerator of the ratio.
    pub fn numerator(&self) -> (n: u128)
        ensures
            n == self.numer(),
            n <= MAX_NUMER,
    {
        proof {
            use_type_invariant(self);
        }
        self.numer
    }

    /// The denominator of the ratio; never zero.
    pub fn denominator(&self) -> (d: u64)
        ensures
            d == self.denom(),
            d > 0,
    {
        proof {
            use_type_invariant(self);
        }
        self.denom
    }

    /// Whether the percentage is strictly greater than `threshold`.
    pub fn exceeds(&self, threshold: u64) -> (b: bool)
        ensures
            b == self.above(threshold as nat),
    {
        assert((threshold as u128) * (self.denom as u128) <= u64::MAX * u64::MAX)
            by (nonlinear_arith);
        let bound: u128 = (threshold as u128) * (self.denom as u128);
        self.numer > bound
    }

    /// The percentage in tenths, rounded half to even.
    pub fn tenths(&self) -> (t: u128)
        ensures
            t == self.rounded_tenths(),
    {
        proof {
            use_type_invariant(self);
        }
        ratio_tenths(self.numer, self.denom)
    }

    /// The percentage with one digit after the point, as in `12.5`.
    pub fn to_string(&self) -> (s: String)
        ensures
            s@ == self.text(),
    {
        let t: u128 = self.tenths();
        render_tenths(t)
    }
}

/// Ten times `numer / denom`, rounded to the nearest integer; a tie goes to
/// the even neighbour.
pub(crate) fn ratio_tenths(numer: u128, denom: u64) -> (t: u128)
    requires
        denom > 0,
        numer <= MAX_NUMER,
    ensures
        t == round_half_even(numer as nat * 10, denom as nat),
{
    let scaled: u128 = numer * 10;
    let d: u128 = denom as u128;
    let q: u128 = scaled / d;
    let r: u128 = scaled % d;
    if 2 * r < d {
        q
    } else if 2 * r > d {
        q + 1
    } else if q % 2 == 0 {
        q
    } else {
        q + 1
    }
}

/// The text of `tenths / 10` with one digit after the point.
pub fn render_tenths(tenths: u128) -> (s: String)
    ensures
        s@ == one_decimal(tenths as nat),
{
    proof {
        reveal_strlit(".");
    }
    let mut out = decimal_string(tenths / 10);
    out.append(".");
    out.append(digit_text((tenths % 10) as u8));
    out
}

} // verus!
