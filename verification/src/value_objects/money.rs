use crate::text::{decimal_two, push_decimal_two, push_signed_decimal, signed_decimal};
use core::cmp::Ordering;
use vstd::std_specs::cmp::PartialOrdSpec;
use vstd::prelude::*;

verus! {

/// Monetary amount stored as a whole number of cents.
///
/// Whole cents avoid the rounding problems of binary floating point.
#[derive(Debug, Clone, Copy, PartialEq, Eq, Ord, Structural)]
pub struct Money(i64);

impl View for Money {
    type V = int;

    closed spec fn view(&self) -> int {
        self.0 as int
    }
}

/// Integer division of `a` by `b` rounding toward zero, as Rust's `/` does.
pub open spec fn div_trunc(a: int, b: int) -> int {
    if a >= 0 {
        a / b
    } else {
        -((-a) / b)
    }
}

/// The absolute value of an integer.
pub open spec fn abs(a: int) -> int {
    if a < 0 {
        -a
    } else {
        a
    }
}

/// The text of an amount: signed whole dollars, a dot, then the two-digit
/// absolute cents remainder.
pub open spec fn money_text(cents: int) -> Seq<char> {
    signed_decimal(div_trunc(cents, 100)) + seq!['.'] + decimal_two((abs(cents) % 100) as nat)
}

/// The difference `a - b` of two amounts, refused (`None`) when it would be
/// negative.
pub open spec fn money_difference(a: int, b: int) -> Option<int> {
    if a < b {
        None
    } else {
        Some(a - b)
    }
}

impl Money {
    /// Create a new amount from cents.
    pub fn from_cents(cents: i64) -> (m: Money)
        ensures
            m@ == cents,
    {
        Money(cents)
    }

    /// Create a new amount from whole dollars (converted to cents).
    pub fn from_dollars(dollars: i64) -> (m: Money)
        requires
            i64::MIN <= dollars * 100 <= i64::MAX,
        ensures
            m@ == dollars * 100,
    {
        Money(dollars * 100)
    }

    /// Return the amount in cents.
    pub fn cents(&self) -> (c: i64)
        ensures
            c == self@,
    {
        self.0
    }

    /// Return the amount in dollars (integer division, truncates cents).
    pub fn dollars(&self) -> (d: i64)
        ensures
            d == div_trunc(self@, 100),
    {
        self.0 / 100
    }

    /// Check if this amount is zero.
    pub fn is_zero(&self) -> (z: bool)
        ensures
            z == (self@ == 0),
    {
        self.0 == 0
    }

    /// Add two amounts.
    pub fn add(&self, other: &Money) -> (m: Money)
        requires
            i64::MIN <= self@ + other@ <= i64::MAX,
        ensures
            m@ == self@ + other@,
    {
        Money(self.0 + other.0)
    }

    /// Subtract two amounts. Returns `None` if the result would be negative.
    pub fn sub(&self, other: &Money) -> (m: Option<Money>)
        requires
            self@ < other@ || i64::MIN <= self@ - other@ <= i64::MAX,
        ensures
            m is None <==> money_difference(self@, other@) is None,
            m matches Some(d) ==> money_difference(self@, other@) == Some(d@),
    {
        if self.0 < other.0 {
            None
        } else {
            Some(Money(self.0 - other.0))
        }
    }

    /// Multiply by a scalar.
    pub fn mul(&self, scalar: i64) -> (m: Money)
        requires
            i64::MIN <= self@ * scalar <= i64::MAX,
        ensures
            m@ == self@ * scalar,
    {
        Money(self.0 * scalar)
    }

    /// The amount as text, e.g. `10.50` for 1050 cents.
    pub fn to_string(&self) -> (s: String)
        ensures
            s@ == money_text(self@),
    {
        let mut s = String::new();
        push_signed_decimal(&mut s, self.0 / 100);
        proof { reveal_strlit("."); }
        s.append(".");
        let magnitude: i128 = if self.0 < 0 { -(self.0 as i128) } else { self.0 as i128 };
        let rem: u64 = (magnitude % 100) as u64;
        push_decimal_two(&mut s, rem);
        assert(s@ =~= money_text(self@));
        s
    }

}

impl From<i64> for Money {
    fn from(cents: i64) -> (m: Money)
        ensures
            m@ == cents,
    {
        Money(cents)
    }
}

impl vstd::std_specs::convert::FromSpecImpl<i64> for Money {
    open spec fn obeys_from_spec() -> bool {
        true
    }

    closed spec fn from_spec(cents: i64) -> Money {
        Money(cents)
    }
}

/// A difference is never negative, and subtracting an amount that was just
/// added to a non-negative amount gives that amount back.
pub proof fn lemma_money_difference_laws(a: int, b: int)
    ensures
        money_difference(a, b) matches Some(d) ==> d >= 0,
        a >= 0 ==> money_difference(a + b, b) == Some(a),
{
}

/// Whole dollars converted to cents read back as the same whole dollars.
pub proof fn lemma_dollars_round_trip(dollars: int)
    ensures
        div_trunc(dollars * 100, 100) == dollars,
{
    if dollars >= 0 {
        assert((dollars * 100) / 100 == dollars) by (nonlinear_arith);
    } else {
        assert(((-dollars) * 100) / 100 == -dollars) by (nonlinear_arith);
        assert(-(dollars * 100) == (-dollars) * 100) by (nonlinear_arith);
    }
}

/// The order of two amounts: that of their cents.
pub open spec fn money_order(a: int, b: int) -> Option<Ordering> {
    if a < b {
        Some(Ordering::Less)
    } else if a == b {
        Some(Ordering::Equal)
    } else {
        Some(Ordering::Greater)
    }
}

impl PartialOrd for Money {
    fn partial_cmp(&self, other: &Money) -> (r: Option<Ordering>) {
        if self.0 < other.0 {
            Some(Ordering::Less)
        } else if self.0 == other.0 {
            Some(Ordering::Equal)
        } else {
            Some(Ordering::Greater)
        }
    }
}

impl vstd::std_specs::cmp::PartialOrdSpecImpl for Money {
    open spec fn obeys_partial_cmp_spec() -> bool {
        true
    }

    open spec fn partial_cmp_spec(&self, other: &Money) -> Option<Ordering> {
        money_order(self@, other@)
    }
}

/// Amounts are ordered as their cents are.
pub proof fn lemma_money_order_follows_cents(a: Money, b: Money)
    ensures
        a.partial_cmp_spec(&b) == Some(Ordering::Less) <==> a@ < b@,
        a.partial_cmp_spec(&b) == Some(Ordering::Equal) <==> a@ == b@,
        a.partial_cmp_spec(&b) == Some(Ordering::Greater) <==> a@ > b@,
{
}

} // verus!
