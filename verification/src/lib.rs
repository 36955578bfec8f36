//! Monetary amounts tied to a currency.
//!
//! A [`currency::Currency`] describes a currency by code, minor-unit divisor
//! and display symbol; a [`Money`] is a signed count of minor units in one
//! currency. Comparison and arithmetic are defined only between amounts of
//! the same currency: mixing currencies without an explicit conversion is a
//! caller error, while looking up an unknown currency code is an ordinary,
//! recoverable failure. Display formatting is computed exactly, from
//! integers alone.

use vstd::prelude::*;
use vstd::string::StringExecFns;
use vstd::arithmetic::div_mod::{
    lemma_div_is_ordered_by_denominator,
    lemma_div_nonincreasing,
    lemma_div_pos_is_pos,
};

use core::cmp::Ordering;

pub mod currency;
pub mod decimal;

verus! {

/// An amount of money: a signed count of minor units together with the
/// currency they are counted in. Negative amounts stand for debt.
#[derive(Debug)]
pub struct Money {
    amount: i64,
    currency: currency::Currency,
}

impl Money {
    /// The amount in minor units, as a mathematical integer.
    pub closed spec fn spec_amount(self) -> int {
        self.amount as int
    }

    /// The currency the amount is counted in.
    pub closed spec fn spec_currency(self) -> currency::Currency {
        self.currency
    }

    /// Both values are counted in the same currency.
    pub open spec fn same_currency(self, rhs: Money) -> bool {
        self.spec_currency().matches(rhs.spec_currency())
    }

    /// Builds an amount of money. Any amount is accepted; nothing is
    /// validated.
    pub fn new(amount: i64, currency: currency::Currency) -> (m: Money)
        ensures
            m.spec_amount() == amount as int,
            m.spec_currency() == currency,
    {
        Money { amount, currency }
    }

    /// The display form of the amount: the currency code, then the symbol,
    /// then the amount in major units as [`decimal::amount_chars`] renders
    /// it.
    pub open spec fn spec_format(self) -> Seq<char> {
        self.spec_currency().spec_code() + seq![self.spec_currency().spec_symbol()]
            + decimal::amount_chars(self.spec_amount(), self.spec_currency().spec_divisor())
    }

    /// Renders the amount for display: `"USD$123.45"` for 12345 minor units
    /// of a divisor-100 currency, `"JPY¥12345"` for a divisor-1 currency.
    /// The text is computed from integers alone, so it is exact on every
    /// platform; trailing zeros of the fraction are dropped, and a fraction
    /// of zero is dropped whole.
    pub fn format(&self) -> (r: String)
        ensures
            r@ == self.spec_format(),
    {
        let mut s = String::new();
        s.append(self.currency.code());
        decimal::push_char(&mut s, self.currency.symbol());
        let d = self.currency.divisor();
        decimal::push_amount(&mut s, self.amount, d as u64);
        proof {
            assert(s@ =~= self.spec_format());
        }
        s
    }

    /// Money equality: the amounts are equal and the currencies are
    /// structurally equal. Amounts in different currencies are never equal.
    pub open spec fn spec_eq(self, rhs: Money) -> bool {
        self.spec_amount() == rhs.spec_amount() && self.same_currency(rhs)
    }

    /// Three-way comparison: within one currency it is the integer order of
    /// the amounts; across currencies no ordering is defined.
    pub open spec fn spec_cmp(self, rhs: Money) -> Option<Ordering> {
        if self.same_currency(rhs) {
            if self.spec_amount() < rhs.spec_amount() {
                Some(Ordering::Less)
            } else if self.spec_amount() == rhs.spec_amount() {
                Some(Ordering::Equal)
            } else {
                Some(Ordering::Greater)
            }
        } else {
            None
        }
    }

    /// Compares two amounts three ways. Amounts in the same currency are
    /// ordered by their integer amounts; amounts in different currencies are
    /// incomparable and yield `None`.
    pub fn partial_cmp(&self, rhs: &Money) -> (r: Option<Ordering>)
        ensures
            r == self.spec_cmp(*rhs),
    {
        if self.currency == rhs.currency {
            if self.amount < rhs.amount {
                Some(Ordering::Less)
            } else if self.amount == rhs.amount {
                Some(Ordering::Equal)
            } else {
                Some(Ordering::Greater)
            }
        } else {
            None
        }
    }

    /// Strictly less than. Comparing across currencies is a caller error:
    /// the precondition forbids it, and an unverified caller that does it
    /// anyway halts.
    pub fn lt(&self, rhs: &Money) -> (r: bool)
        requires
            self.same_currency(*rhs),
        ensures
            r == (self.spec_amount() < rhs.spec_amount()),
    {
        if self.currency == rhs.currency {
            self.amount < rhs.amount
        } else {
            unreached()
        }
    }

    /// Less than or equal, under the same currency rule as `lt`.
    pub fn le(&self, rhs: &Money) -> (r: bool)
        requires
            self.same_currency(*rhs),
        ensures
            r == (self.spec_amount() <= rhs.spec_amount()),
    {
        self.lt(rhs) || self.eq(rhs)
    }

    /// Strictly greater than, under the same currency rule as `lt`.
    pub fn gt(&self, rhs: &Money) -> (r: bool)
        requires
            self.same_currency(*rhs),
        ensures
            r == (self.spec_amount() > rhs.spec_amount()),
    {
        if self.currency == rhs.currency {
            self.amount > rhs.amount
        } else {
            unreached()
        }
    }

    /// Greater than or equal, under the same currency rule as `lt`.
    pub fn ge(&self, rhs: &Money) -> (r: bool)
        requires
            self.same_currency(*rhs),
        ensures
            r == (self.spec_amount() >= rhs.spec_amount()),
    {
        self.gt(rhs) || self.eq(rhs)
    }

    /// Sum of two amounts of the same currency. Adding across currencies is
    /// a caller error: the precondition forbids it, and an unverified caller
    /// that does it anyway halts. The sum must fit in the amount type.
    pub fn add(&self, rhs: &Money) -> (r: Money)
        requires
            self.same_currency(*rhs),
            i64::MIN <= self.spec_amount() + rhs.spec_amount() <= i64::MAX,
        ensures
            r.spec_amount() == self.spec_amount() + rhs.spec_amount(),
            r.spec_currency() == self.spec_currency(),
    {
        if self.currency == rhs.currency {
            Money { amount: self.amount + rhs.amount, currency: self.currency.clone() }
        } else {
            unreached()
        }
    }

    /// Difference of two amounts of the same currency, under the same
    /// currency and range rules as `add`.
    pub fn sub(&self, rhs: &Money) -> (r: Money)
        requires
            self.same_currency(*rhs),
            i64::MIN <= self.spec_amount() - rhs.spec_amount() <= i64::MAX,
        ensures
            r.spec_amount() == self.spec_amount() - rhs.spec_amount(),
            r.spec_currency() == self.spec_currency(),
    {
        if self.currency == rhs.currency {
            Money { amount: self.amount - rhs.amount, currency: self.currency.clone() }
        } else {
            unreached()
        }
    }

    /// Product of two amounts of the same currency, under the same currency
    /// and range rules as `add`.
    pub fn mul(&self, rhs: &Money) -> (r: Money)
        requires
            self.same_currency(*rhs),
            i64::MIN <= self.spec_amount() * rhs.spec_amount() <= i64::MAX,
        ensures
            r.spec_amount() == self.spec_amount() * rhs.spec_amount(),
            r.spec_currency() == self.spec_currency(),
    {
        if self.currency == rhs.currency {
            Money { amount: self.amount * rhs.amount, currency: self.currency.clone() }
        } else {
            unreached()
        }
    }

    /// Quotient of two amounts of the same currency, truncated toward zero
    /// as integer division of amounts is. Dividing across currencies, by a
    /// zero amount, or in the one overflowing case — the smallest amount by
    /// minus one — is a caller error: the preconditions forbid all three,
    /// and an unverified caller that ignores them halts.
    pub fn div(&self, rhs: &Money) -> (r: Money)
        requires
            self.same_currency(*rhs),
            rhs.spec_amount() != 0,
            !(self.spec_amount() == i64::MIN && rhs.spec_amount() == -1),
        ensures
            r.spec_amount() == div_trunc(self.spec_amount(), rhs.spec_amount()),
            r.spec_currency() == self.spec_currency(),
    {
        if self.currency == rhs.currency {
            proof {
                lemma_div_trunc_in_i64_range(self.spec_amount(), rhs.spec_amount());
            }
            let q = match self.amount.checked_div(rhs.amount) {
                Some(q) => q,
                None => unreached(),
            };
            Money { amount: q, currency: self.currency.clone() }
        } else {
            unreached()
        }
    }
}

/// Money equality is reflexive: every amount equals itself.
pub proof fn lemma_eq_reflexive(m: Money)
    ensures
        m.spec_eq(m),
{
}

/// Money equality is symmetric: either side may be compared first.
pub proof fn lemma_eq_symmetric(a: Money, b: Money)
    ensures
        a.spec_eq(b) == b.spec_eq(a),
{
}

/// Money equality is currency-sensitive: amounts in different currencies
/// are never equal, even when the minor-unit counts agree.
pub proof fn lemma_eq_currency_sensitive(a: Money, b: Money)
    requires
        !a.same_currency(b),
    ensures
        !a.spec_eq(b),
{
}

/// A three-way comparison is defined exactly within one currency: it is
/// `Some` when the currencies are structurally equal and `None` otherwise.
pub proof fn lemma_comparable_iff_same_currency(a: Money, b: Money)
    ensures
        a.spec_cmp(b) is Some <==> a.same_currency(b),
{
}

/// Within one currency the three-way comparison is the natural integer
/// order of the amounts.
pub proof fn lemma_cmp_is_amount_order(a: Money, b: Money)
    requires
        a.same_currency(b),
    ensures
        (a.spec_cmp(b) == Some(Ordering::Less)) <==> a.spec_amount() < b.spec_amount(),
        (a.spec_cmp(b) == Some(Ordering::Equal)) <==> a.spec_amount() == b.spec_amount(),
        (a.spec_cmp(b) == Some(Ordering::Greater)) <==> a.spec_amount() > b.spec_amount(),
{
}

/// Integer division truncated toward zero, as the `/` operator of the
/// amount type computes it.
pub open spec fn div_trunc(a: int, b: int) -> int {
    if a == 0 {
        0
    } else if a > 0 && b > 0 {
        a / b
    } else if a < 0 && b < 0 {
        (a * -1) / (b * -1)
    } else if a < 0 {
        ((a * -1) / b) * -1
    } else {
        (a / (b * -1)) * -1
    }
}

/// Truncating division of a representable amount by a representable nonzero
/// amount stays representable, except for the lone overflowing pair of the
/// smallest amount and minus one.
proof fn lemma_div_trunc_in_i64_range(a: int, b: int)
    requires
        i64::MIN <= a <= i64::MAX,
        i64::MIN <= b <= i64::MAX,
        b != 0,
        !(a == i64::MIN && b == -1),
    ensures
        i64::MIN <= div_trunc(a, b) <= i64::MAX,
{
    if a == 0 {
    } else if a > 0 && b > 0 {
        lemma_div_nonincreasing(a, b);
        lemma_div_pos_is_pos(a, b);
    } else if a < 0 && b < 0 {
        lemma_div_pos_is_pos(a * -1, b * -1);
        if b == -1 {
            assert(a > i64::MIN);
            lemma_div_nonincreasing(a * -1, 1);
        } else {
            lemma_div_is_ordered_by_denominator(a * -1, 2, b * -1);
            lemma_div_pos_is_pos(a * -1, 2);
            lemma_div_nonincreasing(a * -1, 2);
            assert((a * -1) / 2 <= i64::MAX) by {
                assert(a * -1 <= i64::MAX * 2 + 2);
            }
        }
    } else if a < 0 {
        lemma_div_nonincreasing(a * -1, b);
        lemma_div_pos_is_pos(a * -1, b);
    } else {
        lemma_div_nonincreasing(a, b * -1);
        lemma_div_pos_is_pos(a, b * -1);
    }
}

impl PartialEq for Money {
    fn eq(&self, other: &Money) -> (r: bool) {
        self.amount == other.amount && self.currency == other.currency
    }
}

impl vstd::std_specs::cmp::PartialEqSpecImpl for Money {
    open spec fn obeys_eq_spec() -> bool {
        true
    }

    open spec fn eq_spec(&self, other: &Money) -> bool {
        self.spec_eq(*other)
    }
}

} // verus!
