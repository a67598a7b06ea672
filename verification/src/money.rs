//! Monetary amounts: a decimal number held as a mantissa and a scale, the way
//! `rust_decimal::Decimal` holds it. The value of `(m, s)` is `m / 10^s`; in
//! contracts it is measured in units of `10^-28`, the finest step a decimal
//! can express, so that every value is an integer. Like a decimal, an
//! amount also carries a sign flag, which tells a negative zero (`-0.00`)
//! from a positive one; it plays no part in the value.
use vstd::prelude::*;

verus! {

/// Largest magnitude of a mantissa (96 bits).
pub const MAX_MANTISSA: i128 = 0xFFFF_FFFF_FFFF_FFFF_FFFF_FFFF;

/// Largest number of fractional digits.
pub const MAX_SCALE: u32 = 28;

pub open spec fn pow10(n: nat) -> int
    decreases n,
{
    if n == 0 {
        1
    } else {
        10 * pow10((n - 1) as nat)
    }
}

pub proof fn lemma_pow10_positive(n: nat)
    ensures
        pow10(n) > 0,
    decreases n,
{
    if n > 0 {
        lemma_pow10_positive((n - 1) as nat);
    }
}

/// The outcome of comparing two values.
#[derive(PartialEq, Eq, Clone, Copy, Debug)]
pub enum Order {
    Less,
    Equal,
    Greater,
}

pub open spec fn order_of(a: int, b: int) -> Order {
    if a < b {
        Order::Less
    } else if a == b {
        Order::Equal
    } else {
        Order::Greater
    }
}

/// A decimal amount: `mantissa / 10^scale`, with the decimal's sign flag.
#[derive(Clone, Copy, Debug, PartialEq, Eq)]
pub struct Amount {
    pub mantissa: i128,
    pub scale: u32,
    /// The sign flag: set for a negative mantissa, and for a negative zero.
    pub negative: bool,
}

impl Amount {
    /// The amount is one that a decimal can hold.
    pub open spec fn wf(self) -> bool {
        &&& self.scale <= MAX_SCALE
        &&& -MAX_MANTISSA <= self.mantissa <= MAX_MANTISSA
        &&& self.mantissa < 0 ==> self.negative
        &&& self.mantissa > 0 ==> !self.negative
    }

    /// The value in units of `10^-28`.
    pub open spec fn value(self) -> int {
        self.mantissa * pow10((MAX_SCALE - self.scale) as nat)
    }

    /// Zero, as `Decimal::ZERO` holds it.
    pub open spec fn zero_spec() -> Amount {
        Amount { mantissa: 0, scale: 0, negative: false }
    }

    /// The amount `mantissa / 10^scale`, with the sign flag of its mantissa
    /// (so zero is a positive zero).
    pub fn new(mantissa: i128, scale: u32) -> (r: Amount)
        ensures
            r == (Amount { mantissa, scale, negative: mantissa < 0 }),
    {
        Amount { mantissa, scale, negative: mantissa < 0 }
    }

    /// Zero.
    pub fn zero() -> (r: Amount)
        ensures
            r.wf(),
            r.value() == 0,
            r == Amount::zero_spec(),
    {
        Amount { mantissa: 0, scale: 0, negative: false }
    }

    /// A whole number, as `Decimal::from(i32)` makes it.
    pub fn from_i32(n: i32) -> (r: Amount)
        ensures
            r.wf(),
            r == (Amount { mantissa: n as i128, scale: 0, negative: n < 0 }),
    {
        Amount { mantissa: n as i128, scale: 0, negative: n < 0 }
    }

    /// The opposite amount, with the same scale and the sign flag flipped
    /// (as `-` on a decimal does, also for zero).
    pub fn neg(&self) -> (r: Amount)
        requires
            self.wf(),
        ensures
            r.wf(),
            r.scale == self.scale,
            r.mantissa == -self.mantissa,
            r.negative == !self.negative,
            r.value() == -self.value(),
    {
        let r = Amount { mantissa: -self.mantissa, scale: self.scale, negative: !self.negative };
        proof {
            vstd::arithmetic::mul::lemma_mul_unary_negation(
                self.mantissa as int,
                pow10((MAX_SCALE - self.scale) as nat),
            );
        }
        r
    }

    /// The magnitude, with the same scale and the sign flag cleared.
    pub fn abs(&self) -> (r: Amount)
        requires
            self.wf(),
        ensures
            r.wf(),
            r.scale == self.scale,
            r.mantissa == if self.mantissa < 0 { -self.mantissa } else { self.mantissa as int },
            !r.negative,
            r.value() == if self.value() < 0 { -self.value() } else { self.value() },
    {
        proof {
            self.lemma_sign();
        }
        if self.mantissa < 0 {
            self.neg()
        } else {
            Amount { mantissa: self.mantissa, scale: self.scale, negative: false }
        }
    }

    /// The sign of the value is the sign of the mantissa.
    pub proof fn lemma_sign(self)
        ensures
            (self.value() < 0) == (self.mantissa < 0),
            (self.value() == 0) == (self.mantissa == 0),
            (self.value() > 0) == (self.mantissa > 0),
    {
        let p = pow10((MAX_SCALE - self.scale) as nat);
        lemma_pow10_positive((MAX_SCALE - self.scale) as nat);
        let m = self.mantissa as int;
        assert((m * p < 0) == (m < 0) && (m * p == 0) == (m == 0) && (m * p > 0) == (m > 0))
            by (nonlinear_arith)
            requires
                p > 0,
        ;
    }

    /// The value is below zero.
    pub fn is_negative(&self) -> (r: bool)
        ensures
            r == (self.value() < 0),
    {
        proof {
            self.lemma_sign();
        }
        self.mantissa < 0
    }

    /// The value is above zero.
    pub fn is_positive(&self) -> (r: bool)
        ensures
            r == (self.value() > 0),
    {
        proof {
            self.lemma_sign();
        }
        self.mantissa > 0
    }

    /// Compares the values of two amounts.
    pub fn compare(&self, other: &Amount) -> (r: Order)
        requires
            self.wf(),
            other.wf(),
        ensures
            r == order_of(self.value(), other.value()),
    {
        decimal_compare(self, other)
    }

    /// The two amounts have the same value (`1.0` and `1.00` do).
    pub fn same_value(&self, other: &Amount) -> (r: bool)
        requires
            self.wf(),
            other.wf(),
        ensures
            r == (self.value() == other.value()),
    {
        match self.compare(other) {
            Order::Equal => true,
            _ => false,
        }
    }

    /// `self >= other` by value.
    pub fn at_least(&self, other: &Amount) -> (r: bool)
        requires
            self.wf(),
            other.wf(),
        ensures
            r == (self.value() >= other.value()),
    {
        match self.compare(other) {
            Order::Less => false,
            _ => true,
        }
    }
}

/// Compares two decimals with `rust_decimal::Decimal`'s `Ord::cmp`, which
/// orders decimals by numeric value (`1.0` equals `1.00`, and `-0` equals
/// `0`). The contract claims
/// exactly that: the outcome is the order of the two values.
#[verifier::external_body]
fn decimal_compare(a: &Amount, b: &Amount) -> (r: Order)
    requires
        a.wf(),
        b.wf(),
    ensures
        r == order_of(a.value(), b.value()),
{
    let mut x = rust_decimal::Decimal::from_i128_with_scale(a.mantissa, a.scale);
    x.set_sign_negative(a.negative);
    let mut y = rust_decimal::Decimal::from_i128_with_scale(b.mantissa, b.scale);
    y.set_sign_negative(b.negative);
    match x.cmp(&y) {
        std::cmp::Ordering::Less => Order::Less,
        std::cmp::Ordering::Equal => Order::Equal,
        std::cmp::Ordering::Greater => Order::Greater,
    }
}

/// What `rust_decimal::Decimal::checked_add` gives for `(am, as) + (bm, bs)`,
/// as a mantissa, a scale and a sign flag, or `None` where it reports overflow.
pub uninterp spec fn decimal_checked_add(
    am: i128,
    ascale: u32,
    aneg: bool,
    bm: i128,
    bscale: u32,
    bneg: bool,
) -> Option<(i128, u32, bool)>;

/// The larger of the two scales.
pub open spec fn larger_scale(a: Amount, b: Amount) -> u32 {
    if a.scale >= b.scale { a.scale } else { b.scale }
}

/// The exact sum of `a` and `b`, written at the larger of their scales, has
/// a mantissa that fits 96 bits.
pub open spec fn sum_fits(a: Amount, b: Amount) -> bool {
    let unit = pow10((MAX_SCALE - larger_scale(a, b)) as nat);
    -MAX_MANTISSA * unit <= a.value() + b.value() <= MAX_MANTISSA * unit
}

/// The decimal sum of two amounts, `None` where it overflows.
pub open spec fn checked_sum(a: Amount, b: Amount) -> Option<Amount> {
    match decimal_checked_add(a.mantissa, a.scale, a.negative, b.mantissa, b.scale, b.negative) {
        Some(p) => Some(Amount { mantissa: p.0, scale: p.1, negative: p.2 }),
        None => None,
    }
}

/// Adds two decimals with `rust_decimal::Decimal::checked_add`. The result is
/// named; the contract also claims that it is a decimal, and that where the
/// exact sum fits 96 bits at the larger of the two scales, the addition
/// succeeds with exactly that value (the crate aligns the scales and adds;
/// it rounds only a sum that does not fit). Which scale and sign flag the
/// result has is left to the name.
#[verifier::external_body]
fn decimal_add(a: &Amount, b: &Amount) -> (r: Option<Amount>)
    requires
        a.wf(),
        b.wf(),
    ensures
        r == (match decimal_checked_add(a.mantissa, a.scale, a.negative, b.mantissa, b.scale, b.negative) {
            Some(p) => Some(Amount { mantissa: p.0, scale: p.1, negative: p.2 }),
            None => None,
        }),
        r matches Some(s) ==> s.wf(),
        sum_fits(*a, *b) ==> r is Some,
        r matches Some(s) ==> (sum_fits(*a, *b) ==> s.value() == a.value() + b.value()),
{
    let mut x = rust_decimal::Decimal::from_i128_with_scale(a.mantissa, a.scale);
    x.set_sign_negative(a.negative);
    let mut y = rust_decimal::Decimal::from_i128_with_scale(b.mantissa, b.scale);
    y.set_sign_negative(b.negative);
    match x.checked_add(y) {
        Some(s) => Some(Amount { mantissa: s.mantissa(), scale: s.scale(), negative: s.is_sign_negative() }),
        None => None,
    }
}

/// Adds two amounts as decimals, `None` where the sum overflows.
pub fn checked_add(a: &Amount, b: &Amount) -> (r: Option<Amount>)
    requires
        a.wf(),
        b.wf(),
    ensures
        r == checked_sum(*a, *b),
        r matches Some(s) ==> s.wf(),
        sum_fits(*a, *b) ==> (r matches Some(s) && s.value() == a.value() + b.value()),
{
    decimal_add(a, b)
}

/// The left-to-right sum of `s` starting from zero, in decimal arithmetic, or
/// `None` once an addition overflows.
pub open spec fn sum_spec(s: Seq<Amount>) -> Option<Amount>
    decreases s.len(),
{
    if s.len() == 0 {
        Some(Amount::zero_spec())
    } else {
        match sum_spec(s.drop_last()) {
            Some(acc) => checked_sum(acc, s.last()),
            None => None,
        }
    }
}

/// Sums amounts as `Iterator::sum` over decimals does (a fold from zero with
/// `+`), returning `None` where that would overflow.
pub fn sum_amounts(v: &Vec<Amount>) -> (r: Option<Amount>)
    requires
        forall|i: int| 0 <= i < v.len() ==> (#[trigger] v@[i]).wf(),
    ensures
        r == sum_spec(v@),
        r matches Some(s) ==> s.wf(),
{
    let mut acc = Amount::zero();
    let mut i: usize = 0;
    while i < v.len()
        invariant
            i <= v.len(),
            forall|k: int| 0 <= k < v.len() ==> (#[trigger] v@[k]).wf(),
            acc.wf(),
            sum_spec(v@.take(i as int)) == Some(acc),
        decreases v.len() - i,
    {
        assert(v@.take(i + 1).drop_last() =~= v@.take(i as int));
        match decimal_add(&acc, &v[i]) {
            Some(s) => {
                acc = s;
            },
            None => {
                proof {
                    lemma_sum_none_stays(v@, (i + 1) as int);
                }
                assert(v@.take(v.len() as int) =~= v@);
                return None;
            },
        }
        i = i + 1;
    }
    assert(v@.take(v.len() as int) =~= v@);
    Some(acc)
}

proof fn lemma_sum_none_stays(s: Seq<Amount>, n: int)
    requires
        0 <= n <= s.len(),
        sum_spec(s.take(n)) is None,
    ensures
        sum_spec(s) is None,
    decreases s.len() - n,
{
    if n < s.len() {
        assert(s.take(n + 1).drop_last() =~= s.take(n));
        lemma_sum_none_stays(s, n + 1);
    } else {
        assert(s.take(n) =~= s);
    }
}

/// What `rust_decimal::Decimal::from_str` reads from a text, as a mantissa,
/// a scale and a sign flag, or `None` where it refuses the text.
pub uninterp spec fn decimal_parse(text: Seq<char>) -> Option<(i128, u32, bool)>;

/// Reads a decimal from text with `rust_decimal`'s `FromStr`. The result is
/// named; the contract also claims that a decimal it gives is one a decimal
/// holds.
#[verifier::external_body]
pub fn parse_amount(text: &str) -> (r: Option<Amount>)
    ensures
        r == (match decimal_parse(text@) {
            Some(p) => Some(Amount { mantissa: p.0, scale: p.1, negative: p.2 }),
            None => None,
        }),
        r matches Some(a) ==> a.wf(),
{
    match text.parse::<rust_decimal::Decimal>() {
        Ok(d) => Some(Amount { mantissa: d.mantissa(), scale: d.scale(), negative: d.is_sign_negative() }),
        Err(_) => None,
    }
}

} // verus!
