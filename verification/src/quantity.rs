use vstd::prelude::*;

verus! {

/// An exact amount: a fraction of two integers. Depending on where it stands it
/// counts grams, baker's-percentage points or feet.
///
/// The denominator is never zero. Amounts made by [`Quantity::new`] and
/// [`Quantity::from_int`] are compact; arithmetic on compact amounts is exact and
/// cannot overflow.
#[derive(Clone, Copy, Debug)]
pub struct Quantity {
    num: i128,
    den: u128,
}

impl View for Quantity {
    type V = real;

    /// The number that the fraction stands for.
    open spec fn view(&self) -> real {
        self.num() as real / self.den() as real
    }
}

impl Quantity {
    #[verifier::type_invariant]
    spec fn denominator_is_positive(self) -> bool {
        self.den > 0
    }

    /// The numerator of the fraction as it is stored (not reduced).
    pub closed spec fn num(self) -> int {
        self.num as int
    }

    /// The denominator of the fraction as it is stored (not reduced).
    pub closed spec fn den(self) -> int {
        self.den as int
    }

    /// Small enough for exact arithmetic: the numerator fits 64 bits with sign,
    /// the denominator is positive and fits 32 bits.
    pub open spec fn compact(self) -> bool {
        &&& i64::MIN <= self.num() <= i64::MAX
        &&& 0 < self.den() <= u32::MAX
    }

    /// The fraction `num / den`, or `None` for a zero denominator.
    pub fn new(num: i64, den: u32) -> (r: Option<Quantity>)
        ensures
            den == 0 <==> r is None,
            r matches Some(q) ==> q.num() == num && q.den() == den && q.compact(),
    {
        if den == 0 {
            None
        } else {
            Some(Quantity { num: num as i128, den: den as u128 })
        }
    }

    /// The whole number `n`.
    pub fn from_int(n: i64) -> (r: Quantity)
        ensures
            r.num() == n,
            r.den() == 1,
            r.compact(),
            r@ == n as int as real,
    {
        let r = Quantity { num: n as i128, den: 1 };
        assert(r.num() as real / r.den() as real == n as int as real) by (nonlinear_arith)
            requires
                r.num() == n,
                r.den() == 1,
        ;
        r
    }

    /// The fraction `num / den` at full width.
    pub(crate) fn ratio(num: i128, den: u128) -> (r: Quantity)
        requires
            den > 0,
        ensures
            r.num() == num,
            r.den() == den,
    {
        Quantity { num, den }
    }

    /// The product of two compact amounts.
    pub(crate) fn times(self, other: Quantity) -> (r: Quantity)
        requires
            self.compact(),
            other.compact(),
        ensures
            r@ == self@ * other@,
    {
        proof {
            lemma_product_bound(
                self.num(),
                other.num(),
                0x8000_0000_0000_0000,
                0x8000_0000_0000_0000,
            );
            lemma_product_bound(self.den(), other.den(), 0xffff_ffff, 0xffff_ffff);
            lemma_times(self.num(), self.den(), other.num(), other.den());
        }
        Quantity { num: self.num * other.num, den: self.den * other.den }
    }

    /// The stored numerator.
    pub fn numer(&self) -> (n: i128)
        ensures
            n == self.num(),
    {
        self.num
    }

    /// The stored denominator, which is positive.
    pub fn denom(&self) -> (d: u128)
        ensures
            d == self.den(),
            d > 0,
    {
        proof {
            use_type_invariant(self);
        }
        self.den
    }

    /// Whether the amount is compact.
    pub fn is_compact(&self) -> (b: bool)
        ensures
            b == self.compact(),
    {
        proof {
            use_type_invariant(self);
        }
        -9223372036854775808 <= self.num && self.num <= 9223372036854775807 && self.den
            <= 4294967295
    }

    /// Whether two compact amounts stand for the same number.
    pub fn same_value(&self, other: &Quantity) -> (b: bool)
        requires
            self.compact(),
            other.compact(),
        ensures
            b == (self@ == other@),
    {
        proof {
            lemma_product_bound(self.num(), other.den(), 0x8000_0000_0000_0000, 0xffff_ffff);
            lemma_product_bound(other.num(), self.den(), 0x8000_0000_0000_0000, 0xffff_ffff);
            lemma_cross_equal(self.num(), self.den(), other.num(), other.den());
        }
        let left: i128 = self.num * (other.den as i128);
        let right: i128 = other.num * (self.den as i128);
        left == right
    }
}

/// A product is bounded by the product of its factors' bounds.
pub proof fn lemma_product_bound(a: int, b: int, m: int, n: int)
    by (nonlinear_arith)
    requires
        -m <= a <= m,
        -n <= b <= n,
    ensures
        -(m * n) <= a * b <= m * n,
        a > 0 && b > 0 ==> a * b > 0,
{
}

/// Two fractions with positive denominators are the same number exactly when
/// their cross products agree.
pub proof fn lemma_cross_equal(a: int, b: int, c: int, d: int)
    by (nonlinear_arith)
    requires
        b > 0,
        d > 0,
    ensures
        (a as real / b as real == c as real / d as real) <==> a * d == c * b,
{
}

/// Multiplying a fraction by the fraction `p / q`.
pub proof fn lemma_times(a: int, b: int, p: int, q: int)
    by (nonlinear_arith)
    requires
        b > 0,
        q > 0,
    ensures
        (a * p) as real / (b * q) as real == (a as real / b as real) * (p as real / q as real),
{
}

/// Adding the fraction `p / q` to a fraction.
pub proof fn lemma_plus(a: int, b: int, p: int, q: int)
    by (nonlinear_arith)
    requires
        b > 0,
        q > 0,
    ensures
        (a * q + p * b) as real / (b * q) as real == a as real / b as real + p as real / q
            as real,
{
}

/// The whole part of a fraction is the Euclidean quotient of its parts.
pub proof fn lemma_floor(a: int, b: int)
    by (nonlinear_arith)
    requires
        b > 0,
    ensures
        (a as real / b as real).floor() == a / b,
{
}

/// Euclidean quotient by a positive divisor.
pub(crate) fn floor_div(n: i128, d: i128) -> (q: i128)
    requires
        d > 0,
    ensures
        q == n as int / d as int,
{
    if n >= 0 {
        n / d
    } else {
        let m: i128 = -(n + 1);
        assert(n as int / d as int == -(m as int / d as int) - 1) by (nonlinear_arith)
            requires
                d > 0,
                m == -(n + 1),
                m >= 0,
        ;
        -(m / d) - 1
    }
}

} // verus!
