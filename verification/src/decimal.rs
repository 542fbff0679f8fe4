//! Decimal values as a signed mantissa and a scale, with the arithmetic done by
//! `rust_decimal`.

use vstd::prelude::*;

verus! {

/// Largest magnitude of a mantissa: 96 bits.
pub open spec fn mantissa_limit() -> int {
    0x1_0000_0000_0000_0000_0000_0000
}

/// Largest scale of a decimal value.
pub const MAX_SCALE: u32 = 28;

/// `10^n` for `n` up to `MAX_SCALE`, and 1 beyond it.
pub open spec fn pow10(n: int) -> int {
    if n <= 0 || n > 28 {
        1
    } else if n <= 14 {
        if n <= 7 {
            if n == 1 {
                10
            } else if n == 2 {
                100
            } else if n == 3 {
                1_000
            } else if n == 4 {
                10_000
            } else if n == 5 {
                100_000
            } else if n == 6 {
                1_000_000
            } else {
                10_000_000
            }
        } else if n == 8 {
            100_000_000
        } else if n == 9 {
            1_000_000_000
        } else if n == 10 {
            10_000_000_000
        } else if n == 11 {
            100_000_000_000
        } else if n == 12 {
            1_000_000_000_000
        } else if n == 13 {
            10_000_000_000_000
        } else {
            100_000_000_000_000
        }
    } else if n <= 21 {
        if n == 15 {
            1_000_000_000_000_000
        } else if n == 16 {
            10_000_000_000_000_000
        } else if n == 17 {
            100_000_000_000_000_000
        } else if n == 18 {
            1_000_000_000_000_000_000
        } else if n == 19 {
            10_000_000_000_000_000_000
        } else if n == 20 {
            100_000_000_000_000_000_000
        } else {
            1_000_000_000_000_000_000_000
        }
    } else if n == 22 {
        10_000_000_000_000_000_000_000
    } else if n == 23 {
        100_000_000_000_000_000_000_000
    } else if n == 24 {
        1_000_000_000_000_000_000_000_000
    } else if n == 25 {
        10_000_000_000_000_000_000_000_000
    } else if n == 26 {
        100_000_000_000_000_000_000_000_000
    } else if n == 27 {
        1_000_000_000_000_000_000_000_000_000
    } else {
        10_000_000_000_000_000_000_000_000_000
    }
}

/// Every power of ten in the table lies between 1 and `10^28`.
pub proof fn lemma_pow10_bounds(n: int)
    ensures
        1 <= pow10(n) <= 10_000_000_000_000_000_000_000_000_000,
{
}

/// Powers of ten multiply as their exponents add.
pub proof fn lemma_pow10_add(x: int, y: int)
    requires
        0 <= x,
        0 <= y,
        x + y <= 28,
    ensures
        pow10(x) * pow10(y) == pow10(x + y),
    decreases y,
{
    if y > 0 {
        lemma_pow10_add(x, y - 1);
        let a = pow10(x);
        let b = pow10(y - 1);
        assert(pow10(y) == 10 * b);
        assert(pow10(x + y) == 10 * pow10(x + y - 1));
        assert(a * (10 * b) == 10 * (a * b)) by (nonlinear_arith);
    }
}

/// A number of at most `bound` units of `10^-28` has, on any scale up to 28
/// that is no smaller than its own, a mantissa of at most `bound`.
pub proof fn lemma_rescaled_within(d: Decimal, s: int, bound: int)
    requires
        d.wf(),
        d.scale <= s <= 28,
        magnitude(d.units()) <= bound,
    ensures
        magnitude(d.mantissa * pow10(s - d.scale)) <= bound,
{
    let m = d.mantissa as int;
    let p = pow10(s - d.scale);
    let q = pow10(28 - s);
    lemma_pow10_add(s - d.scale, 28 - s);
    lemma_pow10_bounds(s - d.scale);
    lemma_pow10_bounds(28 - s);
    assert(d.units() == m * (p * q));
    assert(magnitude(m * p) <= magnitude(m * (p * q))) by (nonlinear_arith)
        requires
            p >= 1,
            q >= 1,
    ;
}

/// Absolute value of an integer.
pub open spec fn magnitude(x: int) -> int {
    if x < 0 {
        -x
    } else {
        x
    }
}

/// A decimal number `mantissa / 10^scale`.
#[derive(Clone, Copy, Debug)]
pub struct Decimal {
    pub mantissa: i128,
    pub scale: u32,
}

impl Decimal {
    /// The mantissa fits in 96 bits and the scale is at most `MAX_SCALE`.
    pub open spec fn wf(self) -> bool {
        &&& magnitude(self.mantissa as int) < mantissa_limit()
        &&& self.scale <= MAX_SCALE
    }

    /// Whether the mantissa and the scale are in range.
    pub fn is_valid(&self) -> (r: bool)
        ensures
            r == self.wf(),
    {
        self.scale <= MAX_SCALE && -0x1_0000_0000_0000_0000_0000_0000 < self.mantissa
            && self.mantissa < 0x1_0000_0000_0000_0000_0000_0000
    }

    /// The decimal is well-formed and its whole part has at most 25 digits,
    /// so that it can be printed at up to `MAX_TEXT_PLACES` places.
    pub open spec fn printable(self) -> bool {
        &&& self.wf()
        &&& self.scale >= 4 || magnitude(self.mantissa as int) < pow10(25 + self.scale)
    }

    /// Whether the decimal can be printed at up to `MAX_TEXT_PLACES` places.
    pub fn is_printable(&self) -> (r: bool)
        ensures
            r == self.printable(),
    {
        if self.scale >= 4 {
            self.is_valid()
        } else {
            let bound: i128 = if self.scale == 0 {
                10_000_000_000_000_000_000_000_000
            } else if self.scale == 1 {
                100_000_000_000_000_000_000_000_000
            } else if self.scale == 2 {
                1_000_000_000_000_000_000_000_000_000
            } else {
                10_000_000_000_000_000_000_000_000_000
            };
            -bound < self.mantissa && self.mantissa < bound
        }
    }

    /// The number in units of `10^-28`: every well-formed value is a whole
    /// number of them.
    pub open spec fn units(self) -> int {
        self.mantissa * pow10(28 - self.scale)
    }

    /// Zero.
    pub fn zero() -> (r: Decimal)
        ensures
            r.wf(),
            r.mantissa == 0,
            r.scale == 0,
            r.units() == 0,
    {
        Decimal { mantissa: 0, scale: 0 }
    }

    /// One, written `1.0`.
    pub fn one() -> (r: Decimal)
        ensures
            r.wf(),
            r.mantissa == 10,
            r.scale == 1,
            r.units() == pow10(28),
    {
        Decimal { mantissa: 10, scale: 1 }
    }
}

/// The larger of two scales.
pub open spec fn larger_scale(a: Decimal, b: Decimal) -> int {
    if a.scale >= b.scale {
        a.scale as int
    } else {
        b.scale as int
    }
}

/// Both operands, brought to their larger scale, and `total` on that scale fit
/// in 96 bits.
pub open spec fn fits_aligned(a: Decimal, b: Decimal, total: int) -> bool {
    let s = larger_scale(a, b);
    &&& magnitude(a.mantissa * pow10(s - a.scale)) < mantissa_limit()
    &&& magnitude(b.mantissa * pow10(s - b.scale)) < mantissa_limit()
    &&& magnitude(total) < mantissa_limit() * pow10(28 - s)
}

/// The sum of `a` and `b` can be written on their larger scale.
pub open spec fn sum_is_exact(a: Decimal, b: Decimal) -> bool {
    fits_aligned(a, b, a.units() + b.units())
}

/// The difference of `a` and `b` can be written on their larger scale.
pub open spec fn difference_is_exact(a: Decimal, b: Decimal) -> bool {
    fits_aligned(a, b, a.units() - b.units())
}

/// The product of `a` and `b` can be written on the sum of their scales.
pub open spec fn product_is_exact(a: Decimal, b: Decimal) -> bool {
    &&& a.scale + b.scale <= 28
    &&& magnitude(a.mantissa * b.mantissa) < mantissa_limit()
}

/// The result of `rust_decimal`'s checked addition.
pub uninterp spec fn decimal_sum(a: Decimal, b: Decimal) -> Option<Decimal>;

/// The result of `rust_decimal`'s checked subtraction.
pub uninterp spec fn decimal_difference(a: Decimal, b: Decimal) -> Option<Decimal>;

/// The result of `rust_decimal`'s checked multiplication.
pub uninterp spec fn decimal_product(a: Decimal, b: Decimal) -> Option<Decimal>;

/// The result of `rust_decimal`'s checked division.
pub uninterp spec fn decimal_quotient(a: Decimal, b: Decimal) -> Option<Decimal>;

/// `rust_decimal::Decimal::checked_add`. Trusted: the result depends on the
/// operands alone, is `None` only on overflow, and is the exact sum whenever
/// both operands and the sum fit on the larger of the two scales, on a scale
/// no larger than that.
#[verifier::external_body]
pub(crate) fn checked_add(a: Decimal, b: Decimal) -> (r: Option<Decimal>)
    requires
        a.wf(),
        b.wf(),
    ensures
        r == decimal_sum(a, b),
        r matches Some(v) ==> v.wf(),
        sum_is_exact(a, b) ==> r.is_some() && r.unwrap().units() == a.units() + b.units()
            && r.unwrap().scale <= larger_scale(a, b),
{
    let x = rust_decimal::Decimal::from_i128_with_scale(a.mantissa, a.scale);
    let y = rust_decimal::Decimal::from_i128_with_scale(b.mantissa, b.scale);
    match x.checked_add(y) {
        Some(z) => Some(Decimal { mantissa: z.mantissa(), scale: z.scale() }),
        None => None,
    }
}

/// `rust_decimal::Decimal::checked_sub`. Trusted: the result depends on the
/// operands alone, is `None` only on overflow, and is the exact difference
/// whenever both operands and the difference fit on the larger of the two
/// scales, on a scale no larger than that.
#[verifier::external_body]
pub(crate) fn checked_sub(a: Decimal, b: Decimal) -> (r: Option<Decimal>)
    requires
        a.wf(),
        b.wf(),
    ensures
        r == decimal_difference(a, b),
        r matches Some(v) ==> v.wf(),
        difference_is_exact(a, b) ==> r.is_some() && r.unwrap().units() == a.units()
            - b.units() && r.unwrap().scale <= larger_scale(a, b),
{
    let x = rust_decimal::Decimal::from_i128_with_scale(a.mantissa, a.scale);
    let y = rust_decimal::Decimal::from_i128_with_scale(b.mantissa, b.scale);
    match x.checked_sub(y) {
        Some(z) => Some(Decimal { mantissa: z.mantissa(), scale: z.scale() }),
        None => None,
    }
}

/// `rust_decimal::Decimal::checked_mul`. Trusted: the result depends on the
/// operands alone, is a well-formed decimal or `None`, and is the exact
/// product whenever the scales sum to at most 28 and the product of the
/// mantissas fits in 96 bits. Both operands being in units of `10^-28`, their
/// plain product is the result's units times `10^28`.
#[verifier::external_body]
pub(crate) fn checked_mul(a: Decimal, b: Decimal) -> (r: Option<Decimal>)
    requires
        a.wf(),
        b.wf(),
    ensures
        r == decimal_product(a, b),
        r matches Some(v) ==> v.wf(),
        product_is_exact(a, b) ==> r.is_some() && r.unwrap().units() * pow10(28) == a.units()
            * b.units(),
{
    let x = rust_decimal::Decimal::from_i128_with_scale(a.mantissa, a.scale);
    let y = rust_decimal::Decimal::from_i128_with_scale(b.mantissa, b.scale);
    match x.checked_mul(y) {
        Some(z) => Some(Decimal { mantissa: z.mantissa(), scale: z.scale() }),
        None => None,
    }
}

/// `rust_decimal::Decimal::checked_div`. Trusted: the result depends on the
/// operands alone, is a well-formed decimal or `None`, and is `None` for a
/// zero divisor.
#[verifier::external_body]
pub(crate) fn checked_div(a: Decimal, b: Decimal) -> (r: Option<Decimal>)
    requires
        a.wf(),
        b.wf(),
    ensures
        r == decimal_quotient(a, b),
        r matches Some(v) ==> v.wf(),
        b.mantissa == 0 ==> r.is_none(),
{
    let x = rust_decimal::Decimal::from_i128_with_scale(a.mantissa, a.scale);
    let y = rust_decimal::Decimal::from_i128_with_scale(b.mantissa, b.scale);
    match x.checked_div(y) {
        Some(z) => Some(Decimal { mantissa: z.mantissa(), scale: z.scale() }),
        None => None,
    }
}

/// `<` of `rust_decimal::Decimal`. Trusted: it orders decimals by the numbers
/// they stand for.
#[verifier::external_body]
pub(crate) fn less_than(a: Decimal, b: Decimal) -> (r: bool)
    requires
        a.wf(),
        b.wf(),
    ensures
        r == (a.units() < b.units()),
{
    let x = rust_decimal::Decimal::from_i128_with_scale(a.mantissa, a.scale);
    let y = rust_decimal::Decimal::from_i128_with_scale(b.mantissa, b.scale);
    x < y
}

/// The text that `rust_decimal` prints for a decimal.
pub uninterp spec fn decimal_text(d: Decimal) -> Seq<char>;

/// The text that `rust_decimal` prints for a decimal at a given number of
/// decimal places.
pub uninterp spec fn decimal_text_fixed(d: Decimal, places: nat) -> Seq<char>;

/// The most decimal places that a decimal is printed at.
pub const MAX_TEXT_PLACES: usize = 6;

/// `Display` of `rust_decimal::Decimal`, through `to_string`. Trusted: the
/// text depends on the decimal alone.
#[verifier::external_body]
pub(crate) fn to_text(d: Decimal) -> (r: String)
    requires
        d.wf(),
    ensures
        r@ == decimal_text(d),
{
    rust_decimal::Decimal::from_i128_with_scale(d.mantissa, d.scale).to_string()
}

/// `Display` of `rust_decimal::Decimal` with a precision. Trusted: the text
/// depends on the decimal and the precision alone. The outside code writes
/// into 32 characters, which hold a whole part of up to 25 digits, the point
/// and up to six places.
#[verifier::external_body]
pub(crate) fn to_text_fixed(d: Decimal, places: usize) -> (r: String)
    requires
        d.printable(),
        places <= MAX_TEXT_PLACES,
    ensures
        r@ == decimal_text_fixed(d, places as nat),
{
    format!("{:.*}", places, rust_decimal::Decimal::from_i128_with_scale(d.mantissa, d.scale))
}

} // verus!
