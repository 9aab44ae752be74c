//! Exact decimal numbers, as the store keeps prices and royalty rates.

use vstd::prelude::*;

verus! {

/// The largest scale a number can have.
pub const MAX_SCALE: u32 = 28;

/// The largest magnitude a mantissa can have: 96 bits.
pub const MAX_MANTISSA: i128 = 0xFFFF_FFFF_FFFF_FFFF_FFFF_FFFF;

/// The decimal number `mantissa / 10^scale`.
///
/// Equality with `==` is equality of the two parts, so `1.0` and `1.00` differ
/// under it; `at_most` and `at_least` compare the numbers themselves.
#[derive(Debug, Clone, Copy, PartialEq, Eq, Structural)]
pub struct Numeric {
    mantissa: i128,
    scale: u32,
}

/// Ten to the power `n`.
pub open spec fn pow10(n: nat) -> nat
    decreases n,
{
    if n == 0 {
        1
    } else {
        10 * pow10((n - 1) as nat)
    }
}

/// Whether `m1 / 10^s1` is at most `m2 / 10^s2`.
pub open spec fn ratio_at_most(m1: int, s1: nat, m2: int, s2: nat) -> bool {
    m1 * pow10(s2) <= m2 * pow10(s1)
}

/// What `rust_decimal` reads out of a text: the mantissa and the scale of the
/// number, or nothing where it rejects the text.
pub uninterp spec fn decimal_text_value(text: Seq<char>) -> Option<(i128, u32)>;

/// Calls `rust_decimal`'s `FromStr` for `Decimal` (through `str::parse`) and takes
/// the result apart with `Decimal::mantissa` and `Decimal::scale`. The contract
/// names the outcome, and claims of it only what every `Decimal` has: a scale of
/// at most 28 and a mantissa of at most 96 bits.
#[verifier::external_body]
fn decimal_from_text(text: &str) -> (r: Option<Numeric>)
    ensures
        match r {
            Some(n) => decimal_text_value(text@) == Some((n.spec_mantissa(), n.spec_scale()))
                && n.wf(),
            None => decimal_text_value(text@) is None,
        },
{
    match text.parse::<rust_decimal::Decimal>() {
        Ok(d) => Some(Numeric { mantissa: d.mantissa(), scale: d.scale() }),
        Err(_) => None,
    }
}

/// Builds two `Decimal`s with `Decimal::from_i128_with_scale` and compares them
/// with `<=`. The contract claims that `rust_decimal` orders decimals by the
/// numbers they stand for. The outside constructor panics on a scale above 28 or
/// a mantissa beyond 96 bits, which `requires` leaves out.
#[verifier::external_body]
fn decimal_at_most(a: &Numeric, b: &Numeric) -> (r: bool)
    requires
        a.wf(),
        b.wf(),
    ensures
        r == ratio_at_most(
            a.spec_mantissa() as int,
            a.spec_scale() as nat,
            b.spec_mantissa() as int,
            b.spec_scale() as nat,
        ),
{
    rust_decimal::Decimal::from_i128_with_scale(a.mantissa, a.scale)
        <= rust_decimal::Decimal::from_i128_with_scale(b.mantissa, b.scale)
}

impl Numeric {
    #[verifier::type_invariant]
    spec fn representable(self) -> bool {
        self.wf()
    }

    /// The mantissa: the number without its decimal point.
    pub closed spec fn spec_mantissa(self) -> i128 {
        self.mantissa
    }

    /// The scale: how many of the mantissa's digits stand behind the point.
    pub closed spec fn spec_scale(self) -> u32 {
        self.scale
    }

    /// What holds of every number: the scale is at most 28, and the mantissa fits
    /// 96 bits.
    pub open spec fn wf(self) -> bool {
        &&& self.spec_scale() <= MAX_SCALE
        &&& -MAX_MANTISSA <= self.spec_mantissa() <= MAX_MANTISSA
    }

    /// Whether this number is at most `other`, as numbers.
    pub open spec fn spec_at_most(self, other: Numeric) -> bool {
        ratio_at_most(
            self.spec_mantissa() as int,
            self.spec_scale() as nat,
            other.spec_mantissa() as int,
            other.spec_scale() as nat,
        )
    }

    /// The number `mantissa / 10^scale`, or `None` where the scale is above 28 or
    /// the mantissa does not fit 96 bits.
    pub fn new(mantissa: i128, scale: u32) -> (r: Option<Numeric>)
        ensures
            match r {
                Some(n) => n.spec_mantissa() == mantissa && n.spec_scale() == scale && n.wf(),
                None => scale > MAX_SCALE || mantissa > MAX_MANTISSA || mantissa < -MAX_MANTISSA,
            },
    {
        if scale > MAX_SCALE || mantissa > MAX_MANTISSA || mantissa < -MAX_MANTISSA {
            None
        } else {
            Some(Numeric { mantissa, scale })
        }
    }

    /// The mantissa.
    pub fn mantissa(&self) -> (m: i128)
        ensures
            m == self.spec_mantissa(),
            self.wf(),
    {
        proof {
            use_type_invariant(self);
        }
        self.mantissa
    }

    /// The scale.
    pub fn scale(&self) -> (s: u32)
        ensures
            s == self.spec_scale(),
            self.wf(),
    {
        proof {
            use_type_invariant(self);
        }
        self.scale
    }

    /// Reads a decimal number out of `text`, by the rules of `rust_decimal`.
    pub fn from_str(text: &str) -> (r: Option<Numeric>)
        ensures
            match r {
                Some(n) => decimal_text_value(text@) == Some((n.spec_mantissa(), n.spec_scale()))
                    && n.wf(),
                None => decimal_text_value(text@) is None,
            },
    {
        decimal_from_text(text)
    }

    /// Whether this number is at most `other`.
    pub fn at_most(&self, other: &Numeric) -> (r: bool)
        ensures
            r == self.spec_at_most(*other),
    {
        proof {
            use_type_invariant(self);
            use_type_invariant(other);
        }
        decimal_at_most(self, other)
    }

    /// Whether this number is at least `other`.
    pub fn at_least(&self, other: &Numeric) -> (r: bool)
        ensures
            r == other.spec_at_most(*self),
    {
        other.at_most(self)
    }
}

} // verus!
