//! Rational values over a numeric domain: a tagged union whose fraction
//! parts are non-zero by construction, with a canonical representation of
//! zero (exactly one tag, `Zero`, denotes the value 0).
use crate::traits::RealSubset;
use vstd::prelude::*;

verus! {

/// The one runtime-checked failure of this layer: a caller supplied a zero
/// denominator to [`Rational::from_ratio`].
#[derive(Clone, Copy, Debug, PartialEq, Eq, Structural)]
pub struct DivisionByZero;

/// A non-integer or un-reduced ratio. Both components are non-zero by
/// shape, so a fraction can never denote 0 or a division by zero. No
/// reduction to lowest terms is performed: the components are kept exactly
/// as supplied, so fractions equal in value may still differ as values.
pub struct Fraction<D: RealSubset> {
    numerator: D::NonZeroSigned,
    denominator: D::NonZeroUnsigned,
}

impl<D: RealSubset> Fraction<D> {
    /// The mathematical value of the numerator.
    pub closed spec fn num(self) -> int {
        D::non_zero_signed_value(&self.numerator)
    }

    /// The mathematical value of the denominator.
    pub closed spec fn den(self) -> int {
        D::non_zero_unsigned_value(&self.denominator)
    }

    /// Well-formedness: both components non-zero, the denominator positive
    /// and representable in the domain's signed range.
    pub closed spec fn wf(self) -> bool {
        self.num() != 0 && self.den() > 0 && D::in_signed_range(self.den())
    }

    /// The numerator, exactly as it was supplied.
    pub fn numerator(&self) -> (r: &D::NonZeroSigned)
        ensures
            D::non_zero_signed_value(r) == self.num(),
    {
        &self.numerator
    }

    /// The denominator, exactly as it was supplied.
    pub fn denominator(&self) -> (r: &D::NonZeroUnsigned)
        ensures
            D::non_zero_unsigned_value(r) == self.den(),
    {
        &self.denominator
    }
}

/// A rational value over the numeric domain `D`, with a canonical zero:
/// `Integer` and `Fraction` payloads are non-zero by shape, so `Zero` is the
/// only representation of the value 0.
pub enum Rational<D: RealSubset> {
    /// The additive identity; carries no payload.
    Zero,
    /// A whole, non-zero number.
    Integer(D::NonZeroSigned),
    /// A ratio of two non-zero components.
    Fractional(Fraction<D>),
}

impl<D: RealSubset> Rational<D> {
    /// The mathematical numerator this value denotes (`Zero` denotes 0/1,
    /// `Integer(n)` denotes n/1).
    pub open spec fn num_value(self) -> int {
        match self {
            Rational::Zero => 0,
            Rational::Integer(n) => D::non_zero_signed_value(&n),
            Rational::Fractional(f) => f.num(),
        }
    }

    /// The mathematical denominator this value denotes.
    pub open spec fn den_value(self) -> int {
        match self {
            Rational::Zero => 1,
            Rational::Integer(_) => 1,
            Rational::Fractional(f) => f.den(),
        }
    }

    /// Well-formedness: every payload honours its shape's guarantee.
    pub open spec fn wf(self) -> bool {
        match self {
            Rational::Zero => true,
            Rational::Integer(n) => D::non_zero_signed_value(&n) != 0,
            Rational::Fractional(f) => f.wf(),
        }
    }

    /// Builds a whole-number rational: `Zero` for 0, `Integer` otherwise.
    /// Total; no error path.
    pub fn from_integer(n: D::Signed) -> (r: Self)
        ensures
            r.wf(),
            r.num_value() == D::signed_value(&n),
            r.den_value() == 1,
            (r is Zero) <==> D::signed_value(&n) == 0,
            D::signed_value(&n) != 0 ==> (r is Integer),
    {
        if D::is_zero_signed(&n) {
            Rational::Zero
        } else {
            Rational::Integer(D::narrow_signed(n))
        }
    }

    /// Builds a ratio. Fails with [`DivisionByZero`] exactly when the
    /// denominator is zero; otherwise a zero numerator yields the canonical
    /// `Zero`, and any other numerator yields a `Fractional` value holding
    /// both components exactly as supplied (no implicit reduction).
    pub fn from_ratio(numerator: D::Signed, denominator: D::Unsigned) -> (r: Result<
        Self,
        DivisionByZero,
    >)
        ensures
            (r is Err) <==> D::unsigned_value(&denominator) == 0,
            r matches Ok(q) ==> q.wf(),
            D::unsigned_value(&denominator) != 0 && D::signed_value(&numerator) == 0 ==> (
            r matches Ok(q) && q is Zero),
            D::unsigned_value(&denominator) != 0 && D::signed_value(&numerator) != 0 ==> (
            r matches Ok(q) && q is Fractional && q.num_value() == D::signed_value(&numerator)
                && q.den_value() == D::unsigned_value(&denominator)),
    {
        if D::is_zero_unsigned(&denominator) {
            Err(DivisionByZero)
        } else if D::is_zero_signed(&numerator) {
            Ok(Rational::Zero)
        } else {
            Ok(
                Rational::Fractional(
                    Fraction {
                        numerator: D::narrow_signed(numerator),
                        denominator: D::narrow_unsigned(denominator),
                    },
                ),
            )
        }
    }
}

/// Law: the canonical-zero invariant. A well-formed rational denotes the
/// value 0 exactly when it carries the `Zero` tag: no `Integer` or
/// `Fractional` value can denote 0.
pub proof fn lemma_canonical_zero<D: RealSubset>(r: Rational<D>)
    requires
        r.wf(),
    ensures
        (r.num_value() == 0) <==> (r is Zero),
{
}

} // verus!
