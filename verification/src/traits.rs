//! The numeric domain contract: a type-level association from a base numeric
//! representation to the four shapes a rational value needs.
use vstd::prelude::*;

verus! {

/// Associates a numeric representation with its four derived shapes.
///
/// The contract itself never fails at runtime: it only describes shapes.
/// An implementer must supply, for each shape, a spec-level reading as a
/// mathematical integer, and conversions that enforce the shape guarantees
/// at their own boundary:
///
/// * `Signed` may hold any value;
/// * `Unsigned` must always be `>= 0`;
/// * `NonZeroSigned` must never be `0`;
/// * `NonZeroUnsigned` must always be `> 0` and representable in `Signed`'s
///   range.
pub trait RealSubset {
    /// Can be any value.
    type Signed;

    /// Must always be >= 0.
    type Unsigned;

    /// Must never be 0.
    type NonZeroSigned;

    /// Must always be > 0, and representable in `Signed`'s range.
    type NonZeroUnsigned;

    /// The mathematical integer a `Signed` value stands for.
    spec fn signed_value(v: &Self::Signed) -> int;

    /// The mathematical integer an `Unsigned` value stands for.
    spec fn unsigned_value(v: &Self::Unsigned) -> int;

    /// The mathematical integer a `NonZeroSigned` value stands for.
    spec fn non_zero_signed_value(v: &Self::NonZeroSigned) -> int;

    /// The mathematical integer a `NonZeroUnsigned` value stands for.
    spec fn non_zero_unsigned_value(v: &Self::NonZeroUnsigned) -> int;

    /// Whether a mathematical integer is representable in `Signed`.
    spec fn in_signed_range(i: int) -> bool;

    /// Decides whether a `Signed` value is zero.
    fn is_zero_signed(v: &Self::Signed) -> (r: bool)
        ensures
            r == (Self::signed_value(v) == 0),
    ;

    /// Decides whether an `Unsigned` value is zero.
    fn is_zero_unsigned(v: &Self::Unsigned) -> (r: bool)
        ensures
            r == (Self::unsigned_value(v) == 0),
    ;

    /// Converts a value known to be non-zero into the `NonZeroSigned` shape,
    /// preserving the value exactly.
    fn narrow_signed(v: Self::Signed) -> (r: Self::NonZeroSigned)
        requires
            Self::signed_value(&v) != 0,
        ensures
            Self::non_zero_signed_value(&r) == Self::signed_value(&v),
    ;

    /// Converts a value known to be non-zero into the `NonZeroUnsigned`
    /// shape, preserving the value exactly. The result carries the shape's
    /// guarantees: strictly positive and representable in `Signed`'s range.
    fn narrow_unsigned(v: Self::Unsigned) -> (r: Self::NonZeroUnsigned)
        requires
            Self::unsigned_value(&v) != 0,
        ensures
            Self::non_zero_unsigned_value(&r) == Self::unsigned_value(&v),
            Self::non_zero_unsigned_value(&r) > 0,
            Self::in_signed_range(Self::non_zero_unsigned_value(&r)),
    ;
}

/// A 64-bit signed machine integer known to be non-zero.
#[derive(Clone, Copy, Debug)]
pub struct NonZeroSigned64 {
    raw: i64,
}

impl NonZeroSigned64 {
    /// The integer this wrapper holds.
    pub closed spec fn value(self) -> int {
        self.raw as int
    }

    /// Returns the wrapped machine integer.
    pub fn get(&self) -> (r: i64)
        ensures
            r as int == self.value(),
    {
        self.raw
    }
}

/// A 32-bit unsigned machine integer known to be non-zero; every such value
/// is strictly positive and representable as a 64-bit signed integer.
#[derive(Clone, Copy, Debug)]
pub struct NonZeroUnsigned32 {
    raw: u32,
}

impl NonZeroUnsigned32 {
    /// The integer this wrapper holds.
    pub closed spec fn value(self) -> int {
        self.raw as int
    }

    /// Returns the wrapped machine integer.
    pub fn get(&self) -> (r: u32)
        ensures
            r as int == self.value(),
    {
        self.raw
    }
}

/// The machine-integer domain: 64-bit signed values, 32-bit unsigned values,
/// and the two non-zero wrappers above.
impl RealSubset for i64 {
    type Signed = i64;

    type Unsigned = u32;

    type NonZeroSigned = NonZeroSigned64;

    type NonZeroUnsigned = NonZeroUnsigned32;

    open spec fn signed_value(v: &i64) -> int {
        *v as int
    }

    open spec fn unsigned_value(v: &u32) -> int {
        *v as int
    }

    open spec fn non_zero_signed_value(v: &NonZeroSigned64) -> int {
        v.value()
    }

    open spec fn non_zero_unsigned_value(v: &NonZeroUnsigned32) -> int {
        v.value()
    }

    open spec fn in_signed_range(i: int) -> bool {
        i64::MIN <= i <= i64::MAX
    }

    fn is_zero_signed(v: &i64) -> bool {
        *v == 0
    }

    fn is_zero_unsigned(v: &u32) -> bool {
        *v == 0
    }

    fn narrow_signed(v: i64) -> NonZeroSigned64 {
        NonZeroSigned64 { raw: v }
    }

    fn narrow_unsigned(v: u32) -> NonZeroUnsigned32 {
        NonZeroUnsigned32 { raw: v }
    }
}

} // verus!
