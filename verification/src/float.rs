//! Floating-point numbers, carried as IEEE 754 bit patterns.
//!
//! The machine moves, stores and classifies floating-point numbers by their bits. Arithmetic on
//! them is done by a [`FloatUnit`] that the caller provides.

use vstd::prelude::*;

verus! {

/// The binary operations on floating-point numbers.
#[derive(Clone, Copy, Debug, PartialEq, Eq, Structural)]
pub enum FloatOp {
    Add,
    Sub,
    Mul,
    Div,
    Rem,
}

/// A computation whose result is a single-precision number.
#[derive(Clone, Copy, Debug, PartialEq, Eq, Structural)]
pub enum SingleMath {
    /// An operation on two single-precision numbers.
    Binary(FloatOp, u32, u32),
    /// The single-precision number nearest to an integer.
    FromInt(i32),
}

/// A computation whose result is a double-precision number.
#[derive(Clone, Copy, Debug, PartialEq, Eq, Structural)]
pub enum DoubleMath {
    /// An operation on two double-precision numbers.
    Binary(FloatOp, u64, u64),
    /// The double-precision number that equals an integer.
    FromInt(i32),
}

/// Does floating-point arithmetic on bit patterns.
pub struct FloatUnit<S, D> {
    /// Computes single-precision results.
    pub single: S,
    /// Computes double-precision results.
    pub double: D,
}

/// What a float unit computes, as functions.
pub struct FloatModel {
    pub single: spec_fn(SingleMath) -> u32,
    pub double: spec_fn(DoubleMath) -> u64,
}

/// The bits of positive zero, one and two, and of a quiet not-a-number, in single precision.
pub const SINGLE_ZERO: u32 = 0;

pub const SINGLE_ONE: u32 = 0x3f80_0000;

pub const SINGLE_TWO: u32 = 0x4000_0000;

pub const SINGLE_NAN: u32 = 0x7fc0_0000;

/// The bits of positive zero and one, and of a quiet not-a-number, in double precision.
pub const DOUBLE_ZERO: u64 = 0;

pub const DOUBLE_ONE: u64 = 0x3ff0_0000_0000_0000;

pub const DOUBLE_NAN: u64 = 0x7ff8_0000_0000_0000;

/// The bits of a single-precision number without its sign.
pub open spec fn single_magnitude(bits: u32) -> u32 {
    bits & 0x7fff_ffff
}

/// The bits of a double-precision number without its sign.
pub open spec fn double_magnitude(bits: u64) -> u64 {
    bits & 0x7fff_ffff_ffff_ffff
}

/// The exponent is all ones and the fraction is not zero.
pub open spec fn single_is_nan(bits: u32) -> bool {
    single_magnitude(bits) > 0x7f80_0000
}

/// The exponent is all ones and the fraction is zero.
pub open spec fn single_is_infinite(bits: u32) -> bool {
    single_magnitude(bits) == 0x7f80_0000
}

/// Exponent and fraction are zero: a zero of either sign.
pub open spec fn single_is_zero(bits: u32) -> bool {
    single_magnitude(bits) == 0
}

/// The exponent is all ones and the fraction is not zero.
pub open spec fn double_is_nan(bits: u64) -> bool {
    double_magnitude(bits) > 0x7ff0_0000_0000_0000
}

/// The exponent is all ones and the fraction is zero.
pub open spec fn double_is_infinite(bits: u64) -> bool {
    double_magnitude(bits) == 0x7ff0_0000_0000_0000
}

/// Exponent and fraction are zero: a zero of either sign.
pub open spec fn double_is_zero(bits: u64) -> bool {
    double_magnitude(bits) == 0
}

/// Whether a single-precision quotient is not a number: an operand is none, or both are
/// infinite, or both are zero.
pub open spec fn single_division_is_nan(a: u32, b: u32) -> bool {
    ||| single_is_nan(a)
    ||| single_is_nan(b)
    ||| single_is_infinite(a) && single_is_infinite(b)
    ||| single_is_zero(a) && single_is_zero(b)
}

/// Whether a double-precision quotient is not a number.
pub open spec fn double_division_is_nan(a: u64, b: u64) -> bool {
    ||| double_is_nan(a)
    ||| double_is_nan(b)
    ||| double_is_infinite(a) && double_is_infinite(b)
    ||| double_is_zero(a) && double_is_zero(b)
}

/// What an operation on two single-precision numbers gives.
pub open spec fn single_result(floats: FloatModel, op: FloatOp, a: u32, b: u32) -> u32 {
    if (op == FloatOp::Div || op == FloatOp::Rem) && single_division_is_nan(a, b) {
        SINGLE_NAN
    } else {
        (floats.single)(SingleMath::Binary(op, a, b))
    }
}

/// What an operation on two double-precision numbers gives.
pub open spec fn double_result(floats: FloatModel, op: FloatOp, a: u64, b: u64) -> u64 {
    if (op == FloatOp::Div || op == FloatOp::Rem) && double_division_is_nan(a, b) {
        DOUBLE_NAN
    } else {
        (floats.double)(DoubleMath::Binary(op, a, b))
    }
}

/// Whether the quotient of two single-precision numbers is not a number.
pub fn is_single_division_returning_nan(a: u32, b: u32) -> (nan: bool)
    ensures
        nan == single_division_is_nan(a, b),
{
    let left: u32 = a & 0x7fff_ffff;
    let right: u32 = b & 0x7fff_ffff;
    left > 0x7f80_0000 || right > 0x7f80_0000 || (left == 0x7f80_0000 && right == 0x7f80_0000) || (
    left == 0 && right == 0)
}

/// Whether the quotient of two double-precision numbers is not a number.
pub fn is_double_division_returning_nan(a: u64, b: u64) -> (nan: bool)
    ensures
        nan == double_division_is_nan(a, b),
{
    let left: u64 = a & 0x7fff_ffff_ffff_ffff;
    let right: u64 = b & 0x7fff_ffff_ffff_ffff;
    left > 0x7ff0_0000_0000_0000 || right > 0x7ff0_0000_0000_0000 || (left == 0x7ff0_0000_0000_0000
        && right == 0x7ff0_0000_0000_0000) || (left == 0 && right == 0)
}

impl<S: Fn(SingleMath) -> u32, D: Fn(DoubleMath) -> u64> FloatUnit<S, D> {
    /// The result that the unit gives for a single-precision computation.
    pub open spec fn single_bits(&self, math: SingleMath) -> u32 {
        choose|bits: u32| call_ensures(self.single, (math,), bits)
    }

    /// The result that the unit gives for a double-precision computation.
    pub open spec fn double_bits(&self, math: DoubleMath) -> u64 {
        choose|bits: u64| call_ensures(self.double, (math,), bits)
    }

    /// The functions that the unit computes.
    pub open spec fn model(&self) -> FloatModel {
        FloatModel {
            single: |math: SingleMath| self.single_bits(math),
            double: |math: DoubleMath| self.double_bits(math),
        }
    }

    /// The unit answers every request, and the same request in the same way each time.
    pub open spec fn is_functional(&self) -> bool {
        &&& forall|math: SingleMath| call_requires(self.single, (math,))
        &&& forall|math: DoubleMath| call_requires(self.double, (math,))
        &&& forall|math: SingleMath, bits: u32|
            call_ensures(self.single, (math,), bits) ==> bits == self.single_bits(math)
        &&& forall|math: DoubleMath, bits: u64|
            call_ensures(self.double, (math,), bits) ==> bits == self.double_bits(math)
    }

    /// Asks the unit for a single-precision result.
    pub fn compute_single(&self, math: SingleMath) -> (bits: u32)
        requires
            self.is_functional(),
        ensures
            bits == (self.model().single)(math),
            call_ensures(self.single, (math,), bits),
    {
        (self.single)(math)
    }

    /// Asks the unit for a double-precision result.
    pub fn compute_double(&self, math: DoubleMath) -> (bits: u64)
        requires
            self.is_functional(),
        ensures
            bits == (self.model().double)(math),
            call_ensures(self.double, (math,), bits),
    {
        (self.double)(math)
    }

    /// Applies an operation to two single-precision numbers. Division and remainder give
    /// [`SINGLE_NAN`] where the quotient is not a number.
    pub fn single_math(&self, op: FloatOp, a: u32, b: u32) -> (bits: u32)
        requires
            self.is_functional(),
        ensures
            bits == single_result(self.model(), op, a, b),
    {
        if (op == FloatOp::Div || op == FloatOp::Rem) && is_single_division_returning_nan(a, b) {
            SINGLE_NAN
        } else {
            self.compute_single(SingleMath::Binary(op, a, b))
        }
    }

    /// Applies an operation to two double-precision numbers. Division and remainder give
    /// [`DOUBLE_NAN`] where the quotient is not a number.
    pub fn double_math(&self, op: FloatOp, a: u64, b: u64) -> (bits: u64)
        requires
            self.is_functional(),
        ensures
            bits == double_result(self.model(), op, a, b),
    {
        if (op == FloatOp::Div || op == FloatOp::Rem) && is_double_division_returning_nan(a, b) {
            DOUBLE_NAN
        } else {
            self.compute_double(DoubleMath::Binary(op, a, b))
        }
    }
}

} // verus!
