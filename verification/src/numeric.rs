//! Integer arithmetic, comparisons and narrowing, as the instructions do them.

use crate::vm_error::{Stop, StopModel, VmError, VmErrorModel};
use vstd::prelude::*;

verus! {

/// The binary operations on integers and longs.
#[derive(Clone, Copy, Debug, PartialEq, Eq, Structural)]
pub enum IntegerOp {
    Add,
    Sub,
    Mul,
    Div,
    Rem,
    And,
    Or,
    Xor,
}

/// The tests that a conditional jump makes.
#[derive(Clone, Copy, Debug, PartialEq, Eq, Structural)]
pub enum Comparison {
    Equal,
    NotEqual,
    Less,
    LessOrEqual,
    Greater,
    GreaterOrEqual,
}

/// The quotient of two integers, rounded towards zero.
pub open spec fn quotient(a: int, b: int) -> int {
    if a >= 0 {
        a / b
    } else {
        -((-a) / b)
    }
}

/// The remainder of the division rounded towards zero: it has the sign of the dividend.
pub open spec fn remainder(a: int, b: int) -> int {
    if a >= 0 {
        a % b
    } else {
        -((-a) % b)
    }
}

/// What an operation on two integers gives. Sums, differences and products wrap around at
/// 32 bits. Division by zero is an arithmetic error, and the quotient of the least integer and
/// -1, which is no 32-bit integer, leaves the machine without a way to go on.
pub open spec fn int_result(op: IntegerOp, a: i32, b: i32) -> Result<i32, StopModel> {
    match op {
        IntegerOp::Add => Ok(a.wrapping_add(b)),
        IntegerOp::Sub => Ok(a.wrapping_sub(b)),
        IntegerOp::Mul => Ok(a.wrapping_mul(b)),
        IntegerOp::Div => if b == 0 {
            Err(StopModel::Error(VmErrorModel::ArithmeticException))
        } else if a == i32::MIN && b == -1 {
            Err(StopModel::Fault)
        } else {
            Ok(quotient(a as int, b as int) as i32)
        },
        IntegerOp::Rem => if b == 0 {
            Err(StopModel::Error(VmErrorModel::ArithmeticException))
        } else if a == i32::MIN && b == -1 {
            Err(StopModel::Fault)
        } else {
            Ok(remainder(a as int, b as int) as i32)
        },
        IntegerOp::And => Ok(a & b),
        IntegerOp::Or => Ok(a | b),
        IntegerOp::Xor => Ok(a ^ b),
    }
}

/// What an operation on two longs gives: as [`int_result`], at 64 bits.
pub open spec fn long_result(op: IntegerOp, a: i64, b: i64) -> Result<i64, StopModel> {
    match op {
        IntegerOp::Add => Ok(a.wrapping_add(b)),
        IntegerOp::Sub => Ok(a.wrapping_sub(b)),
        IntegerOp::Mul => Ok(a.wrapping_mul(b)),
        IntegerOp::Div => if b == 0 {
            Err(StopModel::Error(VmErrorModel::ArithmeticException))
        } else if a == i64::MIN && b == -1 {
            Err(StopModel::Fault)
        } else {
            Ok(quotient(a as int, b as int) as i64)
        },
        IntegerOp::Rem => if b == 0 {
            Err(StopModel::Error(VmErrorModel::ArithmeticException))
        } else if a == i64::MIN && b == -1 {
            Err(StopModel::Fault)
        } else {
            Ok(remainder(a as int, b as int) as i64)
        },
        IntegerOp::And => Ok(a & b),
        IntegerOp::Or => Ok(a | b),
        IntegerOp::Xor => Ok(a ^ b),
    }
}

/// Whether a comparison holds of two integers.
pub open spec fn comparison_holds(comparison: Comparison, a: int, b: int) -> bool {
    match comparison {
        Comparison::Equal => a == b,
        Comparison::NotEqual => a != b,
        Comparison::Less => a < b,
        Comparison::LessOrEqual => a <= b,
        Comparison::Greater => a > b,
        Comparison::GreaterOrEqual => a >= b,
    }
}

/// Applies an operation to two integers.
pub fn int_math(op: IntegerOp, a: i32, b: i32) -> (result: Result<i32, Stop>)
    ensures
        crate::vm_error::stop_result(result) == int_result(op, a, b),
{
    match op {
        IntegerOp::Add => Ok(a.wrapping_add(b)),
        IntegerOp::Sub => Ok(a.wrapping_sub(b)),
        IntegerOp::Mul => Ok(a.wrapping_mul(b)),
        IntegerOp::Div => if b == 0 {
            Err(Stop::Error(VmError::ArithmeticException))
        } else if a == i32::MIN && b == -1 {
            Err(Stop::Fault)
        } else {
            Ok(a / b)
        },
        IntegerOp::Rem => if b == 0 {
            Err(Stop::Error(VmError::ArithmeticException))
        } else if a == i32::MIN && b == -1 {
            Err(Stop::Fault)
        } else {
            Ok(a % b)
        },
        IntegerOp::And => Ok(a & b),
        IntegerOp::Or => Ok(a | b),
        IntegerOp::Xor => Ok(a ^ b),
    }
}

/// Applies an operation to two longs.
pub fn long_math(op: IntegerOp, a: i64, b: i64) -> (result: Result<i64, Stop>)
    ensures
        crate::vm_error::stop_result(result) == long_result(op, a, b),
{
    match op {
        IntegerOp::Add => Ok(a.wrapping_add(b)),
        IntegerOp::Sub => Ok(a.wrapping_sub(b)),
        IntegerOp::Mul => Ok(a.wrapping_mul(b)),
        IntegerOp::Div => if b == 0 {
            Err(Stop::Error(VmError::ArithmeticException))
        } else if a == i64::MIN && b == -1 {
            Err(Stop::Fault)
        } else {
            Ok(a / b)
        },
        IntegerOp::Rem => if b == 0 {
            Err(Stop::Error(VmError::ArithmeticException))
        } else if a == i64::MIN && b == -1 {
            Err(Stop::Fault)
        } else {
            Ok(a % b)
        },
        IntegerOp::And => Ok(a & b),
        IntegerOp::Or => Ok(a | b),
        IntegerOp::Xor => Ok(a ^ b),
    }
}

/// Makes a comparison.
pub fn compare(comparison: Comparison, a: i32, b: i32) -> (holds: bool)
    ensures
        holds == comparison_holds(comparison, a as int, b as int),
{
    match comparison {
        Comparison::Equal => a == b,
        Comparison::NotEqual => a != b,
        Comparison::Less => a < b,
        Comparison::LessOrEqual => a <= b,
        Comparison::Greater => a > b,
        Comparison::GreaterOrEqual => a >= b,
    }
}

} // verus!
