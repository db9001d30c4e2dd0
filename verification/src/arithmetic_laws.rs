//! What arithmetic, conversions and conditional jumps compute, as facts about integers and bits.

use crate::float::{DoubleMath, FloatModel, FloatOp, FloatUnit, SingleMath};
use crate::instruction::Instruction;
use crate::numeric::{comparison_holds, int_result, long_result, Comparison, IntegerOp};
use crate::operand_laws::{executed, fails, faults, leaves_stack};
use crate::semantics::{FrameModel, VmModel};
use crate::value::Value;
use crate::vm_error::{StopModel, VmErrorModel};
use vstd::prelude::*;

verus! {

/// What the frame has on its stack when an instruction takes the two topmost values.
proof fn lemma_two_operands(frame: FrameModel, below: Seq<Value>, left: Value, right: Value)
    requires
        frame.stack == below.push(left).push(right),
    ensures
        frame.stack.len() == below.len() + 2,
        frame.stack.last() == right,
        frame.stack.drop_last() == below.push(left),
        frame.stack.drop_last().last() == left,
        frame.stack.drop_last().drop_last() == below,
{
    assert(frame.stack.drop_last() == below.push(left));
    assert(below.push(left).drop_last() == below);
}

/// What the frame has on its stack when an instruction takes the topmost value.
proof fn lemma_one_operand(frame: FrameModel, below: Seq<Value>, value: Value)
    requires
        frame.stack == below.push(value),
    ensures
        frame.stack.len() == below.len() + 1,
        frame.stack.last() == value,
        frame.stack.drop_last() == below,
{
    assert(below.push(value).drop_last() == below);
}

/// The sum of two integers is exact where it is a 32-bit integer, and otherwise the 32-bit
/// integer that differs from it by a multiple of 2 to the power of 32. It takes the place of the
/// two operands, and nothing else changes.
pub proof fn law_int_sum(
    floats: FloatModel,
    frame: FrameModel,
    vm: VmModel,
    below: Seq<Value>,
    a: i32,
    b: i32,
)
    requires
        frame.stack == below.push(Value::Int(a)).push(Value::Int(b)),
    ensures
        ({
            let after = executed(floats, Instruction::Iadd, frame, vm);
            &&& after.frame.stack.last() matches Value::Int(result)
            &&& leaves_stack(after, frame, vm, below.push(Value::Int(result)))
            &&& (result - (a + b)) % 0x1_0000_0000 == 0
            &&& i32::MIN <= a + b <= i32::MAX ==> result == a + b
        }),
{
    lemma_two_operands(frame, below, Value::Int(a), Value::Int(b));
    let exact = a + b;
    assert(exact == a + b);
}

/// The difference of two integers is exact where it is a 32-bit integer, and otherwise the 32-bit
/// integer that differs from it by a multiple of 2 to the power of 32. It takes the place of the
/// two operands, and nothing else changes.
pub proof fn law_int_difference(
    floats: FloatModel,
    frame: FrameModel,
    vm: VmModel,
    below: Seq<Value>,
    a: i32,
    b: i32,
)
    requires
        frame.stack == below.push(Value::Int(a)).push(Value::Int(b)),
    ensures
        ({
            let after = executed(floats, Instruction::Isub, frame, vm);
            &&& after.frame.stack.last() matches Value::Int(result)
            &&& leaves_stack(after, frame, vm, below.push(Value::Int(result)))
            &&& (result - (a - b)) % 0x1_0000_0000 == 0
            &&& i32::MIN <= a - b <= i32::MAX ==> result == a - b
        }),
{
    lemma_two_operands(frame, below, Value::Int(a), Value::Int(b));
    let exact = a - b;
    assert(exact == a - b);
}

/// The product of two integers is exact where it is a 32-bit integer, and otherwise the 32-bit
/// integer that differs from it by a multiple of 2 to the power of 32. It takes the place of the
/// two operands, and nothing else changes.
pub proof fn law_int_product(
    floats: FloatModel,
    frame: FrameModel,
    vm: VmModel,
    below: Seq<Value>,
    a: i32,
    b: i32,
)
    requires
        frame.stack == below.push(Value::Int(a)).push(Value::Int(b)),
    ensures
        ({
            let after = executed(floats, Instruction::Imul, frame, vm);
            &&& after.frame.stack.last() matches Value::Int(result)
            &&& leaves_stack(after, frame, vm, below.push(Value::Int(result)))
            &&& (result - a * b) % 0x1_0000_0000 == 0
            &&& i32::MIN <= a * b <= i32::MAX ==> result == a * b
        }),
{
    lemma_two_operands(frame, below, Value::Int(a), Value::Int(b));
    let exact = a * b;
    assert(exact == a * b);
}

/// The quotient of two integers leaves a rest that is smaller than the divisor and does not have the
/// sign that the dividend has not. There is none for the divisor zero, and the machine has no way
/// to go on where the quotient is no 32-bit integer.
pub proof fn law_int_quotient(
    floats: FloatModel,
    frame: FrameModel,
    vm: VmModel,
    below: Seq<Value>,
    a: i32,
    b: i32,
)
    requires
        frame.stack == below.push(Value::Int(a)).push(Value::Int(b)),
    ensures
        ({
            let after = executed(floats, Instruction::Idiv, frame, vm);
            if b == 0 {
                fails(after, frame, vm, VmErrorModel::ArithmeticException)
            } else if a == i32::MIN && b == -1 {
                faults(after, frame, vm)
            } else {
                &&& after.frame.stack.last() matches Value::Int(result)
                &&& leaves_stack(after, frame, vm, below.push(Value::Int(result)))
                &&& a >= 0 ==> 0 <= a - result * b
                &&& a <= 0 ==> a - result * b <= 0
                &&& b > 0 ==> -b < a - result * b < b
                &&& b < 0 ==> b < a - result * b < -b
            }
        }),
{
    lemma_two_operands(frame, below, Value::Int(a), Value::Int(b));
    if b != 0 && !(a == i32::MIN && b == -1) {
        crate::instruction_laws::law_division(a, b);
    }
}

/// The remainder of two integers is smaller than the divisor, does not have the sign that the
/// dividend has not, and differs from the dividend by a multiple of the divisor.
pub proof fn law_int_remainder(
    floats: FloatModel,
    frame: FrameModel,
    vm: VmModel,
    below: Seq<Value>,
    a: i32,
    b: i32,
)
    requires
        frame.stack == below.push(Value::Int(a)).push(Value::Int(b)),
    ensures
        ({
            let after = executed(floats, Instruction::Irem, frame, vm);
            if b == 0 {
                fails(after, frame, vm, VmErrorModel::ArithmeticException)
            } else if a == i32::MIN && b == -1 {
                faults(after, frame, vm)
            } else {
                &&& after.frame.stack.last() matches Value::Int(result)
                &&& leaves_stack(after, frame, vm, below.push(Value::Int(result)))
                &&& a >= 0 ==> 0 <= result
                &&& a <= 0 ==> result <= 0
                &&& b > 0 ==> -b < result < b
                &&& b < 0 ==> b < result < -b
                &&& exists|q: int| a - result == #[trigger] (q * b)
            }
        }),
{
    lemma_two_operands(frame, below, Value::Int(a), Value::Int(b));
    if b != 0 && !(a == i32::MIN && b == -1) {
        crate::instruction_laws::law_division(a, b);
        let q = crate::numeric::quotient(a as int, b as int);
        let r = crate::numeric::remainder(a as int, b as int);
        assert(a - r == q * b);
    }
}

/// The conjunction, the disjunction and the exclusive disjunction of two integers, bit by bit.
pub proof fn law_int_bits(
    floats: FloatModel,
    frame: FrameModel,
    vm: VmModel,
    below: Seq<Value>,
    a: i32,
    b: i32,
)
    requires
        frame.stack == below.push(Value::Int(a)).push(Value::Int(b)),
    ensures
        ({
            let after = executed(floats, Instruction::Iand, frame, vm);
            &&& after.frame.stack.last() matches Value::Int(result)
            &&& leaves_stack(after, frame, vm, below.push(Value::Int(result)))
            &&& forall|i: u32|
                i < 32 ==> (#[trigger] (result >> i) & 1 == 1) == ((a >> i) & 1 == 1 && (b >> i) & 1
                    == 1)
        }),
        ({
            let after = executed(floats, Instruction::Ior, frame, vm);
            &&& after.frame.stack.last() matches Value::Int(result)
            &&& leaves_stack(after, frame, vm, below.push(Value::Int(result)))
            &&& forall|i: u32|
                i < 32 ==> (#[trigger] (result >> i) & 1 == 1) == ((a >> i) & 1 == 1 || (b >> i) & 1
                    == 1)
        }),
        ({
            let after = executed(floats, Instruction::Ixor, frame, vm);
            &&& after.frame.stack.last() matches Value::Int(result)
            &&& leaves_stack(after, frame, vm, below.push(Value::Int(result)))
            &&& forall|i: u32|
                i < 32 ==> (#[trigger] (result >> i) & 1 == 1) == ((a >> i) & 1 != (b >> i) & 1)
        }),
{
    lemma_two_operands(frame, below, Value::Int(a), Value::Int(b));
    assert(forall|i: u32|
        i < 32 ==> (#[trigger] ((a & b) >> i) & 1 == 1) == ((a >> i) & 1 == 1 && (b >> i) & 1
            == 1)) by (bit_vector);
    assert(forall|i: u32|
        i < 32 ==> (#[trigger] ((a | b) >> i) & 1 == 1) == ((a >> i) & 1 == 1 || (b >> i) & 1
            == 1)) by (bit_vector);
    assert(forall|i: u32|
        i < 32 ==> (#[trigger] ((a ^ b) >> i) & 1 == 1) == ((a >> i) & 1 != (b >> i) & 1))
        by (bit_vector);
}

/// Arithmetic on integers is refused where one of the two topmost values is missing or none.
pub proof fn law_int_arithmetic_needs_ints(
    floats: FloatModel,
    frame: FrameModel,
    vm: VmModel,
    instruction: Instruction,
)
    requires
        instruction == Instruction::Iadd || instruction == Instruction::Isub
            || instruction == Instruction::Imul || instruction == Instruction::Idiv
            || instruction == Instruction::Irem || instruction == Instruction::Iand
            || instruction == Instruction::Ior || instruction == Instruction::Ixor,
        frame.stack.len() < 2 || frame.stack.last() !is Int
            || frame.stack[frame.stack.len() - 2] !is Int,
    ensures
        fails(
            executed(floats, instruction, frame, vm),
            frame,
            vm,
            VmErrorModel::ValidationException,
        ),
{
    if frame.stack.len() >= 2 {
        assert(frame.stack.drop_last().last() == frame.stack[frame.stack.len() - 2]);
    }
}

/// What the operations on integers compute, without a frame.
pub proof fn law_int_operations(a: i32, b: i32)
    ensures
        int_result(IntegerOp::Add, a, b) matches Ok(result) && (result - (a + b)) % 0x1_0000_0000 == 0,
        int_result(IntegerOp::Sub, a, b) matches Ok(result) && (result - (a - b)) % 0x1_0000_0000 == 0,
        int_result(IntegerOp::Mul, a, b) matches Ok(result) && (result - a * b) % 0x1_0000_0000 == 0,
        i32::MIN <= a + b <= i32::MAX ==> int_result(IntegerOp::Add, a, b) == Ok::<_, StopModel>(
            (a + b) as i32,
        ),
        i32::MIN <= a - b <= i32::MAX ==> int_result(IntegerOp::Sub, a, b) == Ok::<_, StopModel>(
            (a - b) as i32,
        ),
        i32::MIN <= a * b <= i32::MAX ==> int_result(IntegerOp::Mul, a, b) == Ok::<_, StopModel>(
            (a * b) as i32,
        ),
        int_result(IntegerOp::Div, a, b) is Err <==> b == 0 || a == i32::MIN && b == -1,
        int_result(IntegerOp::Rem, a, b) is Err <==> b == 0 || a == i32::MIN && b == -1,
{
    let product = a * b;
    assert(product == a * b);
}

/// The sum of two longs is exact where it is a 64-bit integer, and otherwise the 64-bit
/// integer that differs from it by a multiple of 2 to the power of 64. It takes the place of the
/// two operands, and nothing else changes.
pub proof fn law_long_sum(
    floats: FloatModel,
    frame: FrameModel,
    vm: VmModel,
    below: Seq<Value>,
    a: i64,
    b: i64,
)
    requires
        frame.stack == below.push(Value::Long(a)).push(Value::Long(b)),
    ensures
        ({
            let after = executed(floats, Instruction::Ladd, frame, vm);
            &&& after.frame.stack.last() matches Value::Long(result)
            &&& leaves_stack(after, frame, vm, below.push(Value::Long(result)))
            &&& (result - (a + b)) % 0x1_0000_0000_0000_0000 == 0
            &&& i64::MIN <= a + b <= i64::MAX ==> result == a + b
        }),
{
    lemma_two_operands(frame, below, Value::Long(a), Value::Long(b));
    let exact = a + b;
    assert(exact == a + b);
}

/// The difference of two longs is exact where it is a 64-bit integer, and otherwise the 64-bit
/// integer that differs from it by a multiple of 2 to the power of 64. It takes the place of the
/// two operands, and nothing else changes.
pub proof fn law_long_difference(
    floats: FloatModel,
    frame: FrameModel,
    vm: VmModel,
    below: Seq<Value>,
    a: i64,
    b: i64,
)
    requires
        frame.stack == below.push(Value::Long(a)).push(Value::Long(b)),
    ensures
        ({
            let after = executed(floats, Instruction::Lsub, frame, vm);
            &&& after.frame.stack.last() matches Value::Long(result)
            &&& leaves_stack(after, frame, vm, below.push(Value::Long(result)))
            &&& (result - (a - b)) % 0x1_0000_0000_0000_0000 == 0
            &&& i64::MIN <= a - b <= i64::MAX ==> result == a - b
        }),
{
    lemma_two_operands(frame, below, Value::Long(a), Value::Long(b));
    let exact = a - b;
    assert(exact == a - b);
}

/// The product of two longs is exact where it is a 64-bit integer, and otherwise the 64-bit
/// integer that differs from it by a multiple of 2 to the power of 64. It takes the place of the
/// two operands, and nothing else changes.
pub proof fn law_long_product(
    floats: FloatModel,
    frame: FrameModel,
    vm: VmModel,
    below: Seq<Value>,
    a: i64,
    b: i64,
)
    requires
        frame.stack == below.push(Value::Long(a)).push(Value::Long(b)),
    ensures
        ({
            let after = executed(floats, Instruction::Lmul, frame, vm);
            &&& after.frame.stack.last() matches Value::Long(result)
            &&& leaves_stack(after, frame, vm, below.push(Value::Long(result)))
            &&& (result - a * b) % 0x1_0000_0000_0000_0000 == 0
            &&& i64::MIN <= a * b <= i64::MAX ==> result == a * b
        }),
{
    lemma_two_operands(frame, below, Value::Long(a), Value::Long(b));
    let exact = a * b;
    assert(exact == a * b);
}

/// The quotient of two longs leaves a rest that is smaller than the divisor and does not have the
/// sign that the dividend has not. There is none for the divisor zero, and the machine has no way
/// to go on where the quotient is no 64-bit integer.
pub proof fn law_long_quotient(
    floats: FloatModel,
    frame: FrameModel,
    vm: VmModel,
    below: Seq<Value>,
    a: i64,
    b: i64,
)
    requires
        frame.stack == below.push(Value::Long(a)).push(Value::Long(b)),
    ensures
        ({
            let after = executed(floats, Instruction::Ldiv, frame, vm);
            if b == 0 {
                fails(after, frame, vm, VmErrorModel::ArithmeticException)
            } else if a == i64::MIN && b == -1 {
                faults(after, frame, vm)
            } else {
                &&& after.frame.stack.last() matches Value::Long(result)
                &&& leaves_stack(after, frame, vm, below.push(Value::Long(result)))
                &&& a >= 0 ==> 0 <= a - result * b
                &&& a <= 0 ==> a - result * b <= 0
                &&& b > 0 ==> -b < a - result * b < b
                &&& b < 0 ==> b < a - result * b < -b
            }
        }),
{
    lemma_two_operands(frame, below, Value::Long(a), Value::Long(b));
    if b != 0 && !(a == i64::MIN && b == -1) {
        crate::instruction_laws::law_long_division(a, b);
    }
}

/// The remainder of two longs is smaller than the divisor, does not have the sign that the
/// dividend has not, and differs from the dividend by a multiple of the divisor.
pub proof fn law_long_remainder(
    floats: FloatModel,
    frame: FrameModel,
    vm: VmModel,
    below: Seq<Value>,
    a: i64,
    b: i64,
)
    requires
        frame.stack == below.push(Value::Long(a)).push(Value::Long(b)),
    ensures
        ({
            let after = executed(floats, Instruction::Lrem, frame, vm);
            if b == 0 {
                fails(after, frame, vm, VmErrorModel::ArithmeticException)
            } else if a == i64::MIN && b == -1 {
                faults(after, frame, vm)
            } else {
                &&& after.frame.stack.last() matches Value::Long(result)
                &&& leaves_stack(after, frame, vm, below.push(Value::Long(result)))
                &&& a >= 0 ==> 0 <= result
                &&& a <= 0 ==> result <= 0
                &&& b > 0 ==> -b < result < b
                &&& b < 0 ==> b < result < -b
                &&& exists|q: int| a - result == #[trigger] (q * b)
            }
        }),
{
    lemma_two_operands(frame, below, Value::Long(a), Value::Long(b));
    if b != 0 && !(a == i64::MIN && b == -1) {
        crate::instruction_laws::law_long_division(a, b);
        let q = crate::numeric::quotient(a as int, b as int);
        let r = crate::numeric::remainder(a as int, b as int);
        assert(a - r == q * b);
    }
}

/// The conjunction, the disjunction and the exclusive disjunction of two longs, bit by bit.
pub proof fn law_long_bits(
    floats: FloatModel,
    frame: FrameModel,
    vm: VmModel,
    below: Seq<Value>,
    a: i64,
    b: i64,
)
    requires
        frame.stack == below.push(Value::Long(a)).push(Value::Long(b)),
    ensures
        ({
            let after = executed(floats, Instruction::Land, frame, vm);
            &&& after.frame.stack.last() matches Value::Long(result)
            &&& leaves_stack(after, frame, vm, below.push(Value::Long(result)))
            &&& forall|i: u64|
                i < 64 ==> (#[trigger] (result >> i) & 1 == 1) == ((a >> i) & 1 == 1 && (b >> i) & 1
                    == 1)
        }),
        ({
            let after = executed(floats, Instruction::Lor, frame, vm);
            &&& after.frame.stack.last() matches Value::Long(result)
            &&& leaves_stack(after, frame, vm, below.push(Value::Long(result)))
            &&& forall|i: u64|
                i < 64 ==> (#[trigger] (result >> i) & 1 == 1) == ((a >> i) & 1 == 1 || (b >> i) & 1
                    == 1)
        }),
        ({
            let after = executed(floats, Instruction::Lxor, frame, vm);
            &&& after.frame.stack.last() matches Value::Long(result)
            &&& leaves_stack(after, frame, vm, below.push(Value::Long(result)))
            &&& forall|i: u64|
                i < 64 ==> (#[trigger] (result >> i) & 1 == 1) == ((a >> i) & 1 != (b >> i) & 1)
        }),
{
    lemma_two_operands(frame, below, Value::Long(a), Value::Long(b));
    assert(forall|i: u64|
        i < 64 ==> (#[trigger] ((a & b) >> i) & 1 == 1) == ((a >> i) & 1 == 1 && (b >> i) & 1
            == 1)) by (bit_vector);
    assert(forall|i: u64|
        i < 64 ==> (#[trigger] ((a | b) >> i) & 1 == 1) == ((a >> i) & 1 == 1 || (b >> i) & 1
            == 1)) by (bit_vector);
    assert(forall|i: u64|
        i < 64 ==> (#[trigger] ((a ^ b) >> i) & 1 == 1) == ((a >> i) & 1 != (b >> i) & 1))
        by (bit_vector);
}

/// Arithmetic on longs is refused where one of the two topmost values is missing or none.
pub proof fn law_long_arithmetic_needs_longs(
    floats: FloatModel,
    frame: FrameModel,
    vm: VmModel,
    instruction: Instruction,
)
    requires
        instruction == Instruction::Ladd || instruction == Instruction::Lsub
            || instruction == Instruction::Lmul || instruction == Instruction::Ldiv
            || instruction == Instruction::Lrem || instruction == Instruction::Land
            || instruction == Instruction::Lor || instruction == Instruction::Lxor,
        frame.stack.len() < 2 || frame.stack.last() !is Long
            || frame.stack[frame.stack.len() - 2] !is Long,
    ensures
        fails(
            executed(floats, instruction, frame, vm),
            frame,
            vm,
            VmErrorModel::ValidationException,
        ),
{
    if frame.stack.len() >= 2 {
        assert(frame.stack.drop_last().last() == frame.stack[frame.stack.len() - 2]);
    }
}

/// What the operations on longs compute, without a frame.
pub proof fn law_long_operations(a: i64, b: i64)
    ensures
        long_result(IntegerOp::Add, a, b) matches Ok(result) && (result - (a + b)) % 0x1_0000_0000_0000_0000 == 0,
        long_result(IntegerOp::Sub, a, b) matches Ok(result) && (result - (a - b)) % 0x1_0000_0000_0000_0000 == 0,
        long_result(IntegerOp::Mul, a, b) matches Ok(result) && (result - a * b) % 0x1_0000_0000_0000_0000 == 0,
        i64::MIN <= a + b <= i64::MAX ==> long_result(IntegerOp::Add, a, b) == Ok::<_, StopModel>(
            (a + b) as i64,
        ),
        i64::MIN <= a - b <= i64::MAX ==> long_result(IntegerOp::Sub, a, b) == Ok::<_, StopModel>(
            (a - b) as i64,
        ),
        i64::MIN <= a * b <= i64::MAX ==> long_result(IntegerOp::Mul, a, b) == Ok::<_, StopModel>(
            (a * b) as i64,
        ),
        long_result(IntegerOp::Div, a, b) is Err <==> b == 0 || a == i64::MIN && b == -1,
        long_result(IntegerOp::Rem, a, b) is Err <==> b == 0 || a == i64::MIN && b == -1,
{
    let product = a * b;
    assert(product == a * b);
}

/// The tests of conditional jumps are the order of the integers: the test for "less" is total,
/// irreflexive and transitive, follows the difference, and gives all the other tests.
pub proof fn law_comparisons_are_an_order(a: int, b: int, c: int)
    ensures
        comparison_holds(Comparison::Less, a, b) <==> b - a > 0,
        !comparison_holds(Comparison::Less, a, a),
        comparison_holds(Comparison::Less, a, b) && comparison_holds(Comparison::Less, b, c)
            ==> comparison_holds(Comparison::Less, a, c),
        comparison_holds(Comparison::Less, a, b) || comparison_holds(Comparison::Equal, a, b)
            || comparison_holds(Comparison::Less, b, a),
        comparison_holds(Comparison::Equal, a, b) <==> a - b == 0,
        comparison_holds(Comparison::NotEqual, a, b) <==> !comparison_holds(Comparison::Equal, a, b),
        comparison_holds(Comparison::Greater, a, b) <==> comparison_holds(Comparison::Less, b, a),
        comparison_holds(Comparison::GreaterOrEqual, a, b) <==> !comparison_holds(
            Comparison::Less,
            a,
            b,
        ),
        comparison_holds(Comparison::LessOrEqual, a, b) <==> !comparison_holds(
            Comparison::Less,
            b,
            a,
        ),
{
}

/// A conditional jump takes its integer off the stack, and goes on at its address if the integer
/// compares with zero as the jump says, and otherwise where it is.
pub proof fn law_jumps_on_one_integer(
    floats: FloatModel,
    frame: FrameModel,
    vm: VmModel,
    below: Seq<Value>,
    a: i32,
    address: u16,
)
    requires
        frame.stack == below.push(Value::Int(a)),
    ensures
        jumps(
            executed(floats, Instruction::Ifeq(address), frame, vm),
            frame,
            vm,
            below,
            a == 0,
            address,
        ),
        jumps(
            executed(floats, Instruction::Ifne(address), frame, vm),
            frame,
            vm,
            below,
            a != 0,
            address,
        ),
        jumps(
            executed(floats, Instruction::Iflt(address), frame, vm),
            frame,
            vm,
            below,
            a < 0,
            address,
        ),
        jumps(
            executed(floats, Instruction::Ifle(address), frame, vm),
            frame,
            vm,
            below,
            a <= 0,
            address,
        ),
        jumps(
            executed(floats, Instruction::Ifgt(address), frame, vm),
            frame,
            vm,
            below,
            a > 0,
            address,
        ),
        jumps(
            executed(floats, Instruction::Ifge(address), frame, vm),
            frame,
            vm,
            below,
            a >= 0,
            address,
        ),
{
    lemma_one_operand(frame, below, Value::Int(a));
}

/// A jump that compares takes two integers off the stack, and goes on at its address if the one
/// that was pushed first compares with the other as the jump says, and otherwise where it is.
pub proof fn law_jumps_on_two_integers(
    floats: FloatModel,
    frame: FrameModel,
    vm: VmModel,
    below: Seq<Value>,
    a: i32,
    b: i32,
    address: u16,
)
    requires
        frame.stack == below.push(Value::Int(a)).push(Value::Int(b)),
    ensures
        jumps(
            executed(floats, Instruction::If_icmpeq(address), frame, vm),
            frame,
            vm,
            below,
            a == b,
            address,
        ),
        jumps(
            executed(floats, Instruction::If_icmpne(address), frame, vm),
            frame,
            vm,
            below,
            a != b,
            address,
        ),
        jumps(
            executed(floats, Instruction::If_icmplt(address), frame, vm),
            frame,
            vm,
            below,
            a < b,
            address,
        ),
        jumps(
            executed(floats, Instruction::If_icmple(address), frame, vm),
            frame,
            vm,
            below,
            a <= b,
            address,
        ),
        jumps(
            executed(floats, Instruction::If_icmpgt(address), frame, vm),
            frame,
            vm,
            below,
            a > b,
            address,
        ),
        jumps(
            executed(floats, Instruction::If_icmpge(address), frame, vm),
            frame,
            vm,
            below,
            a >= b,
            address,
        ),
{
    lemma_two_operands(frame, below, Value::Int(a), Value::Int(b));
}

/// Conditional jumps are refused where an integer is missing.
pub proof fn law_jumps_need_integers(
    floats: FloatModel,
    frame: FrameModel,
    vm: VmModel,
    address: u16,
)
    ensures
        frame.stack.len() < 1 || frame.stack.last() !is Int ==> {
            &&& fails(
                executed(floats, Instruction::Ifeq(address), frame, vm),
                frame,
                vm,
                VmErrorModel::ValidationException,
            )
            &&& fails(
                executed(floats, Instruction::Ifne(address), frame, vm),
                frame,
                vm,
                VmErrorModel::ValidationException,
            )
            &&& fails(
                executed(floats, Instruction::Iflt(address), frame, vm),
                frame,
                vm,
                VmErrorModel::ValidationException,
            )
            &&& fails(
                executed(floats, Instruction::Ifle(address), frame, vm),
                frame,
                vm,
                VmErrorModel::ValidationException,
            )
            &&& fails(
                executed(floats, Instruction::Ifgt(address), frame, vm),
                frame,
                vm,
                VmErrorModel::ValidationException,
            )
            &&& fails(
                executed(floats, Instruction::Ifge(address), frame, vm),
                frame,
                vm,
                VmErrorModel::ValidationException,
            )
        },
        frame.stack.len() < 2 || frame.stack.last() !is Int || frame.stack[frame.stack.len()
            - 2] !is Int ==> {
            &&& fails(
                executed(floats, Instruction::If_icmpeq(address), frame, vm),
                frame,
                vm,
                VmErrorModel::ValidationException,
            )
            &&& fails(
                executed(floats, Instruction::If_icmpne(address), frame, vm),
                frame,
                vm,
                VmErrorModel::ValidationException,
            )
            &&& fails(
                executed(floats, Instruction::If_icmplt(address), frame, vm),
                frame,
                vm,
                VmErrorModel::ValidationException,
            )
            &&& fails(
                executed(floats, Instruction::If_icmple(address), frame, vm),
                frame,
                vm,
                VmErrorModel::ValidationException,
            )
            &&& fails(
                executed(floats, Instruction::If_icmpgt(address), frame, vm),
                frame,
                vm,
                VmErrorModel::ValidationException,
            )
            &&& fails(
                executed(floats, Instruction::If_icmpge(address), frame, vm),
                frame,
                vm,
                VmErrorModel::ValidationException,
            )
        },
{
    if frame.stack.len() >= 2 {
        assert(frame.stack.drop_last().last() == frame.stack[frame.stack.len() - 2]);
    }
}

/// Conversions of the topmost integer. To a byte, a character or a short: the one that differs
/// from the integer by a multiple of the number of those. To a long: the same number. To a
/// floating-point number: what the float unit makes of the integer.
pub proof fn law_conversions(
    floats: FloatModel,
    frame: FrameModel,
    vm: VmModel,
    below: Seq<Value>,
    value: i32,
)
    requires
        frame.stack == below.push(Value::Int(value)),
    ensures
        ({
            let after = executed(floats, Instruction::I2b, frame, vm);
            &&& after.frame.stack.last() matches Value::Int(result)
            &&& leaves_stack(after, frame, vm, below.push(Value::Int(result)))
            &&& -128 <= result <= 127
            &&& (value - result) % 256 == 0
        }),
        ({
            let after = executed(floats, Instruction::I2c, frame, vm);
            &&& after.frame.stack.last() matches Value::Int(result)
            &&& leaves_stack(after, frame, vm, below.push(Value::Int(result)))
            &&& 0 <= result <= 65535
            &&& (value - result) % 65536 == 0
        }),
        ({
            let after = executed(floats, Instruction::I2s, frame, vm);
            &&& after.frame.stack.last() matches Value::Int(result)
            &&& leaves_stack(after, frame, vm, below.push(Value::Int(result)))
            &&& -32768 <= result <= 32767
            &&& (value - result) % 65536 == 0
        }),
        ({
            let after = executed(floats, Instruction::I2l, frame, vm);
            &&& after.frame.stack.last() matches Value::Long(result)
            &&& leaves_stack(after, frame, vm, below.push(Value::Long(result)))
            &&& result - value == 0
        }),
        leaves_stack(
            executed(floats, Instruction::I2f, frame, vm),
            frame,
            vm,
            below.push(Value::Float((floats.single)(SingleMath::FromInt(value)))),
        ),
        leaves_stack(
            executed(floats, Instruction::I2d, frame, vm),
            frame,
            vm,
            below.push(Value::Double((floats.double)(DoubleMath::FromInt(value)))),
        ),
{
    lemma_one_operand(frame, below, Value::Int(value));
    assert(-128 <= (value as i8) as i32 && (value as i8) as i32 <= 127) by (bit_vector);
    assert((value - ((value as i8) as i32)) % 256 == 0) by (bit_vector);
    assert(0 <= (value as u16) as i32 && (value as u16) as i32 <= 65535) by (bit_vector);
    assert((value - ((value as u16) as i32)) % 65536 == 0) by (bit_vector);
    assert(-32768 <= (value as i16) as i32 && (value as i16) as i32 <= 32767) by (bit_vector);
    assert((value - ((value as i16) as i32)) % 65536 == 0) by (bit_vector);
}

/// Conversions are refused where there is no integer to convert.
pub proof fn law_conversions_need_an_integer(
    floats: FloatModel,
    frame: FrameModel,
    vm: VmModel,
    instruction: Instruction,
)
    requires
        instruction == Instruction::I2b || instruction == Instruction::I2c || instruction
            == Instruction::I2s || instruction == Instruction::I2l || instruction
            == Instruction::I2f || instruction == Instruction::I2d,
        frame.stack.len() < 1 || frame.stack.last() !is Int,
    ensures
        fails(
            executed(floats, instruction, frame, vm),
            frame,
            vm,
            VmErrorModel::ValidationException,
        ),
{
}

/// Sums, differences and products of single-precision numbers are what the float unit computes.
/// So are quotients and remainders, but where the quotient is not a number: there, the result of
/// both is the quiet one without sign and payload. A number has a sign bit, an exponent and a
/// fraction; it is not a number if the exponent is the greatest and the fraction is not zero.
pub proof fn law_single_arithmetic(
    floats: FloatModel,
    frame: FrameModel,
    vm: VmModel,
    below: Seq<Value>,
    a: u32,
    b: u32,
)
    requires
        frame.stack == below.push(Value::Float(a)).push(Value::Float(b)),
    ensures
        leaves_stack(
            executed(floats, Instruction::Fadd, frame, vm),
            frame,
            vm,
            below.push(Value::Float((floats.single)(SingleMath::Binary(FloatOp::Add, a, b)))),
        ),
        leaves_stack(
            executed(floats, Instruction::Fsub, frame, vm),
            frame,
            vm,
            below.push(Value::Float((floats.single)(SingleMath::Binary(FloatOp::Sub, a, b)))),
        ),
        leaves_stack(
            executed(floats, Instruction::Fmul, frame, vm),
            frame,
            vm,
            below.push(Value::Float((floats.single)(SingleMath::Binary(FloatOp::Mul, a, b)))),
        ),
        ({
            let a_is_nan = (a / 0x80_0000) % 256 == 255 && a % 0x80_0000 != 0;
            let b_is_nan = (b / 0x80_0000) % 256 == 255 && b % 0x80_0000 != 0;
            let both_infinite = (a / 0x80_0000) % 256 == 255 && a % 0x80_0000 == 0 && (b / 0x80_0000) % 256 == 255 && b % 0x80_0000 == 0;
            let both_zero = a % 0x8000_0000 == 0 && b % 0x8000_0000 == 0;
            let undefined = a_is_nan || b_is_nan || both_infinite || both_zero;
            &&& leaves_stack(
                executed(floats, Instruction::Fdiv, frame, vm),
                frame,
                vm,
                below.push(
                    Value::Float(
                        if undefined {
                            0x7fc0_0000
                        } else {
                            (floats.single)(SingleMath::Binary(FloatOp::Div, a, b))
                        },
                    ),
                ),
            )
            &&& leaves_stack(
                executed(floats, Instruction::Frem, frame, vm),
                frame,
                vm,
                below.push(
                    Value::Float(
                        if undefined {
                            0x7fc0_0000
                        } else {
                            (floats.single)(SingleMath::Binary(FloatOp::Rem, a, b))
                        },
                    ),
                ),
            )
        }),
{
    lemma_two_operands(frame, below, Value::Float(a), Value::Float(b));
    assert(forall|x: u32|
        (#[trigger] (x & 0x7fff_ffff) > 0x7f80_0000) == ((x / 0x80_0000) % 256 == 255 && x % 0x80_0000
            != 0)) by (bit_vector);
    assert(forall|x: u32|
        (#[trigger] (x & 0x7fff_ffff) == 0x7f80_0000) == ((x / 0x80_0000) % 256 == 255 && x % 0x80_0000
            == 0)) by (bit_vector);
    assert(forall|x: u32| (#[trigger] (x & 0x7fff_ffff) == 0) == (x % 0x8000_0000 == 0)) by (bit_vector);
}

/// Arithmetic on single-precision numbers is refused where one of the two topmost values is missing
/// or none.
pub proof fn law_single_arithmetic_needs_numbers(
    floats: FloatModel,
    frame: FrameModel,
    vm: VmModel,
    instruction: Instruction,
)
    requires
        instruction == Instruction::Fadd || instruction == Instruction::Fsub
            || instruction == Instruction::Fmul || instruction == Instruction::Fdiv
            || instruction == Instruction::Frem,
        frame.stack.len() < 2 || frame.stack.last() !is Float
            || frame.stack[frame.stack.len() - 2] !is Float,
    ensures
        fails(
            executed(floats, instruction, frame, vm),
            frame,
            vm,
            VmErrorModel::ValidationException,
        ),
{
    if frame.stack.len() >= 2 {
        assert(frame.stack.drop_last().last() == frame.stack[frame.stack.len() - 2]);
    }
}

/// Sums, differences and products of double-precision numbers are what the float unit computes.
/// So are quotients and remainders, but where the quotient is not a number: there, the result of
/// both is the quiet one without sign and payload. A number has a sign bit, an exponent and a
/// fraction; it is not a number if the exponent is the greatest and the fraction is not zero.
pub proof fn law_double_arithmetic(
    floats: FloatModel,
    frame: FrameModel,
    vm: VmModel,
    below: Seq<Value>,
    a: u64,
    b: u64,
)
    requires
        frame.stack == below.push(Value::Double(a)).push(Value::Double(b)),
    ensures
        leaves_stack(
            executed(floats, Instruction::Dadd, frame, vm),
            frame,
            vm,
            below.push(Value::Double((floats.double)(DoubleMath::Binary(FloatOp::Add, a, b)))),
        ),
        leaves_stack(
            executed(floats, Instruction::Dsub, frame, vm),
            frame,
            vm,
            below.push(Value::Double((floats.double)(DoubleMath::Binary(FloatOp::Sub, a, b)))),
        ),
        leaves_stack(
            executed(floats, Instruction::Dmul, frame, vm),
            frame,
            vm,
            below.push(Value::Double((floats.double)(DoubleMath::Binary(FloatOp::Mul, a, b)))),
        ),
        ({
            let a_is_nan = (a / 0x10_0000_0000_0000) % 2048 == 2047 && a % 0x10_0000_0000_0000 != 0;
            let b_is_nan = (b / 0x10_0000_0000_0000) % 2048 == 2047 && b % 0x10_0000_0000_0000 != 0;
            let both_infinite = (a / 0x10_0000_0000_0000) % 2048 == 2047 && a % 0x10_0000_0000_0000 == 0 && (b / 0x10_0000_0000_0000) % 2048 == 2047 && b % 0x10_0000_0000_0000 == 0;
            let both_zero = a % 0x8000_0000_0000_0000 == 0 && b % 0x8000_0000_0000_0000 == 0;
            let undefined = a_is_nan || b_is_nan || both_infinite || both_zero;
            &&& leaves_stack(
                executed(floats, Instruction::Ddiv, frame, vm),
                frame,
                vm,
                below.push(
                    Value::Double(
                        if undefined {
                            0x7ff8_0000_0000_0000
                        } else {
                            (floats.double)(DoubleMath::Binary(FloatOp::Div, a, b))
                        },
                    ),
                ),
            )
            &&& leaves_stack(
                executed(floats, Instruction::Drem, frame, vm),
                frame,
                vm,
                below.push(
                    Value::Double(
                        if undefined {
                            0x7ff8_0000_0000_0000
                        } else {
                            (floats.double)(DoubleMath::Binary(FloatOp::Rem, a, b))
                        },
                    ),
                ),
            )
        }),
{
    lemma_two_operands(frame, below, Value::Double(a), Value::Double(b));
    assert(forall|x: u64|
        (#[trigger] (x & 0x7fff_ffff_ffff_ffff) > 0x7ff0_0000_0000_0000) == ((x / 0x10_0000_0000_0000) % 2048 == 2047 && x % 0x10_0000_0000_0000
            != 0)) by (bit_vector);
    assert(forall|x: u64|
        (#[trigger] (x & 0x7fff_ffff_ffff_ffff) == 0x7ff0_0000_0000_0000) == ((x / 0x10_0000_0000_0000) % 2048 == 2047 && x % 0x10_0000_0000_0000
            == 0)) by (bit_vector);
    assert(forall|x: u64| (#[trigger] (x & 0x7fff_ffff_ffff_ffff) == 0) == (x % 0x8000_0000_0000_0000 == 0)) by (bit_vector);
}

/// Arithmetic on double-precision numbers is refused where one of the two topmost values is missing
/// or none.
pub proof fn law_double_arithmetic_needs_numbers(
    floats: FloatModel,
    frame: FrameModel,
    vm: VmModel,
    instruction: Instruction,
)
    requires
        instruction == Instruction::Dadd || instruction == Instruction::Dsub
            || instruction == Instruction::Dmul || instruction == Instruction::Ddiv
            || instruction == Instruction::Drem,
        frame.stack.len() < 2 || frame.stack.last() !is Double
            || frame.stack[frame.stack.len() - 2] !is Double,
    ensures
        fails(
            executed(floats, instruction, frame, vm),
            frame,
            vm,
            VmErrorModel::ValidationException,
        ),
{
    if frame.stack.len() >= 2 {
        assert(frame.stack.drop_last().last() == frame.stack[frame.stack.len() - 2]);
    }
}

/// What the model of a float unit gives is what the unit answers.
pub proof fn law_float_model_is_the_unit<S: Fn(SingleMath) -> u32, D: Fn(DoubleMath) -> u64>(
    unit: &FloatUnit<S, D>,
    single: SingleMath,
    single_bits: u32,
    double: DoubleMath,
    double_bits: u64,
)
    requires
        unit.is_functional(),
    ensures
        call_ensures(unit.single, (single,), single_bits) ==> (unit.model().single)(single)
            == single_bits,
        call_ensures(unit.double, (double,), double_bits) ==> (unit.model().double)(double)
            == double_bits,
{
}

/// After a conditional jump the stack is what was below the operands, and the frame goes on at
/// the address if the test holds and where it is if not.
pub open spec fn jumps(
    after: crate::semantics::Step,
    frame: FrameModel,
    vm: VmModel,
    below: Seq<Value>,
    holds: bool,
    address: u16,
) -> bool {
    leaves_stack(
        after,
        FrameModel {
            pc: if holds {
                address as usize
            } else {
                frame.pc
            },
            ..frame
        },
        vm,
        below,
    )
}

} // verus!
