//! What instructions do with the operand stack, the locals and the constants.

use crate::class_file::ConstantPoolEntry;
use crate::field_type::{BaseType, FieldType};
use crate::float::FloatModel;
use crate::instruction::{Instruction, InvokeKind};
use crate::semantics::{step, Flow, FrameModel, Step, VmModel};
use crate::value::Value;
use crate::vm_error::{StopModel, VmErrorModel};
use vstd::prelude::*;

verus! {

/// What an instruction does.
pub open spec fn executed(
    floats: FloatModel,
    instruction: Instruction,
    frame: FrameModel,
    vm: VmModel,
) -> Step {
    step(floats, instruction.spec_operation(), frame, vm)
}

/// The frame goes on with this stack; nothing else of it has changed, and nothing of the machine.
pub open spec fn leaves_stack(
    after: Step,
    frame: FrameModel,
    vm: VmModel,
    stack: Seq<Value>,
) -> bool {
    &&& after.flow == Ok::<Flow, StopModel>(Flow::Next)
    &&& after.frame.class_and_method == frame.class_and_method
    &&& after.frame.code == frame.code
    &&& after.frame.pc == frame.pc
    &&& after.frame.locals == frame.locals
    &&& after.frame.stack == stack
    &&& after.vm == vm
}

/// The frame has at most lost operands, and the machine is as it was.
pub open spec fn only_pops(after: Step, frame: FrameModel, vm: VmModel) -> bool {
    &&& after.frame.class_and_method == frame.class_and_method
    &&& after.frame.code == frame.code
    &&& after.frame.pc == frame.pc
    &&& after.frame.locals == frame.locals
    &&& after.frame.stack.len() <= frame.stack.len()
    &&& forall|i: int|
        0 <= i < after.frame.stack.len() ==> #[trigger] after.frame.stack[i] == frame.stack[i]
    &&& after.vm == vm
}

/// The instruction ends the call with this error. It may have taken operands, but changed nothing
/// else.
pub open spec fn fails(
    after: Step,
    frame: FrameModel,
    vm: VmModel,
    error: VmErrorModel,
) -> bool {
    &&& after.flow == Err::<Flow, StopModel>(StopModel::Error(error))
    &&& only_pops(after, frame, vm)
}

/// The instruction leaves the machine without a way to go on. It may have taken operands, but
/// changed nothing else.
pub open spec fn faults(after: Step, frame: FrameModel, vm: VmModel) -> bool {
    &&& after.flow == Err::<Flow, StopModel>(StopModel::Fault)
    &&& only_pops(after, frame, vm)
}

/// The instructions that push a number push that number. The bits of floating-point numbers are
/// made of an exponent and a fraction: the exponent of one is 127, or 1023 in double
/// precision, that of two is one more, and all bits of zero are zero.
pub proof fn law_pushed_numbers(floats: FloatModel, frame: FrameModel, vm: VmModel, number: i16)
    ensures
        leaves_stack(
            executed(floats, Instruction::Aconst_null, frame, vm),
            frame,
            vm,
            frame.stack.push(Value::Null),
        ),
        leaves_stack(
            executed(floats, Instruction::Iconst_0, frame, vm),
            frame,
            vm,
            frame.stack.push(Value::Int(0)),
        ),
        leaves_stack(
            executed(floats, Instruction::Iconst_1, frame, vm),
            frame,
            vm,
            frame.stack.push(Value::Int(1)),
        ),
        leaves_stack(
            executed(floats, Instruction::Iconst_2, frame, vm),
            frame,
            vm,
            frame.stack.push(Value::Int(2)),
        ),
        leaves_stack(
            executed(floats, Instruction::Iconst_3, frame, vm),
            frame,
            vm,
            frame.stack.push(Value::Int(3)),
        ),
        leaves_stack(
            executed(floats, Instruction::Iconst_4, frame, vm),
            frame,
            vm,
            frame.stack.push(Value::Int(4)),
        ),
        leaves_stack(
            executed(floats, Instruction::Iconst_5, frame, vm),
            frame,
            vm,
            frame.stack.push(Value::Int(5)),
        ),
        leaves_stack(
            executed(floats, Instruction::Lconst_0, frame, vm),
            frame,
            vm,
            frame.stack.push(Value::Long(0)),
        ),
        leaves_stack(
            executed(floats, Instruction::Lconst_1, frame, vm),
            frame,
            vm,
            frame.stack.push(Value::Long(1)),
        ),
        ({
            let after = executed(floats, Instruction::Iconst_m1, frame, vm);
            &&& after.frame.stack.last() matches Value::Int(value)
            &&& leaves_stack(after, frame, vm, frame.stack.push(Value::Int(value)))
            &&& value + 1 == 0
        }),
        ({
            let after = executed(floats, Instruction::Fconst_0, frame, vm);
            &&& after.frame.stack.last() matches Value::Float(bits)
            &&& leaves_stack(after, frame, vm, frame.stack.push(Value::Float(bits)))
            &&& bits == 0
        }),
        ({
            let after = executed(floats, Instruction::Fconst_1, frame, vm);
            &&& after.frame.stack.last() matches Value::Float(bits)
            &&& leaves_stack(after, frame, vm, frame.stack.push(Value::Float(bits)))
            &&& bits == 127 * 0x80_0000
        }),
        ({
            let after = executed(floats, Instruction::Fconst_2, frame, vm);
            &&& after.frame.stack.last() matches Value::Float(bits)
            &&& leaves_stack(after, frame, vm, frame.stack.push(Value::Float(bits)))
            &&& bits == 128 * 0x80_0000
        }),
        ({
            let after = executed(floats, Instruction::Dconst_0, frame, vm);
            &&& after.frame.stack.last() matches Value::Double(bits)
            &&& leaves_stack(after, frame, vm, frame.stack.push(Value::Double(bits)))
            &&& bits == 0
        }),
        ({
            let after = executed(floats, Instruction::Dconst_1, frame, vm);
            &&& after.frame.stack.last() matches Value::Double(bits)
            &&& leaves_stack(after, frame, vm, frame.stack.push(Value::Double(bits)))
            &&& bits == 1023 * 0x10_0000_0000_0000
        }),
        ({
            let after = executed(floats, Instruction::Bipush(number), frame, vm);
            &&& after.frame.stack.last() matches Value::Int(value)
            &&& leaves_stack(after, frame, vm, frame.stack.push(Value::Int(value)))
            &&& value - number == 0
        }),
{
}

/// Loads of references push the value of the local, which must be one, and change nothing else.
/// The short forms are loads of the first four locals.
pub proof fn law_reference_loads(floats: FloatModel, frame: FrameModel, vm: VmModel, index: u8)
    ensures
        if index < frame.locals.len() && (frame.locals[index as int] is Object
            || frame.locals[index as int] is Array) {
            leaves_stack(
                executed(floats, Instruction::Aload(index), frame, vm),
                frame,
                vm,
                frame.stack.push(frame.locals[index as int]),
            )
        } else {
            fails(
                executed(floats, Instruction::Aload(index), frame, vm),
                frame,
                vm,
                VmErrorModel::ValidationException,
            )
        },
        executed(floats, Instruction::Aload_0, frame, vm) == executed(
            floats,
            Instruction::Aload(0),
            frame,
            vm,
        ),
        executed(floats, Instruction::Aload_1, frame, vm) == executed(
            floats,
            Instruction::Aload(1),
            frame,
            vm,
        ),
        executed(floats, Instruction::Aload_2, frame, vm) == executed(
            floats,
            Instruction::Aload(2),
            frame,
            vm,
        ),
        executed(floats, Instruction::Aload_3, frame, vm) == executed(
            floats,
            Instruction::Aload(3),
            frame,
            vm,
        ),
{
}

/// Stores of references take the topmost value, which must be one, off the stack and make it the
/// value of the local. The other locals stay as they are. The short forms are stores to the first
/// four locals. The machine has no way to go on where there is no such local.
pub proof fn law_reference_stores(floats: FloatModel, frame: FrameModel, vm: VmModel, index: u8)
    ensures
        ({
            let after = executed(floats, Instruction::Astore(index), frame, vm);
            if frame.stack.len() < 1 || !((frame.stack.last() is Object
                || frame.stack.last() is Array)) {
                fails(after, frame, vm, VmErrorModel::ValidationException)
            } else if index >= frame.locals.len() {
                faults(after, frame, vm)
            } else {
                stores(after, frame, vm, index as int, frame.stack.last(), frame.stack.drop_last())
            }
        }),
        executed(floats, Instruction::Astore_0, frame, vm) == executed(
            floats,
            Instruction::Astore(0),
            frame,
            vm,
        ),
        executed(floats, Instruction::Astore_1, frame, vm) == executed(
            floats,
            Instruction::Astore(1),
            frame,
            vm,
        ),
        executed(floats, Instruction::Astore_2, frame, vm) == executed(
            floats,
            Instruction::Astore(2),
            frame,
            vm,
        ),
        executed(floats, Instruction::Astore_3, frame, vm) == executed(
            floats,
            Instruction::Astore(3),
            frame,
            vm,
        ),
{
}

/// Loads of integers push the value of the local, which must be one, and change nothing else.
/// The short forms are loads of the first four locals.
pub proof fn law_int_loads(floats: FloatModel, frame: FrameModel, vm: VmModel, index: u8)
    ensures
        if index < frame.locals.len() && frame.locals[index as int] is Int {
            leaves_stack(
                executed(floats, Instruction::Iload(index), frame, vm),
                frame,
                vm,
                frame.stack.push(frame.locals[index as int]),
            )
        } else {
            fails(
                executed(floats, Instruction::Iload(index), frame, vm),
                frame,
                vm,
                VmErrorModel::ValidationException,
            )
        },
        executed(floats, Instruction::Iload_0, frame, vm) == executed(
            floats,
            Instruction::Iload(0),
            frame,
            vm,
        ),
        executed(floats, Instruction::Iload_1, frame, vm) == executed(
            floats,
            Instruction::Iload(1),
            frame,
            vm,
        ),
        executed(floats, Instruction::Iload_2, frame, vm) == executed(
            floats,
            Instruction::Iload(2),
            frame,
            vm,
        ),
        executed(floats, Instruction::Iload_3, frame, vm) == executed(
            floats,
            Instruction::Iload(3),
            frame,
            vm,
        ),
{
}

/// Stores of integers take the topmost value, which must be one, off the stack and make it the
/// value of the local. The other locals stay as they are. The short forms are stores to the first
/// four locals. The machine has no way to go on where there is no such local.
pub proof fn law_int_stores(floats: FloatModel, frame: FrameModel, vm: VmModel, index: u8)
    ensures
        ({
            let after = executed(floats, Instruction::Istore(index), frame, vm);
            if frame.stack.len() < 1 || !(frame.stack.last() is Int) {
                fails(after, frame, vm, VmErrorModel::ValidationException)
            } else if index >= frame.locals.len() {
                faults(after, frame, vm)
            } else {
                stores(after, frame, vm, index as int, frame.stack.last(), frame.stack.drop_last())
            }
        }),
        executed(floats, Instruction::Istore_0, frame, vm) == executed(
            floats,
            Instruction::Istore(0),
            frame,
            vm,
        ),
        executed(floats, Instruction::Istore_1, frame, vm) == executed(
            floats,
            Instruction::Istore(1),
            frame,
            vm,
        ),
        executed(floats, Instruction::Istore_2, frame, vm) == executed(
            floats,
            Instruction::Istore(2),
            frame,
            vm,
        ),
        executed(floats, Instruction::Istore_3, frame, vm) == executed(
            floats,
            Instruction::Istore(3),
            frame,
            vm,
        ),
{
}

/// Loads of longs push the value of the local, which must be one, and change nothing else.
/// The short forms are loads of the first four locals.
pub proof fn law_long_loads(floats: FloatModel, frame: FrameModel, vm: VmModel, index: u8)
    ensures
        if index < frame.locals.len() && frame.locals[index as int] is Long {
            leaves_stack(
                executed(floats, Instruction::Lload(index), frame, vm),
                frame,
                vm,
                frame.stack.push(frame.locals[index as int]),
            )
        } else {
            fails(
                executed(floats, Instruction::Lload(index), frame, vm),
                frame,
                vm,
                VmErrorModel::ValidationException,
            )
        },
        executed(floats, Instruction::Lload_0, frame, vm) == executed(
            floats,
            Instruction::Lload(0),
            frame,
            vm,
        ),
        executed(floats, Instruction::Lload_1, frame, vm) == executed(
            floats,
            Instruction::Lload(1),
            frame,
            vm,
        ),
        executed(floats, Instruction::Lload_2, frame, vm) == executed(
            floats,
            Instruction::Lload(2),
            frame,
            vm,
        ),
        executed(floats, Instruction::Lload_3, frame, vm) == executed(
            floats,
            Instruction::Lload(3),
            frame,
            vm,
        ),
{
}

/// Stores of longs take the topmost value, which must be one, off the stack and make it the
/// value of the local. The other locals stay as they are. The short forms are stores to the first
/// four locals. The machine has no way to go on where there is no such local.
pub proof fn law_long_stores(floats: FloatModel, frame: FrameModel, vm: VmModel, index: u8)
    ensures
        ({
            let after = executed(floats, Instruction::Lstore(index), frame, vm);
            if frame.stack.len() < 1 || !(frame.stack.last() is Long) {
                fails(after, frame, vm, VmErrorModel::ValidationException)
            } else if index >= frame.locals.len() {
                faults(after, frame, vm)
            } else {
                stores(after, frame, vm, index as int, frame.stack.last(), frame.stack.drop_last())
            }
        }),
        executed(floats, Instruction::Lstore_0, frame, vm) == executed(
            floats,
            Instruction::Lstore(0),
            frame,
            vm,
        ),
        executed(floats, Instruction::Lstore_1, frame, vm) == executed(
            floats,
            Instruction::Lstore(1),
            frame,
            vm,
        ),
        executed(floats, Instruction::Lstore_2, frame, vm) == executed(
            floats,
            Instruction::Lstore(2),
            frame,
            vm,
        ),
        executed(floats, Instruction::Lstore_3, frame, vm) == executed(
            floats,
            Instruction::Lstore(3),
            frame,
            vm,
        ),
{
}

/// Loads of single-precision numbers push the value of the local, which must be one, and change nothing else.
/// The short forms are loads of the first four locals.
pub proof fn law_float_loads(floats: FloatModel, frame: FrameModel, vm: VmModel, index: u8)
    ensures
        if index < frame.locals.len() && frame.locals[index as int] is Float {
            leaves_stack(
                executed(floats, Instruction::Fload(index), frame, vm),
                frame,
                vm,
                frame.stack.push(frame.locals[index as int]),
            )
        } else {
            fails(
                executed(floats, Instruction::Fload(index), frame, vm),
                frame,
                vm,
                VmErrorModel::ValidationException,
            )
        },
        executed(floats, Instruction::Fload_0, frame, vm) == executed(
            floats,
            Instruction::Fload(0),
            frame,
            vm,
        ),
        executed(floats, Instruction::Fload_1, frame, vm) == executed(
            floats,
            Instruction::Fload(1),
            frame,
            vm,
        ),
        executed(floats, Instruction::Fload_2, frame, vm) == executed(
            floats,
            Instruction::Fload(2),
            frame,
            vm,
        ),
        executed(floats, Instruction::Fload_3, frame, vm) == executed(
            floats,
            Instruction::Fload(3),
            frame,
            vm,
        ),
{
}

/// Stores of single-precision numbers take the topmost value, which must be one, off the stack and make it the
/// value of the local. The other locals stay as they are. The short forms are stores to the first
/// four locals. The machine has no way to go on where there is no such local.
pub proof fn law_float_stores(floats: FloatModel, frame: FrameModel, vm: VmModel, index: u8)
    ensures
        ({
            let after = executed(floats, Instruction::Fstore(index), frame, vm);
            if frame.stack.len() < 1 || !(frame.stack.last() is Float) {
                fails(after, frame, vm, VmErrorModel::ValidationException)
            } else if index >= frame.locals.len() {
                faults(after, frame, vm)
            } else {
                stores(after, frame, vm, index as int, frame.stack.last(), frame.stack.drop_last())
            }
        }),
        executed(floats, Instruction::Fstore_0, frame, vm) == executed(
            floats,
            Instruction::Fstore(0),
            frame,
            vm,
        ),
        executed(floats, Instruction::Fstore_1, frame, vm) == executed(
            floats,
            Instruction::Fstore(1),
            frame,
            vm,
        ),
        executed(floats, Instruction::Fstore_2, frame, vm) == executed(
            floats,
            Instruction::Fstore(2),
            frame,
            vm,
        ),
        executed(floats, Instruction::Fstore_3, frame, vm) == executed(
            floats,
            Instruction::Fstore(3),
            frame,
            vm,
        ),
{
}

/// Loads of double-precision numbers push the value of the local, which must be one, and change nothing else.
/// The short forms are loads of the first four locals.
pub proof fn law_double_loads(floats: FloatModel, frame: FrameModel, vm: VmModel, index: u8)
    ensures
        if index < frame.locals.len() && frame.locals[index as int] is Double {
            leaves_stack(
                executed(floats, Instruction::Dload(index), frame, vm),
                frame,
                vm,
                frame.stack.push(frame.locals[index as int]),
            )
        } else {
            fails(
                executed(floats, Instruction::Dload(index), frame, vm),
                frame,
                vm,
                VmErrorModel::ValidationException,
            )
        },
        executed(floats, Instruction::Dload_0, frame, vm) == executed(
            floats,
            Instruction::Dload(0),
            frame,
            vm,
        ),
        executed(floats, Instruction::Dload_1, frame, vm) == executed(
            floats,
            Instruction::Dload(1),
            frame,
            vm,
        ),
        executed(floats, Instruction::Dload_2, frame, vm) == executed(
            floats,
            Instruction::Dload(2),
            frame,
            vm,
        ),
        executed(floats, Instruction::Dload_3, frame, vm) == executed(
            floats,
            Instruction::Dload(3),
            frame,
            vm,
        ),
{
}

/// Stores of double-precision numbers take the topmost value, which must be one, off the stack and make it the
/// value of the local. The other locals stay as they are. The short forms are stores to the first
/// four locals. The machine has no way to go on where there is no such local.
pub proof fn law_double_stores(floats: FloatModel, frame: FrameModel, vm: VmModel, index: u8)
    ensures
        ({
            let after = executed(floats, Instruction::Dstore(index), frame, vm);
            if frame.stack.len() < 1 || !(frame.stack.last() is Double) {
                fails(after, frame, vm, VmErrorModel::ValidationException)
            } else if index >= frame.locals.len() {
                faults(after, frame, vm)
            } else {
                stores(after, frame, vm, index as int, frame.stack.last(), frame.stack.drop_last())
            }
        }),
        executed(floats, Instruction::Dstore_0, frame, vm) == executed(
            floats,
            Instruction::Dstore(0),
            frame,
            vm,
        ),
        executed(floats, Instruction::Dstore_1, frame, vm) == executed(
            floats,
            Instruction::Dstore(1),
            frame,
            vm,
        ),
        executed(floats, Instruction::Dstore_2, frame, vm) == executed(
            floats,
            Instruction::Dstore(2),
            frame,
            vm,
        ),
        executed(floats, Instruction::Dstore_3, frame, vm) == executed(
            floats,
            Instruction::Dstore(3),
            frame,
            vm,
        ),
{
}

/// The frame goes on with this value in a local and with this stack; nothing else of it has
/// changed, and nothing of the machine.
pub open spec fn stores(
    after: Step,
    frame: FrameModel,
    vm: VmModel,
    index: int,
    value: Value,
    stack: Seq<Value>,
) -> bool {
    &&& after.flow == Ok::<Flow, StopModel>(Flow::Next)
    &&& after.frame.class_and_method == frame.class_and_method
    &&& after.frame.code == frame.code
    &&& after.frame.pc == frame.pc
    &&& after.frame.locals.len() == frame.locals.len()
    &&& after.frame.locals[index] == value
    &&& forall|other: int|
        0 <= other < frame.locals.len() && other != index ==> #[trigger] after.frame.locals[other]
            == frame.locals[other]
    &&& after.frame.stack == stack
    &&& after.vm == vm
}

/// An increment adds its number to an integer local, and the sum is exact where it is a 32-bit
/// integer, and otherwise differs by a multiple of 2 to the power of 32. Nothing else changes.
pub proof fn law_increment(
    floats: FloatModel,
    frame: FrameModel,
    vm: VmModel,
    index: u8,
    number: i16,
)
    ensures
        ({
            let after = executed(floats, Instruction::Iinc(index, number), frame, vm);
            if index < frame.locals.len() && frame.locals[index as int] is Int {
                let before = frame.locals[index as int]->Int_0;
                &&& after.frame.locals[index as int] matches Value::Int(sum)
                &&& stores(after, frame, vm, index as int, Value::Int(sum), frame.stack)
                &&& (sum - (before + number)) % 0x1_0000_0000 == 0
                &&& i32::MIN <= before + number <= i32::MAX ==> sum == before + number
            } else {
                fails(after, frame, vm, VmErrorModel::ValidationException)
            }
        }),
{
}

/// Loads from the constant pool push the number that the pool holds at the index: the narrow ones
/// an integer or a single-precision number, the wide ones a long or a double-precision number.
/// Nothing else can be loaded. The index of the short form is the same number as in the long one.
pub proof fn law_constant_loads(
    floats: FloatModel,
    frame: FrameModel,
    vm: VmModel,
    index: u16,
    short: u8,
)
    ensures
        ({
            let entries = frame.class_and_method.class.constants.entries@;
            let narrow = executed(floats, Instruction::Ldc_w(index), frame, vm);
            let wide = executed(floats, Instruction::Ldc2_w(index), frame, vm);
            if index >= entries.len() || entries[index as int] is None {
                &&& fails(narrow, frame, vm, VmErrorModel::ValidationException)
                &&& fails(wide, frame, vm, VmErrorModel::ValidationException)
            } else {
                match entries[index as int]->0 {
                    ConstantPoolEntry::Integer(value) => {
                        &&& leaves_stack(narrow, frame, vm, frame.stack.push(Value::Int(value)))
                        &&& fails(wide, frame, vm, VmErrorModel::ValidationException)
                    },
                    ConstantPoolEntry::Float(bits) => {
                        &&& leaves_stack(narrow, frame, vm, frame.stack.push(Value::Float(bits)))
                        &&& fails(wide, frame, vm, VmErrorModel::ValidationException)
                    },
                    ConstantPoolEntry::Long(value) => {
                        &&& leaves_stack(wide, frame, vm, frame.stack.push(Value::Long(value)))
                        &&& fails(narrow, frame, vm, VmErrorModel::ValidationException)
                    },
                    ConstantPoolEntry::Double(bits) => {
                        &&& leaves_stack(wide, frame, vm, frame.stack.push(Value::Double(bits)))
                        &&& fails(narrow, frame, vm, VmErrorModel::ValidationException)
                    },
                    _ => {
                        &&& fails(narrow, frame, vm, VmErrorModel::ValidationException)
                        &&& fails(wide, frame, vm, VmErrorModel::ValidationException)
                    },
                }
            }
        }),
        short == index ==> executed(floats, Instruction::Ldc(short), frame, vm) == executed(
            floats,
            Instruction::Ldc_w(index),
            frame,
            vm,
        ),
{
}

/// Repeating the topmost value, of whatever kind it is, leaves the stack as it was with that value
/// once more on top. Dropping it leaves what was below it. Both need a value.
pub proof fn law_dup_and_pop(floats: FloatModel, frame: FrameModel, vm: VmModel)
    ensures
        ({
            let after = executed(floats, Instruction::Dup, frame, vm);
            if frame.stack.len() == 0 {
                fails(after, frame, vm, VmErrorModel::ValidationException)
            } else {
                &&& leaves_stack(after, frame, vm, frame.stack.push(frame.stack.last()))
                &&& after.frame.stack.len() == frame.stack.len() + 1
                &&& after.frame.stack[after.frame.stack.len() - 1] == after.frame.stack[
                after.frame.stack.len() - 2]
                &&& forall|i: int|
                    0 <= i < frame.stack.len() ==> #[trigger] after.frame.stack[i]
                        == frame.stack[i]
            }
        }),
        ({
            let after = executed(floats, Instruction::Pop, frame, vm);
            if frame.stack.len() == 0 {
                fails(after, frame, vm, VmErrorModel::ValidationException)
            } else {
                &&& leaves_stack(after, frame, vm, frame.stack.drop_last())
                &&& after.frame.stack.push(frame.stack.last()) == frame.stack
            }
        }),
{
    if frame.stack.len() > 0 {
        assert(frame.stack.drop_last().push(frame.stack.last()) == frame.stack);
    }
}

/// A jump goes on at its address and changes nothing else.
pub proof fn law_goto(floats: FloatModel, frame: FrameModel, vm: VmModel, address: u16)
    ensures
        leaves_stack(
            executed(floats, Instruction::Goto(address), frame, vm),
            FrameModel { pc: address as usize, ..frame },
            vm,
            frame.stack,
        ),
{
}

/// A return without a result ends the calls of methods without a result. A return of an integer
/// ends the calls of methods whose result is an integer, with the topmost value. Other methods
/// cannot be left in these ways.
pub proof fn law_returns(floats: FloatModel, frame: FrameModel, vm: VmModel)
    ensures
        ({
            let after = executed(floats, Instruction::Return, frame, vm);
            if frame.class_and_method.method.return_type is None {
                &&& after.flow == Ok::<Flow, StopModel>(Flow::Return(None))
                &&& after.frame == frame
                &&& after.vm == vm
            } else {
                fails(after, frame, vm, VmErrorModel::ValidationException)
            }
        }),
        ({
            let after = executed(floats, Instruction::Ireturn, frame, vm);
            if frame.stack.len() > 0 && (frame.class_and_method.method.return_type matches Some(
                FieldType::Base(BaseType::Int),
            )) {
                &&& after.flow == Ok::<Flow, StopModel>(Flow::Return(Some(frame.stack.last())))
                &&& after.frame == FrameModel { stack: frame.stack.drop_last(), ..frame }
                &&& after.vm == vm
            } else {
                fails(after, frame, vm, VmErrorModel::ValidationException)
            }
        }),
{
}

/// The instructions that call a method leave the call to be made: the one on a receiver whose
/// class does not matter, the one without a receiver, and the one that the class of the receiver
/// decides. An instruction that is not supported is refused.
pub proof fn law_call_instructions(
    floats: FloatModel,
    frame: FrameModel,
    vm: VmModel,
    index: u16,
)
    ensures
        executed(floats, Instruction::Invokespecial(index), frame, vm) == (Step {
            frame,
            vm,
            flow: Ok(Flow::Invoke(InvokeKind::Special, index)),
        }),
        executed(floats, Instruction::Invokestatic(index), frame, vm) == (Step {
            frame,
            vm,
            flow: Ok(Flow::Invoke(InvokeKind::Static, index)),
        }),
        executed(floats, Instruction::Invokevirtual(index), frame, vm) == (Step {
            frame,
            vm,
            flow: Ok(Flow::Invoke(InvokeKind::Virtual, index)),
        }),
        fails(
            executed(floats, Instruction::Unsupported, frame, vm),
            frame,
            vm,
            VmErrorModel::NotImplemented,
        ),
{
}

} // verus!
