//! What programs mean: the effect of each operation on a frame and on the machine, and the run
//! of a method as the iteration of these effects.

use crate::class::{class_field, Class, ClassAndMethod, ClassRef};
use crate::class_file::{ClassFileMethod, ConstantPoolEntry};
use crate::class_loader::{class_named, class_with_id};
use crate::field_type::{BaseType, FieldTypeModel};
use crate::float::{
    double_result,
    single_result,
    DoubleMath,
    FloatModel,
    FloatOp,
    SingleMath,
    DOUBLE_ZERO,
    SINGLE_ZERO,
};
use crate::heap::HeapModel;
use crate::instruction::{
    ArrayKind,
    Coercion,
    ComputeOperation,
    DataOperation,
    DecodedCode,
    HeapOperation,
    InvokeKind,
    NewArrayType,
    Operation,
    ValueKind,
};
use crate::numeric::{comparison_holds, int_result, long_result, Comparison, IntegerOp};
use crate::text::decimal;
use crate::value::{fits_type, is_of_kind, ArrayRef, ObjectRef, Value};
use crate::vm_error::{invalid, StopModel, VmErrorModel};
use vstd::prelude::*;

verus! {

/// The state of a method call: where it is in its code, its locals and its operand stack.
#[verifier::ext_equal]
pub struct FrameModel {
    pub class_and_method: ClassAndMethod,
    pub code: DecodedCode,
    pub pc: usize,
    pub locals: Seq<Value>,
    pub stack: Seq<Value>,
}

/// The state of the machine that all calls share.
#[verifier::ext_equal]
pub struct VmModel {
    /// The classes in the order of their creation.
    pub allocated: Seq<ClassRef>,
    /// The classes in the order of their registration.
    pub classes: Seq<ClassRef>,
    pub heap: HeapModel,
    /// The values that were printed.
    pub printed: Seq<Value>,
}

/// Where a call goes on after an operation.
#[derive(Clone, Copy, Debug, PartialEq, Eq, Structural)]
pub enum Flow {
    /// With the instruction at the current address.
    Next,
    /// It ends, with this result.
    Return(Option<Value>),
    /// With the call of the method that a constant names.
    Invoke(InvokeKind, u16),
}

/// The effect of an operation.
pub struct Step {
    pub frame: FrameModel,
    pub vm: VmModel,
    pub flow: Result<Flow, StopModel>,
}

/// The end of a run.
pub struct Run {
    pub frame: FrameModel,
    pub vm: VmModel,
    /// The frames of the calls that the frame made, directly or not, and that have not ended: the
    /// outermost first. They are above the frame on the stack.
    pub calls: Seq<FrameModel>,
    pub result: Result<Option<Value>, StopModel>,
}

/// The end of the call of a method.
pub struct Invocation {
    pub vm: VmModel,
    /// The frames that the call leaves on the stack: none if it ended, and otherwise its own and
    /// those of the calls that it made.
    pub calls: Seq<FrameModel>,
    pub result: Result<Option<Value>, StopModel>,
}

/// The end of the call that an instruction of a frame makes.
pub struct CallEffect {
    pub frame: FrameModel,
    pub vm: VmModel,
    /// The frames that the call leaves above the frame on the stack.
    pub calls: Seq<FrameModel>,
    pub result: Result<(), StopModel>,
}

/// A call that is about to be made: the method, the receiver, the arguments, and the height of
/// the caller's operand stack without them.
pub struct Call {
    pub class_and_method: ClassAndMethod,
    pub receiver: Option<ObjectRef>,
    pub arguments: Seq<Value>,
    pub height: nat,
}

impl VmModel {
    /// Whether a value can be held where a type is expected.
    pub open spec fn fits(self, value: Value, expected: FieldTypeModel) -> bool {
        fits_type(value, expected, self.classes, self.heap)
    }

    /// Whether a method with results of this type, or with none, may give this result.
    pub open spec fn result_fits(
        self,
        expected: Option<FieldTypeModel>,
        result: Option<Value>,
    ) -> bool {
        match (expected, result) {
            (None, None) => true,
            (Some(expected), Some(value)) => self.fits(value, expected),
            _ => false,
        }
    }
}

/// The value that an integer is converted to: the low 8, 16 or 16 bits with or without sign, the
/// same number as a long, or the floating-point number nearest to it.
pub open spec fn coerced(floats: FloatModel, coercion: Coercion, value: i32) -> Value {
    match coercion {
        Coercion::Byte => Value::Int((value as i8) as i32),
        Coercion::Char => Value::Int((value as u16) as i32),
        Coercion::Short => Value::Int((value as i16) as i32),
        Coercion::Float => Value::Float((floats.single)(SingleMath::FromInt(value))),
        Coercion::Long => Value::Long(value as i64),
        Coercion::Double => Value::Double((floats.double)(DoubleMath::FromInt(value))),
    }
}

/// The element type that a primitive array is created with.
pub open spec fn primitive_type(array_type: NewArrayType) -> BaseType {
    match array_type {
        NewArrayType::Boolean => BaseType::Boolean,
        NewArrayType::Char => BaseType::Char,
        NewArrayType::Float => BaseType::Float,
        NewArrayType::Double => BaseType::Double,
        NewArrayType::Byte => BaseType::Byte,
        NewArrayType::Short => BaseType::Short,
        NewArrayType::Int => BaseType::Int,
        NewArrayType::Long => BaseType::Long,
    }
}

/// The value that the elements of a primitive array start with: zero.
pub open spec fn default_value(array_type: NewArrayType) -> Value {
    match array_type {
        NewArrayType::Float => Value::Float(SINGLE_ZERO),
        NewArrayType::Double => Value::Double(DOUBLE_ZERO),
        NewArrayType::Long => Value::Long(0),
        _ => Value::Int(0),
    }
}

/// Whether an array instruction applies to arrays of an element type.
pub open spec fn holds_kind(element_type: FieldTypeModel, kind: ArrayKind) -> bool {
    match kind {
        ArrayKind::Byte => element_type == FieldTypeModel::Base(BaseType::Byte) || element_type
            == FieldTypeModel::Base(BaseType::Boolean),
        ArrayKind::Char => element_type == FieldTypeModel::Base(BaseType::Char),
        ArrayKind::Short => element_type == FieldTypeModel::Base(BaseType::Short),
        ArrayKind::Int => element_type == FieldTypeModel::Base(BaseType::Int),
        ArrayKind::Long => element_type == FieldTypeModel::Base(BaseType::Long),
        ArrayKind::Float => element_type == FieldTypeModel::Base(BaseType::Float),
        ArrayKind::Double => element_type == FieldTypeModel::Base(BaseType::Double),
        ArrayKind::Object => element_type is Object,
    }
}

impl FrameModel {
    /// The frame with a value on top of its stack.
    pub open spec fn push(self, value: Value) -> FrameModel {
        FrameModel { stack: self.stack.push(value), ..self }
    }

    /// Takes the topmost value off the stack.
    pub open spec fn pop(self) -> (FrameModel, Result<Value, StopModel>) {
        if self.stack.len() == 0 {
            (self, invalid())
        } else {
            (FrameModel { stack: self.stack.drop_last(), ..self }, Ok(self.stack.last()))
        }
    }

    /// Takes the topmost value off the stack; it must be an integer.
    pub open spec fn pop_int(self) -> (FrameModel, Result<i32, StopModel>) {
        match self.pop() {
            (rest, Ok(Value::Int(value))) => (rest, Ok(value)),
            (rest, _) => (rest, invalid()),
        }
    }

    /// Takes the topmost value off the stack; it must be a long.
    pub open spec fn pop_long(self) -> (FrameModel, Result<i64, StopModel>) {
        match self.pop() {
            (rest, Ok(Value::Long(value))) => (rest, Ok(value)),
            (rest, _) => (rest, invalid()),
        }
    }

    /// Takes the topmost value off the stack; it must be a single-precision number.
    pub open spec fn pop_float(self) -> (FrameModel, Result<u32, StopModel>) {
        match self.pop() {
            (rest, Ok(Value::Float(bits))) => (rest, Ok(bits)),
            (rest, _) => (rest, invalid()),
        }
    }

    /// Takes the topmost value off the stack; it must be a double-precision number.
    pub open spec fn pop_double(self) -> (FrameModel, Result<u64, StopModel>) {
        match self.pop() {
            (rest, Ok(Value::Double(bits))) => (rest, Ok(bits)),
            (rest, _) => (rest, invalid()),
        }
    }

    /// Takes the topmost value off the stack; it must be an object.
    pub open spec fn pop_object(self) -> (FrameModel, Result<ObjectRef, StopModel>) {
        match self.pop() {
            (rest, Ok(Value::Object(object))) => (rest, Ok(object)),
            (rest, _) => (rest, invalid()),
        }
    }

    /// Takes the topmost value off the stack; it must be an array.
    pub open spec fn pop_array(self) -> (FrameModel, Result<ArrayRef, StopModel>) {
        match self.pop() {
            (rest, Ok(Value::Array(array))) => (rest, Ok(array)),
            (rest, _) => (rest, invalid()),
        }
    }

    /// Pushes the value of a local, which must be of a kind.
    pub open spec fn load(self, kind: ValueKind, index: usize) -> (
        FrameModel,
        Result<(), StopModel>,
    ) {
        if index < self.locals.len() && is_of_kind(self.locals[index as int], kind) {
            (self.push(self.locals[index as int]), Ok(()))
        } else {
            (self, invalid())
        }
    }

    /// Moves the topmost value, which must be of a kind, to a local.
    pub open spec fn store(self, kind: ValueKind, index: usize) -> (
        FrameModel,
        Result<(), StopModel>,
    ) {
        match self.pop() {
            (rest, Err(stop)) => (rest, Err(stop)),
            (rest, Ok(value)) => if !is_of_kind(value, kind) {
                (rest, invalid())
            } else if index >= rest.locals.len() {
                (rest, Err(StopModel::Fault))
            } else {
                (FrameModel { locals: rest.locals.update(index as int, value), ..rest }, Ok(()))
            },
        }
    }

    /// Pushes an integer or a single-precision number of the constant pool.
    pub open spec fn load_constant(self, index: u16) -> (FrameModel, Result<(), StopModel>) {
        match self.class_and_method.class.constants.at(index) {
            Some(ConstantPoolEntry::Integer(value)) => (self.push(Value::Int(value)), Ok(())),
            Some(ConstantPoolEntry::Float(bits)) => (self.push(Value::Float(bits)), Ok(())),
            _ => (self, invalid()),
        }
    }

    /// Pushes a long or a double-precision number of the constant pool.
    pub open spec fn load_wide_constant(self, index: u16) -> (FrameModel, Result<(), StopModel>) {
        match self.class_and_method.class.constants.at(index) {
            Some(ConstantPoolEntry::Long(value)) => (self.push(Value::Long(value)), Ok(())),
            Some(ConstantPoolEntry::Double(bits)) => (self.push(Value::Double(bits)), Ok(())),
            _ => (self, invalid()),
        }
    }

    /// Converts the topmost integer.
    pub open spec fn coerce(self, floats: FloatModel, coercion: Coercion) -> (
        FrameModel,
        Result<(), StopModel>,
    ) {
        match self.pop_int() {
            (rest, Err(stop)) => (rest, Err(stop)),
            (rest, Ok(value)) => (rest.push(coerced(floats, coercion, value)), Ok(())),
        }
    }

    /// Repeats the topmost value.
    pub open spec fn dup(self) -> (FrameModel, Result<(), StopModel>) {
        if self.stack.len() == 0 {
            (self, invalid())
        } else {
            (self.push(self.stack.last()), Ok(()))
        }
    }

    /// Drops the topmost value.
    pub open spec fn drop_top(self) -> (FrameModel, Result<(), StopModel>) {
        match self.pop() {
            (rest, Err(stop)) => (rest, Err(stop)),
            (rest, Ok(_)) => (rest, Ok(())),
        }
    }

    /// Replaces the two topmost integers by the result of an operation on them.
    pub open spec fn int_math(self, op: IntegerOp) -> (FrameModel, Result<(), StopModel>) {
        match self.pop_int() {
            (rest, Err(stop)) => (rest, Err(stop)),
            (rest, Ok(b)) => match rest.pop_int() {
                (rest, Err(stop)) => (rest, Err(stop)),
                (rest, Ok(a)) => match int_result(op, a, b) {
                    Err(stop) => (rest, Err(stop)),
                    Ok(value) => (rest.push(Value::Int(value)), Ok(())),
                },
            },
        }
    }

    /// Replaces the two topmost longs by the result of an operation on them.
    pub open spec fn long_math(self, op: IntegerOp) -> (FrameModel, Result<(), StopModel>) {
        match self.pop_long() {
            (rest, Err(stop)) => (rest, Err(stop)),
            (rest, Ok(b)) => match rest.pop_long() {
                (rest, Err(stop)) => (rest, Err(stop)),
                (rest, Ok(a)) => match long_result(op, a, b) {
                    Err(stop) => (rest, Err(stop)),
                    Ok(value) => (rest.push(Value::Long(value)), Ok(())),
                },
            },
        }
    }

    /// Replaces the two topmost single-precision numbers by the result of an operation on them.
    pub open spec fn float_math(self, floats: FloatModel, op: FloatOp) -> (
        FrameModel,
        Result<(), StopModel>,
    ) {
        match self.pop_float() {
            (rest, Err(stop)) => (rest, Err(stop)),
            (rest, Ok(b)) => match rest.pop_float() {
                (rest, Err(stop)) => (rest, Err(stop)),
                (rest, Ok(a)) => (
                    rest.push(Value::Float(single_result(floats, op, a, b))),
                    Ok(()),
                ),
            },
        }
    }

    /// Replaces the two topmost double-precision numbers by the result of an operation on them.
    pub open spec fn double_math(self, floats: FloatModel, op: FloatOp) -> (
        FrameModel,
        Result<(), StopModel>,
    ) {
        match self.pop_double() {
            (rest, Err(stop)) => (rest, Err(stop)),
            (rest, Ok(b)) => match rest.pop_double() {
                (rest, Err(stop)) => (rest, Err(stop)),
                (rest, Ok(a)) => (
                    rest.push(Value::Double(double_result(floats, op, a, b))),
                    Ok(()),
                ),
            },
        }
    }

    /// Adds a constant to an integer local. The sum wraps around at 32 bits.
    pub open spec fn increment(self, index: usize, constant: i32) -> (
        FrameModel,
        Result<(), StopModel>,
    ) {
        if index < self.locals.len() {
            match self.locals[index as int] {
                Value::Int(value) => (
                    FrameModel {
                        locals: self.locals.update(
                            index as int,
                            Value::Int(value.wrapping_add(constant)),
                        ),
                        ..self
                    },
                    Ok(()),
                ),
                _ => (self, invalid()),
            }
        } else {
            (self, invalid())
        }
    }

    /// Goes on at an address.
    pub open spec fn goto(self, address: u16) -> FrameModel {
        FrameModel { pc: address as usize, ..self }
    }

    /// Goes on at an address if the topmost integer compares with zero in a way.
    pub open spec fn goto_if(self, comparison: Comparison, address: u16) -> (
        FrameModel,
        Result<(), StopModel>,
    ) {
        match self.pop_int() {
            (rest, Err(stop)) => (rest, Err(stop)),
            (rest, Ok(value)) => if comparison_holds(comparison, value as int, 0) {
                (rest.goto(address), Ok(()))
            } else {
                (rest, Ok(()))
            },
        }
    }

    /// Goes on at an address if the two topmost integers compare in a way.
    pub open spec fn goto_if_ints(self, comparison: Comparison, address: u16) -> (
        FrameModel,
        Result<(), StopModel>,
    ) {
        match self.pop_int() {
            (rest, Err(stop)) => (rest, Err(stop)),
            (rest, Ok(b)) => match rest.pop_int() {
                (rest, Err(stop)) => (rest, Err(stop)),
                (rest, Ok(a)) => if comparison_holds(comparison, a as int, b as int) {
                    (rest.goto(address), Ok(()))
                } else {
                    (rest, Ok(()))
                },
            },
        }
    }

    /// Ends the call of a method without results.
    pub open spec fn return_void(self) -> (FrameModel, Result<Option<Value>, StopModel>) {
        if self.class_and_method.method.result_type() is None {
            (self, Ok(None))
        } else {
            (self, invalid())
        }
    }

    /// Ends the call of a method whose results are integers with the topmost value.
    pub open spec fn return_int(self) -> (FrameModel, Result<Option<Value>, StopModel>) {
        if self.class_and_method.method.result_type() == Some(FieldTypeModel::Base(BaseType::Int)) {
            match self.pop() {
                (rest, Err(stop)) => (rest, Err(stop)),
                (rest, Ok(value)) => (rest, Ok(Some(value))),
            }
        } else {
            (self, invalid())
        }
    }

    /// The field that a constant names, as the class of the frame's method sees it: its position
    /// in an instance and its type.
    pub open spec fn field(self, index: u16) -> Result<(usize, FieldTypeModel), StopModel> {
        let class = self.class_and_method.class;
        match class.constants.field_reference(index) {
            None => invalid(),
            Some(reference) => match class_field(*class, reference.class_name, reference.name) {
                None => Err(
                    StopModel::Error(
                        VmErrorModel::FieldNotFoundException(reference.class_name, reference.name),
                    ),
                ),
                Some((position, field)) => Ok((position, field.type_descriptor@)),
            },
        }
    }

    /// Replaces the topmost object by the value of its field that a constant names.
    pub open spec fn get_field(self, vm: VmModel, index: u16) -> (
        FrameModel,
        Result<(), StopModel>,
    ) {
        match self.field(index) {
            Err(stop) => (self, Err(stop)),
            Ok((position, field_type)) => match self.pop_object() {
                (rest, Err(stop)) => (rest, Err(stop)),
                (rest, Ok(object)) => if !vm.heap.has_field(object, position) {
                    (rest, Err(StopModel::Fault))
                } else if !vm.fits(vm.heap.field(object, position), field_type) {
                    (rest, invalid())
                } else {
                    (rest.push(vm.heap.field(object, position)), Ok(()))
                },
            },
        }
    }

    /// Gives the field that a constant names, of the object below the topmost value, that value.
    pub open spec fn put_field(self, vm: VmModel, index: u16) -> (
        FrameModel,
        VmModel,
        Result<(), StopModel>,
    ) {
        match self.field(index) {
            Err(stop) => (self, vm, Err(stop)),
            Ok((position, field_type)) => match self.pop() {
                (rest, Err(stop)) => (rest, vm, Err(stop)),
                (rest, Ok(value)) => if !vm.fits(value, field_type) {
                    (rest, vm, invalid())
                } else {
                    match rest.pop_object() {
                        (rest, Err(stop)) => (rest, vm, Err(stop)),
                        (rest, Ok(object)) => if !vm.heap.has_field(object, position) {
                            (rest, vm, Err(StopModel::Fault))
                        } else {
                            (
                                rest,
                                VmModel {
                                    heap: vm.heap.with_field(object, position, value),
                                    ..vm
                                },
                                Ok(()),
                            )
                        },
                    }
                },
            },
        }
    }

    /// Pushes a new object of the class that a constant names.
    pub open spec fn new_object(self, vm: VmModel, index: u16) -> (
        FrameModel,
        VmModel,
        Result<(), StopModel>,
    ) {
        match self.class_and_method.class.constants.class_reference(index) {
            None => (self, vm, invalid()),
            Some(name) => match create_object(vm, name) {
                (vm, Err(error)) => (self, vm, Err(StopModel::Error(error))),
                (vm, Ok(object)) => (self.push(Value::Object(object)), vm, Ok(())),
            },
        }
    }

    /// Replaces the topmost integer by a new array of that length.
    pub open spec fn new_array(self, vm: VmModel, array_type: NewArrayType) -> (
        FrameModel,
        VmModel,
        Result<(), StopModel>,
    ) {
        match self.pop_int() {
            (rest, Err(stop)) => (rest, vm, Err(stop)),
            (rest, Ok(length)) => if length < 0 {
                (rest, vm, Err(StopModel::Fault))
            } else {
                (
                    rest.push(Value::Array(vm.heap.next_array())),
                    VmModel {
                        heap: vm.heap.with_array(
                            FieldTypeModel::Base(primitive_type(array_type)),
                            default_value(array_type),
                            length as nat,
                        ),
                        ..vm
                    },
                    Ok(()),
                )
            },
        }
    }

    /// Replaces the topmost integer by a new array of that length for objects of the class that
    /// a constant names.
    pub open spec fn new_object_array(self, vm: VmModel, index: u16) -> (
        FrameModel,
        VmModel,
        Result<(), StopModel>,
    ) {
        match self.pop_int() {
            (rest, Err(stop)) => (rest, vm, Err(stop)),
            (rest, Ok(length)) => match self.class_and_method.class.constants.class_reference(
                index,
            ) {
                None => (rest, vm, invalid()),
                Some(name) => if length < 0 {
                    (rest, vm, Err(StopModel::Fault))
                } else {
                    (
                        rest.push(Value::Array(vm.heap.next_array())),
                        VmModel {
                            heap: vm.heap.with_array(
                                FieldTypeModel::Object(name),
                                Value::Null,
                                length as nat,
                            ),
                            ..vm
                        },
                        Ok(()),
                    )
                },
            },
        }
    }

    /// Replaces the topmost array by its length.
    pub open spec fn array_length(self, vm: VmModel) -> (FrameModel, Result<(), StopModel>) {
        match self.pop_array() {
            (rest, Err(stop)) => (rest, Err(stop)),
            (rest, Ok(array)) => if !vm.heap.has_array(array) {
                (rest, Err(StopModel::Fault))
            } else {
                (
                    rest.push(Value::Int(vm.heap.array(array).elements.len() as i32)),
                    Ok(()),
                )
            },
        }
    }

    /// Replaces the topmost integer and the array below it by the element at that position.
    pub open spec fn array_load(self, vm: VmModel, kind: ArrayKind) -> (
        FrameModel,
        Result<(), StopModel>,
    ) {
        match self.pop_int() {
            (rest, Err(stop)) => (rest, Err(stop)),
            (rest, Ok(index)) => match rest.pop_array() {
                (rest, Err(stop)) => (rest, Err(stop)),
                (rest, Ok(array)) => if !vm.heap.has_array(array) {
                    (rest, Err(StopModel::Fault))
                } else if !holds_kind(vm.heap.array(array).element_type, kind) {
                    (rest, invalid())
                } else if 0 <= index < vm.heap.array(array).elements.len() {
                    (rest.push(vm.heap.array(array).elements[index as int]), Ok(()))
                } else {
                    (rest, Err(StopModel::Error(VmErrorModel::ArrayIndexOutOfBoundsException)))
                },
            },
        }
    }

    /// Takes the value that is to be stored in an array off the stack.
    pub open spec fn pop_element(self, kind: ArrayKind) -> (
        FrameModel,
        Result<Value, StopModel>,
    ) {
        match kind {
            ArrayKind::Byte => match self.pop_int() {
                (rest, Err(stop)) => (rest, Err(stop)),
                (rest, Ok(value)) => (rest, Ok(Value::Int((value as i8) as i32))),
            },
            ArrayKind::Char => match self.pop_int() {
                (rest, Err(stop)) => (rest, Err(stop)),
                (rest, Ok(value)) => (rest, Ok(Value::Int((value as u16) as i32))),
            },
            ArrayKind::Short => match self.pop_int() {
                (rest, Err(stop)) => (rest, Err(stop)),
                (rest, Ok(value)) => (rest, Ok(Value::Int((value as i16) as i32))),
            },
            ArrayKind::Int => match self.pop_int() {
                (rest, Err(stop)) => (rest, Err(stop)),
                (rest, Ok(value)) => (rest, Ok(Value::Int(value))),
            },
            ArrayKind::Long => match self.pop_long() {
                (rest, Err(stop)) => (rest, Err(stop)),
                (rest, Ok(value)) => (rest, Ok(Value::Long(value))),
            },
            ArrayKind::Float => match self.pop_float() {
                (rest, Err(stop)) => (rest, Err(stop)),
                (rest, Ok(bits)) => (rest, Ok(Value::Float(bits))),
            },
            ArrayKind::Double => match self.pop_double() {
                (rest, Err(stop)) => (rest, Err(stop)),
                (rest, Ok(bits)) => (rest, Ok(Value::Double(bits))),
            },
            ArrayKind::Object => match self.pop_object() {
                (rest, Err(stop)) => (rest, Err(stop)),
                (rest, Ok(object)) => (rest, Ok(Value::Object(object))),
            },
        }
    }

    /// Takes a value, an integer and an array off the stack, and makes the value the element of
    /// the array at that position. Bytes, characters and shorts are cut to size. An object must
    /// fit the element type.
    pub open spec fn array_store(self, vm: VmModel, kind: ArrayKind) -> (
        FrameModel,
        VmModel,
        Result<(), StopModel>,
    ) {
        match self.pop_element(kind) {
            (rest, Err(stop)) => (rest, vm, Err(stop)),
            (rest, Ok(value)) => match rest.pop_int() {
                (rest, Err(stop)) => (rest, vm, Err(stop)),
                (rest, Ok(index)) => match rest.pop_array() {
                    (rest, Err(stop)) => (rest, vm, Err(stop)),
                    (rest, Ok(array)) => if !vm.heap.has_array(array) {
                        (rest, vm, Err(StopModel::Fault))
                    } else if !holds_kind(vm.heap.array(array).element_type, kind) {
                        (rest, vm, invalid())
                    } else if kind == ArrayKind::Object && !vm.fits(
                        value,
                        vm.heap.array(array).element_type,
                    ) {
                        (rest, vm, invalid())
                    } else if 0 <= index < vm.heap.array(array).elements.len() {
                        (
                            rest,
                            VmModel {
                                heap: vm.heap.with_element(array, index as int, value),
                                ..vm
                            },
                            Ok(()),
                        )
                    } else {
                        (
                            rest,
                            vm,
                            Err(StopModel::Error(VmErrorModel::ArrayIndexOutOfBoundsException)),
                        )
                    },
                },
            },
        }
    }
}

/// Creates an object of the class of a name.
pub open spec fn create_object(vm: VmModel, name: Seq<char>) -> (
    VmModel,
    Result<ObjectRef, VmErrorModel>,
) {
    match class_named(vm.classes, name) {
        None => (vm, Err(VmErrorModel::ClassNotFoundException(name))),
        Some(class) => (
            VmModel { heap: vm.heap.with_object(*class), ..vm },
            Ok(vm.heap.next_object(*class)),
        ),
    }
}

/// An effect on the frame alone, as one on the frame and the machine.
pub open spec fn with_vm(vm: VmModel, effect: (FrameModel, Result<(), StopModel>)) -> (
    FrameModel,
    VmModel,
    Result<(), StopModel>,
) {
    (effect.0, vm, effect.1)
}

/// An effect, as a step that goes on with the next instruction.
pub open spec fn next_step(effect: (FrameModel, VmModel, Result<(), StopModel>)) -> Step {
    Step {
        frame: effect.0,
        vm: effect.1,
        flow: match effect.2 {
            Ok(_) => Ok(Flow::Next),
            Err(stop) => Err(stop),
        },
    }
}

/// The end of a call, as a step.
pub open spec fn return_step(
    vm: VmModel,
    effect: (FrameModel, Result<Option<Value>, StopModel>),
) -> Step {
    Step {
        frame: effect.0,
        vm,
        flow: match effect.1 {
            Ok(result) => Ok(Flow::Return(result)),
            Err(stop) => Err(stop),
        },
    }
}

/// The effect of an operation that moves values.
pub open spec fn data_effect(operation: DataOperation, frame: FrameModel) -> (
    FrameModel,
    Result<(), StopModel>,
) {
    match operation {
        DataOperation::Push(value) => (frame.push(value), Ok(())),
        DataOperation::Load(kind, index) => frame.load(kind, index),
        DataOperation::Store(kind, index) => frame.store(kind, index),
        DataOperation::LoadConstant(index) => frame.load_constant(index),
        DataOperation::LoadWideConstant(index) => frame.load_wide_constant(index),
        DataOperation::Dup => frame.dup(),
        DataOperation::Pop => frame.drop_top(),
        DataOperation::Increment(index, constant) => frame.increment(index, constant),
    }
}

/// The effect of an operation that computes or jumps.
pub open spec fn compute_effect(
    floats: FloatModel,
    operation: ComputeOperation,
    frame: FrameModel,
) -> (FrameModel, Result<(), StopModel>) {
    match operation {
        ComputeOperation::Coerce(coercion) => frame.coerce(floats, coercion),
        ComputeOperation::IntMath(op) => frame.int_math(op),
        ComputeOperation::LongMath(op) => frame.long_math(op),
        ComputeOperation::FloatMath(op) => frame.float_math(floats, op),
        ComputeOperation::DoubleMath(op) => frame.double_math(floats, op),
        ComputeOperation::Goto(address) => (frame.goto(address), Ok(())),
        ComputeOperation::If(comparison, address) => frame.goto_if(comparison, address),
        ComputeOperation::IfInts(comparison, address) => frame.goto_if_ints(comparison, address),
    }
}

/// The effect of an operation on objects and arrays.
pub open spec fn heap_effect(operation: HeapOperation, frame: FrameModel, vm: VmModel) -> (
    FrameModel,
    VmModel,
    Result<(), StopModel>,
) {
    match operation {
        HeapOperation::New(index) => frame.new_object(vm, index),
        HeapOperation::PutField(index) => frame.put_field(vm, index),
        HeapOperation::GetField(index) => with_vm(vm, frame.get_field(vm, index)),
        HeapOperation::NewArray(array_type) => frame.new_array(vm, array_type),
        HeapOperation::NewObjectArray(index) => frame.new_object_array(vm, index),
        HeapOperation::ArrayLength => with_vm(vm, frame.array_length(vm)),
        HeapOperation::ArrayLoad(kind) => with_vm(vm, frame.array_load(vm, kind)),
        HeapOperation::ArrayStore(kind) => frame.array_store(vm, kind),
    }
}

/// The effect of an operation. A call is left to be made.
pub open spec fn step(
    floats: FloatModel,
    operation: Operation,
    frame: FrameModel,
    vm: VmModel,
) -> Step {
    match operation {
        Operation::Data(operation) => next_step(with_vm(vm, data_effect(operation, frame))),
        Operation::Compute(operation) => next_step(
            with_vm(vm, compute_effect(floats, operation, frame)),
        ),
        Operation::Heap(operation) => next_step(heap_effect(operation, frame, vm)),
        Operation::Invoke(kind, index) => Step { frame, vm, flow: Ok(Flow::Invoke(kind, index)) },
        Operation::Return => return_step(vm, frame.return_void()),
        Operation::ReturnInt => return_step(vm, frame.return_int()),
        Operation::Unsupported => Step {
            frame,
            vm,
            flow: Err(StopModel::Error(VmErrorModel::NotImplemented)),
        },
    }
}

/// The error of a method that a class does not have.
pub open spec fn method_not_found<T>(
    class: Class,
    name: Seq<char>,
    type_descriptor: Seq<char>,
) -> Result<T, StopModel> {
    Err(
        StopModel::Error(
            VmErrorModel::MethodNotFoundException(class.name@, name, type_descriptor),
        ),
    )
}

/// The method that a class itself declares.
pub open spec fn declared_method(
    class: ClassRef,
    name: Seq<char>,
    type_descriptor: Seq<char>,
) -> Result<ClassAndMethod, StopModel> {
    match class.method(name, type_descriptor) {
        Some(method) => Ok(ClassAndMethod { class, method }),
        None => method_not_found(*class, name, type_descriptor),
    }
}

/// The method that a class declares, or that its superclass does. A class without a superclass
/// does not have a method that it does not declare; a class whose superclass does not declare
/// the method either leaves the machine without a way to go on.
pub open spec fn inherited_method(
    class: ClassRef,
    name: Seq<char>,
    type_descriptor: Seq<char>,
) -> Result<ClassAndMethod, StopModel> {
    match class.method(name, type_descriptor) {
        Some(method) => Ok(ClassAndMethod { class, method }),
        None => match class.superclass {
            None => method_not_found(*class, name, type_descriptor),
            Some(superclass) => match superclass.method(name, type_descriptor) {
                Some(method) => Ok(ClassAndMethod { class: superclass, method }),
                None => Err(StopModel::Fault),
            },
        },
    }
}

/// The method that a constant of the frame's class names.
pub open spec fn named_method(
    frame: FrameModel,
    vm: VmModel,
    kind: InvokeKind,
    index: u16,
) -> Result<ClassAndMethod, StopModel> {
    match frame.class_and_method.class.constants.method_reference(index) {
        None => invalid(),
        Some(reference) => match class_named(vm.classes, reference.class_name) {
            None => Err(
                StopModel::Error(VmErrorModel::ClassNotFoundException(reference.class_name)),
            ),
            Some(class) => match kind {
                InvokeKind::Virtual => inherited_method(
                    class,
                    reference.name,
                    reference.type_descriptor,
                ),
                _ => declared_method(class, reference.name, reference.type_descriptor),
            },
        },
    }
}

/// The class of an identifier.
pub open spec fn identified_class(vm: VmModel, id: crate::class::ClassId) -> Result<
    ClassRef,
    VmErrorModel,
> {
    match class_with_id(vm.classes, id) {
        Some(class) => Ok(class),
        None => Err(VmErrorModel::ClassNotFoundException(decimal(id.0 as nat))),
    }
}

/// The method that the class of a receiver has in place of a method.
pub open spec fn virtual_method(
    vm: VmModel,
    receiver: Option<ObjectRef>,
    method: ClassFileMethod,
) -> Result<ClassAndMethod, StopModel> {
    match receiver {
        None => invalid(),
        Some(object) => match identified_class(vm, object.class_id) {
            Err(error) => Err(StopModel::Error(error)),
            Ok(class) => inherited_method(class, method.name@, method.type_descriptor@),
        },
    }
}

/// The receiver and the arguments of a call of a method, on top of the caller's stack, and the
/// height of the stack without them.
pub open spec fn receiver_and_arguments(frame: FrameModel, method: ClassFileMethod) -> Result<
    (Option<ObjectRef>, Seq<Value>, nat),
    StopModel,
> {
    let arguments = method.parameters@.len();
    let receivers: nat = if method.flags.is_static {
        0
    } else {
        1
    };
    if frame.stack.len() < receivers + arguments {
        invalid()
    } else {
        let height = (frame.stack.len() - arguments - receivers) as nat;
        let values = frame.stack.skip((height + receivers) as int);
        if method.flags.is_static {
            Ok((None, values, height))
        } else {
            match frame.stack[height as int] {
                Value::Object(object) => Ok((Some(object), values, height)),
                _ => invalid(),
            }
        }
    }
}

/// The call that an instruction of a frame makes.
pub open spec fn prepared_call(
    frame: FrameModel,
    vm: VmModel,
    kind: InvokeKind,
    index: u16,
) -> Result<Call, StopModel> {
    match named_method(frame, vm, kind, index) {
        Err(stop) => Err(stop),
        Ok(named) => match receiver_and_arguments(frame, *named.method) {
            Err(stop) => Err(stop),
            Ok((receiver, arguments, height)) => match kind {
                InvokeKind::Virtual => match virtual_method(vm, receiver, *named.method) {
                    Err(stop) => Err(stop),
                    Ok(class_and_method) => Ok(
                        Call { class_and_method, receiver, arguments, height },
                    ),
                },
                _ => Ok(Call { class_and_method: named, receiver, arguments, height }),
            },
        },
    }
}

/// The locals that a call starts with: the receiver, the arguments, and as many values that are
/// not initialized as there are locals left.
pub open spec fn initial_locals(
    receiver: Option<ObjectRef>,
    arguments: Seq<Value>,
    max_locals: nat,
) -> Seq<Value> {
    let given = match receiver {
        Some(object) => seq![Value::Object(object)] + arguments,
        None => arguments,
    };
    if given.len() < max_locals {
        given + Seq::new((max_locals - given.len()) as nat, |i: int| Value::Uninitialized)
    } else {
        given
    }
}

/// The frame that the call of a method starts with. Static methods have no receiver, others need
/// one. Native methods have no frame, and a method without code cannot be entered.
pub open spec fn initial_frame(
    class_and_method: ClassAndMethod,
    receiver: Option<ObjectRef>,
    arguments: Seq<Value>,
) -> Result<FrameModel, StopModel> {
    let method = class_and_method.method;
    if method.flags.is_static && receiver is Some {
        invalid()
    } else if !method.flags.is_static && receiver is None {
        Err(StopModel::Error(VmErrorModel::NullPointerException))
    } else if method.flags.is_native {
        Err(StopModel::Error(VmErrorModel::NotImplemented))
    } else {
        match method.code {
            None => Err(StopModel::Fault),
            Some(code) => Ok(
                FrameModel {
                    class_and_method,
                    code: *code.code,
                    pc: 0,
                    locals: initial_locals(receiver, arguments, code.max_locals as nat),
                    stack: Seq::empty(),
                },
            ),
        }
    }
}

/// The name that the classes of the runtime library start with.
pub open spec fn runtime_prefix() -> Seq<char> {
    "rjvm/"@
}

/// The name of the method that prints a value.
pub open spec fn print_name() -> Seq<char> {
    "tempPrint"@
}

/// The effect of the call of a native method. The only one there is prints its first argument.
pub open spec fn native_call(
    vm: VmModel,
    class_and_method: ClassAndMethod,
    arguments: Seq<Value>,
) -> (VmModel, Result<Option<Value>, VmErrorModel>) {
    if runtime_prefix().is_prefix_of(class_and_method.class.name@)
        && class_and_method.method.name@ == print_name() {
        if arguments.len() == 0 {
            (vm, Err(VmErrorModel::ValidationException))
        } else {
            (VmModel { printed: vm.printed.push(arguments[0]), ..vm }, Ok(None))
        }
    } else {
        (vm, Err(VmErrorModel::NotImplemented))
    }
}

/// Whether a run comes to an end: to a result, or to an error of the program.
pub open spec fn ends(result: Result<Option<Value>, StopModel>) -> bool {
    match result {
        Ok(_) => true,
        Err(StopModel::Error(_)) => true,
        Err(_) => false,
    }
}

/// The effect of running a frame from its current address to the end of the call. Each
/// instruction takes one unit of the budget from those that follow it and from the calls that it
/// makes.
pub open spec fn run(floats: FloatModel, budget: nat, frame: FrameModel, vm: VmModel) -> Run
    decreases budget, 0nat,
{
    if budget == 0 {
        Run { frame, vm, calls: Seq::empty(), result: Err(StopModel::OutOfBudget) }
    } else {
        match frame.code.at(frame.pc as int) {
            None => Run { frame, vm, calls: Seq::empty(), result: invalid() },
            Some((instruction, next)) => {
                let after = step(
                    floats,
                    instruction.spec_operation(),
                    FrameModel { pc: next, ..frame },
                    vm,
                );
                match after.flow {
                    Err(stop) => Run {
                        frame: after.frame,
                        vm: after.vm,
                        calls: Seq::empty(),
                        result: Err(stop),
                    },
                    Ok(Flow::Return(value)) => Run {
                        frame: after.frame,
                        vm: after.vm,
                        calls: Seq::empty(),
                        result: Ok(value),
                    },
                    Ok(Flow::Next) => run(floats, (budget - 1) as nat, after.frame, after.vm),
                    Ok(Flow::Invoke(kind, index)) => {
                        let called = call_method(
                            floats,
                            (budget - 1) as nat,
                            after.frame,
                            after.vm,
                            kind,
                            index,
                        );
                        match called.result {
                            Err(stop) => Run {
                                frame: called.frame,
                                vm: called.vm,
                                calls: called.calls,
                                result: Err(stop),
                            },
                            Ok(_) => run(floats, (budget - 1) as nat, called.frame, called.vm),
                        }
                    },
                }
            },
        }
    }
}

/// The effect of calling a method. The frame of the call is on the stack until the call has come
/// to an end.
pub open spec fn invoke(
    floats: FloatModel,
    budget: nat,
    vm: VmModel,
    class_and_method: ClassAndMethod,
    receiver: Option<ObjectRef>,
    arguments: Seq<Value>,
) -> Invocation
    decreases budget, 1nat,
{
    if class_and_method.method.flags.is_native {
        match native_call(vm, class_and_method, arguments) {
            (vm, Ok(result)) => Invocation { vm, calls: Seq::empty(), result: Ok(result) },
            (vm, Err(error)) => Invocation {
                vm,
                calls: Seq::empty(),
                result: Err(StopModel::Error(error)),
            },
        }
    } else {
        match initial_frame(class_and_method, receiver, arguments) {
            Err(stop) => Invocation { vm, calls: Seq::empty(), result: Err(stop) },
            Ok(frame) => {
                let ended = run(floats, budget, frame, vm);
                Invocation {
                    vm: ended.vm,
                    calls: if ends(ended.result) {
                        Seq::empty()
                    } else {
                        seq![ended.frame] + ended.calls
                    },
                    result: ended.result,
                }
            },
        }
    }
}

/// The effect of the call that an instruction of a frame makes: the receiver and the arguments
/// leave the stack, and the result of the method, which must fit its type, comes onto it.
pub open spec fn call_method(
    floats: FloatModel,
    budget: nat,
    frame: FrameModel,
    vm: VmModel,
    kind: InvokeKind,
    index: u16,
) -> CallEffect
    decreases budget, 2nat,
{
    match prepared_call(frame, vm, kind, index) {
        Err(stop) => CallEffect { frame, vm, calls: Seq::empty(), result: Err(stop) },
        Ok(call) => {
            let rest = FrameModel { stack: frame.stack.take(call.height as int), ..frame };
            let ended = invoke(
                floats,
                budget,
                vm,
                call.class_and_method,
                call.receiver,
                call.arguments,
            );
            match ended.result {
                Err(stop) => CallEffect {
                    frame: rest,
                    vm: ended.vm,
                    calls: ended.calls,
                    result: Err(stop),
                },
                Ok(result) => if !ended.vm.result_fits(
                    call.class_and_method.method.result_type(),
                    result,
                ) {
                    CallEffect {
                        frame: rest,
                        vm: ended.vm,
                        calls: Seq::empty(),
                        result: invalid(),
                    }
                } else {
                    CallEffect {
                        frame: match result {
                            Some(value) => rest.push(value),
                            None => rest,
                        },
                        vm: ended.vm,
                        calls: Seq::empty(),
                        result: Ok(()),
                    }
                },
            }
        },
    }
}

} // verus!
