//! Method calls: the frame of a call, and the execution of its instructions.

use crate::class::{Class, ClassAndMethod, ClassRef};
use crate::class_file::{ClassFileField, ClassFileMethodCode, ConstantPoolEntry};
use crate::field_type::{BaseType, FieldType, FieldTypeModel};
use crate::float::{DoubleMath, FloatOp, FloatUnit, SingleMath, DOUBLE_ZERO, SINGLE_ZERO};
use crate::instruction::{
    ArrayKind,
    Coercion,
    ComputeOperation,
    DataOperation,
    DecodedCode,
    HeapOperation,
    InvokeKind,
    NewArrayType,
    Operation,
    ValueKind,
};
use crate::laws::law_ended_run_leaves_no_calls;
use crate::numeric::{compare, int_math, long_math, Comparison, IntegerOp};
use crate::semantics::{Flow, FrameModel};
use crate::stack::Stack;
use crate::value::{ArrayRef, ObjectRef, Value};
use crate::vm::Vm;
use crate::vm_error::{
    error_result,
    lift_error,
    stop_result,
    validation_stop,
    Stop,
    StopModel,
    VmError,
    VmErrorModel,
};
use std::rc::Rc;
use vstd::prelude::*;

verus! {

/// The call of a method: where it is in its code, its locals and its operand stack.
#[derive(Debug)]
pub struct CallFrame {
    pub class_and_method: ClassAndMethod,
    pub pc: usize,
    pub locals: Vec<Value>,
    pub stack: Vec<Value>,
    pub code: Rc<DecodedCode>,
}

impl View for CallFrame {
    type V = FrameModel;

    open spec fn view(&self) -> FrameModel {
        FrameModel {
            class_and_method: self.class_and_method,
            code: *self.code,
            pc: self.pc,
            locals: self.locals@,
            stack: self.stack@,
        }
    }
}

/// A method by name.
struct MethodReference<'a> {
    class_name: &'a String,
    method_name: &'a String,
    type_descriptor: &'a String,
}

/// A field by name.
struct FieldReference<'a> {
    class_name: &'a String,
    field_name: &'a String,
}

impl CallFrame {
    /// The frame of a call that starts with these locals.
    pub fn new(class_and_method: ClassAndMethod, locals: Vec<Value>) -> (frame: CallFrame)
        requires
            class_and_method.method.code is Some,
        ensures
            frame@ == (FrameModel {
                class_and_method,
                code: *class_and_method.method.code->0.code,
                pc: 0,
                locals: locals@,
                stack: Seq::empty(),
            }),
    {
        let method_code: &ClassFileMethodCode = class_and_method.method.code.as_ref().unwrap();
        let max_stack_size: usize = method_code.max_stack as usize;
        let code = method_code.code.clone();
        CallFrame { class_and_method, pc: 0, locals, stack: Vec::with_capacity(max_stack_size), code }
    }

    /// Takes the topmost value off the stack.
    fn pop(&mut self) -> (result: Result<Value, Stop>)
        ensures
            final(self)@ == old(self)@.pop().0,
            stop_result(result) == old(self)@.pop().1,
    {
        match self.stack.pop() {
            Some(value) => Ok(value),
            None => Err(validation_stop()),
        }
    }

    /// Takes the topmost value off the stack; it must be an integer.
    fn pop_int(&mut self) -> (result: Result<i32, Stop>)
        ensures
            final(self)@ == old(self)@.pop_int().0,
            stop_result(result) == old(self)@.pop_int().1,
    {
        match self.pop()? {
            Value::Int(value) => Ok(value),
            _ => Err(validation_stop()),
        }
    }

    /// Takes the topmost value off the stack; it must be a long.
    fn pop_long(&mut self) -> (result: Result<i64, Stop>)
        ensures
            final(self)@ == old(self)@.pop_long().0,
            stop_result(result) == old(self)@.pop_long().1,
    {
        match self.pop()? {
            Value::Long(value) => Ok(value),
            _ => Err(validation_stop()),
        }
    }

    /// Takes the topmost value off the stack; it must be a single-precision number.
    fn pop_float(&mut self) -> (result: Result<u32, Stop>)
        ensures
            final(self)@ == old(self)@.pop_float().0,
            stop_result(result) == old(self)@.pop_float().1,
    {
        match self.pop()? {
            Value::Float(bits) => Ok(bits),
            _ => Err(validation_stop()),
        }
    }

    /// Takes the topmost value off the stack; it must be a double-precision number.
    fn pop_double(&mut self) -> (result: Result<u64, Stop>)
        ensures
            final(self)@ == old(self)@.pop_double().0,
            stop_result(result) == old(self)@.pop_double().1,
    {
        match self.pop()? {
            Value::Double(bits) => Ok(bits),
            _ => Err(validation_stop()),
        }
    }

    /// Takes the topmost value off the stack; it must be an object.
    fn pop_object(&mut self) -> (result: Result<ObjectRef, Stop>)
        ensures
            final(self)@ == old(self)@.pop_object().0,
            stop_result(result) == old(self)@.pop_object().1,
    {
        match self.pop()? {
            Value::Object(object) => Ok(object),
            _ => Err(validation_stop()),
        }
    }

    /// Takes the topmost value off the stack; it must be an array.
    fn pop_array(&mut self) -> (result: Result<ArrayRef, Stop>)
        ensures
            final(self)@ == old(self)@.pop_array().0,
            stop_result(result) == old(self)@.pop_array().1,
    {
        match self.pop()? {
            Value::Array(array) => Ok(array),
            _ => Err(validation_stop()),
        }
    }

    /// Pushes the value of a local, which must be of a kind.
    fn execute_load(&mut self, kind: ValueKind, index: usize) -> (result: Result<(), Stop>)
        ensures
            final(self)@ == old(self)@.load(kind, index).0,
            stop_result(result) == old(self)@.load(kind, index).1,
    {
        if index < self.locals.len() && self.locals[index].has_kind(kind) {
            self.stack.push(self.locals[index]);
            Ok(())
        } else {
            Err(validation_stop())
        }
    }

    /// Moves the topmost value, which must be of a kind, to a local.
    fn execute_store(&mut self, kind: ValueKind, index: usize) -> (result: Result<(), Stop>)
        ensures
            final(self)@ == old(self)@.store(kind, index).0,
            stop_result(result) == old(self)@.store(kind, index).1,
    {
        let value = self.pop()?;
        if !value.has_kind(kind) {
            Err(validation_stop())
        } else if index >= self.locals.len() {
            Err(Stop::Fault)
        } else {
            self.locals[index] = value;
            Ok(())
        }
    }

    /// Pushes an integer or a single-precision number of the constant pool.
    fn execute_ldc(&mut self, index: u16) -> (result: Result<(), Stop>)
        ensures
            final(self)@ == old(self)@.load_constant(index).0,
            stop_result(result) == old(self)@.load_constant(index).1,
    {
        let value = match self.get_constant(index)? {
            ConstantPoolEntry::Integer(value) => Value::Int(*value),
            ConstantPoolEntry::Float(bits) => Value::Float(*bits),
            _ => return Err(validation_stop()),
        };
        self.stack.push(value);
        Ok(())
    }

    /// Pushes a long or a double-precision number of the constant pool.
    fn execute_ldc_long_double(&mut self, index: u16) -> (result: Result<(), Stop>)
        ensures
            final(self)@ == old(self)@.load_wide_constant(index).0,
            stop_result(result) == old(self)@.load_wide_constant(index).1,
    {
        let value = match self.get_constant(index)? {
            ConstantPoolEntry::Long(value) => Value::Long(*value),
            ConstantPoolEntry::Double(bits) => Value::Double(*bits),
            _ => return Err(validation_stop()),
        };
        self.stack.push(value);
        Ok(())
    }

    /// The integer whose low 8 bits, with sign, are those of an integer.
    pub fn i2b(value: i32) -> (coerced: Value)
        ensures
            coerced == Value::Int((value as i8) as i32),
    {
        Value::Int((value as i8) as i32)
    }

    /// The integer made of the low 16 bits, without sign, of an integer.
    pub fn i2c(value: i32) -> (coerced: Value)
        ensures
            coerced == Value::Int((value as u16) as i32),
    {
        Value::Int((value as u16) as i32)
    }

    /// The integer whose low 16 bits, with sign, are those of an integer.
    pub fn i2s(value: i32) -> (coerced: Value)
        ensures
            coerced == Value::Int((value as i16) as i32),
    {
        Value::Int((value as i16) as i32)
    }

    /// An integer, as the value that it is.
    pub fn i2i(value: i32) -> (coerced: Value)
        ensures
            coerced == Value::Int(value),
    {
        Value::Int(value)
    }

    /// The single-precision number nearest to an integer.
    pub fn i2f<S: Fn(SingleMath) -> u32, D: Fn(DoubleMath) -> u64>(
        floats: &FloatUnit<S, D>,
        value: i32,
    ) -> (coerced: Value)
        requires
            floats.is_functional(),
        ensures
            coerced == Value::Float((floats.model().single)(SingleMath::FromInt(value))),
    {
        Value::Float(floats.compute_single(SingleMath::FromInt(value)))
    }

    /// An integer as a long.
    pub fn i2l(value: i32) -> (coerced: Value)
        ensures
            coerced == Value::Long(value as i64),
    {
        Value::Long(value as i64)
    }

    /// An integer as a double-precision number.
    pub fn i2d<S: Fn(SingleMath) -> u32, D: Fn(DoubleMath) -> u64>(
        floats: &FloatUnit<S, D>,
        value: i32,
    ) -> (coerced: Value)
        requires
            floats.is_functional(),
        ensures
            coerced == Value::Double((floats.model().double)(DoubleMath::FromInt(value))),
    {
        Value::Double(floats.compute_double(DoubleMath::FromInt(value)))
    }

    /// A long, as the value that it is.
    pub fn l2l(value: i64) -> (coerced: Value)
        ensures
            coerced == Value::Long(value),
    {
        Value::Long(value)
    }

    /// A single-precision number, as the value that it is.
    pub fn f2f(bits: u32) -> (coerced: Value)
        ensures
            coerced == Value::Float(bits),
    {
        Value::Float(bits)
    }

    /// A double-precision number, as the value that it is.
    pub fn d2d(bits: u64) -> (coerced: Value)
        ensures
            coerced == Value::Double(bits),
    {
        Value::Double(bits)
    }

    /// Converts the topmost integer.
    fn coerce_int<S: Fn(SingleMath) -> u32, D: Fn(DoubleMath) -> u64>(
        &mut self,
        floats: &FloatUnit<S, D>,
        coercion: Coercion,
    ) -> (result: Result<(), Stop>)
        requires
            floats.is_functional(),
        ensures
            final(self)@ == old(self)@.coerce(floats.model(), coercion).0,
            stop_result(result) == old(self)@.coerce(floats.model(), coercion).1,
    {
        let value: i32 = self.pop_int()?;
        let coerced = match coercion {
            Coercion::Byte => Self::i2b(value),
            Coercion::Char => Self::i2c(value),
            Coercion::Short => Self::i2s(value),
            Coercion::Float => Self::i2f(floats, value),
            Coercion::Long => Self::i2l(value),
            Coercion::Double => Self::i2d(floats, value),
        };
        self.stack.push(coerced);
        Ok(())
    }

    /// Repeats the topmost value.
    fn execute_dup(&mut self) -> (result: Result<(), Stop>)
        ensures
            final(self)@ == old(self)@.dup().0,
            stop_result(result) == old(self)@.dup().1,
    {
        let height: usize = self.stack.len();
        if height == 0 {
            Err(validation_stop())
        } else {
            self.stack.push(self.stack[height - 1]);
            Ok(())
        }
    }

    /// Drops the topmost value.
    fn execute_pop(&mut self) -> (result: Result<(), Stop>)
        ensures
            final(self)@ == old(self)@.drop_top().0,
            stop_result(result) == old(self)@.drop_top().1,
    {
        self.pop()?;
        Ok(())
    }

    /// Replaces the two topmost integers by the result of an operation on them.
    fn execute_int_math(&mut self, op: IntegerOp) -> (result: Result<(), Stop>)
        ensures
            final(self)@ == old(self)@.int_math(op).0,
            stop_result(result) == old(self)@.int_math(op).1,
    {
        let val2: i32 = self.pop_int()?;
        let val1: i32 = self.pop_int()?;
        let value: i32 = int_math(op, val1, val2)?;
        self.stack.push(Value::Int(value));
        Ok(())
    }

    /// Replaces the two topmost longs by the result of an operation on them.
    fn execute_long_math(&mut self, op: IntegerOp) -> (result: Result<(), Stop>)
        ensures
            final(self)@ == old(self)@.long_math(op).0,
            stop_result(result) == old(self)@.long_math(op).1,
    {
        let val2: i64 = self.pop_long()?;
        let val1: i64 = self.pop_long()?;
        let value: i64 = long_math(op, val1, val2)?;
        self.stack.push(Value::Long(value));
        Ok(())
    }

    /// Replaces the two topmost single-precision numbers by the result of an operation on them.
    fn execute_float_math<S: Fn(SingleMath) -> u32, D: Fn(DoubleMath) -> u64>(
        &mut self,
        floats: &FloatUnit<S, D>,
        op: FloatOp,
    ) -> (result: Result<(), Stop>)
        requires
            floats.is_functional(),
        ensures
            final(self)@ == old(self)@.float_math(floats.model(), op).0,
            stop_result(result) == old(self)@.float_math(floats.model(), op).1,
    {
        let val2: u32 = self.pop_float()?;
        let val1: u32 = self.pop_float()?;
        self.stack.push(Value::Float(floats.single_math(op, val1, val2)));
        Ok(())
    }

    /// Replaces the two topmost double-precision numbers by the result of an operation on them.
    fn execute_double_math<S: Fn(SingleMath) -> u32, D: Fn(DoubleMath) -> u64>(
        &mut self,
        floats: &FloatUnit<S, D>,
        op: FloatOp,
    ) -> (result: Result<(), Stop>)
        requires
            floats.is_functional(),
        ensures
            final(self)@ == old(self)@.double_math(floats.model(), op).0,
            stop_result(result) == old(self)@.double_math(floats.model(), op).1,
    {
        let val2: u64 = self.pop_double()?;
        let val1: u64 = self.pop_double()?;
        self.stack.push(Value::Double(floats.double_math(op, val1, val2)));
        Ok(())
    }

    /// The value of a local, which must be an integer.
    fn get_local_int(&self, vm: &Vm, index: usize) -> (result: Result<Value, Stop>)
        ensures
            match result {
                Ok(value) => index < self@.locals.len() && value == self@.locals[index as int]
                    && value is Int,
                Err(stop) => stop@ == StopModel::Error(VmErrorModel::ValidationException) && !(index
                    < self@.locals.len() && self@.locals[index as int] is Int),
            },
    {
        if index < self.locals.len() {
            let variable = self.locals[index];
            Self::validate_type(vm, &FieldType::Base(BaseType::Int), &variable)?;
            Ok(variable)
        } else {
            Err(validation_stop())
        }
    }

    /// The integer that a local holds.
    fn get_local_int_as_int(&self, vm: &Vm, index: usize) -> (result: Result<i32, Stop>)
        ensures
            match result {
                Ok(value) => index < self@.locals.len() && self@.locals[index as int] == Value::Int(
                    value,
                ),
                Err(stop) => stop@ == StopModel::Error(VmErrorModel::ValidationException) && !(index
                    < self@.locals.len() && self@.locals[index as int] is Int),
            },
    {
        match self.get_local_int(vm, index)? {
            Value::Int(the_int) => Ok(the_int),
            _ => Err(validation_stop()),
        }
    }

    /// Adds a constant to an integer local.
    fn execute_iinc(&mut self, vm: &Vm, index: usize, constant: i32) -> (result: Result<(), Stop>)
        ensures
            final(self)@ == old(self)@.increment(index, constant).0,
            stop_result(result) == old(self)@.increment(index, constant).1,
    {
        let local: i32 = self.get_local_int_as_int(vm, index)?;
        self.locals[index] = Value::Int(local.wrapping_add(constant));
        Ok(())
    }

    /// Goes on at an address.
    fn goto(&mut self, jump_address: u16)
        ensures
            final(self)@ == old(self)@.goto(jump_address),
    {
        self.pc = jump_address as usize;
    }

    /// Goes on at an address if the topmost integer compares with zero in a way.
    fn execute_if(&mut self, comparison: Comparison, jump_address: u16) -> (result: Result<(), Stop>)
        ensures
            final(self)@ == old(self)@.goto_if(comparison, jump_address).0,
            stop_result(result) == old(self)@.goto_if(comparison, jump_address).1,
    {
        let value: i32 = self.pop_int()?;
        if compare(comparison, value, 0) {
            self.goto(jump_address);
        }
        Ok(())
    }

    /// Goes on at an address if the two topmost integers compare in a way.
    fn execute_if_icmp(&mut self, comparison: Comparison, jump_address: u16) -> (result: Result<
        (),
        Stop,
    >)
        ensures
            final(self)@ == old(self)@.goto_if_ints(comparison, jump_address).0,
            stop_result(result) == old(self)@.goto_if_ints(comparison, jump_address).1,
    {
        let val2: i32 = self.pop_int()?;
        let val1: i32 = self.pop_int()?;
        if compare(comparison, val1, val2) {
            self.goto(jump_address);
        }
        Ok(())
    }

    /// Ends the call of a method without results.
    fn execute_return(&mut self) -> (result: Result<Option<Value>, Stop>)
        ensures
            final(self)@ == old(self)@.return_void().0,
            stop_result(result) == old(self)@.return_void().1,
    {
        if !self.class_and_method.is_void() {
            return Err(validation_stop());
        }
        Ok(None)
    }

    /// Ends the call of a method whose results are integers with the topmost value.
    fn execute_ireturn(&mut self) -> (result: Result<Option<Value>, Stop>)
        ensures
            final(self)@ == old(self)@.return_int().0,
            stop_result(result) == old(self)@.return_int().1,
    {
        if !self.class_and_method.returns_type(&FieldType::Base(BaseType::Int)) {
            return Err(validation_stop());
        }
        let value = self.pop()?;
        Ok(Some(value))
    }

    /// The constant at an index of the constant pool of the class.
    fn get_constant(&self, constant_index: u16) -> (result: Result<&ConstantPoolEntry, Stop>)
        ensures
            match result {
                Ok(entry) => self.class_and_method.class.constants.at(constant_index) == Some(
                    *entry,
                ),
                Err(stop) => self.class_and_method.class.constants.at(constant_index) is None
                    && stop@ == StopModel::Error(VmErrorModel::ValidationException),
            },
    {
        match self.class_and_method.class.constants.get(constant_index) {
            Some(entry) => Ok(entry),
            None => Err(validation_stop()),
        }
    }

    /// The text at an index of the constant pool.
    fn get_constant_utf8(&self, constant_index: u16) -> (result: Result<&String, Stop>)
        ensures
            match result {
                Ok(text) => self.class_and_method.class.constants.utf8(constant_index) == Some(
                    text@,
                ),
                Err(stop) => self.class_and_method.class.constants.utf8(constant_index) is None
                    && stop@ == StopModel::Error(VmErrorModel::ValidationException),
            },
    {
        match self.get_constant(constant_index)? {
            ConstantPoolEntry::Utf8(text) => Ok(text),
            _ => Err(validation_stop()),
        }
    }

    /// The name of the class that a constant refers to.
    fn get_constant_class_reference(&self, constant_index: u16) -> (result: Result<&String, Stop>)
        ensures
            match result {
                Ok(name) => self.class_and_method.class.constants.class_reference(constant_index)
                    == Some(name@),
                Err(stop) => self.class_and_method.class.constants.class_reference(
                    constant_index,
                ) is None && stop@ == StopModel::Error(VmErrorModel::ValidationException),
            },
    {
        match self.get_constant(constant_index)? {
            ConstantPoolEntry::ClassReference(name_index) => self.get_constant_utf8(*name_index),
            _ => Err(validation_stop()),
        }
    }

    /// The method that a constant refers to.
    fn get_constant_method_reference(&self, constant_index: u16) -> (result: Result<
        MethodReference,
        Stop,
    >)
        ensures
            match result {
                Ok(reference) => {
                    &&& self.class_and_method.class.constants.method_reference(
                        constant_index,
                    ) matches Some(member)
                    &&& member.class_name == reference.class_name@
                    &&& member.name == reference.method_name@
                    &&& member.type_descriptor == reference.type_descriptor@
                },
                Err(stop) => self.class_and_method.class.constants.method_reference(
                    constant_index,
                ) is None && stop@ == StopModel::Error(VmErrorModel::ValidationException),
            },
    {
        if let ConstantPoolEntry::MethodReference(class_index, name_and_type_index) =
            self.get_constant(constant_index)? {
            let class_name = self.get_constant_class_reference(*class_index)?;
            if let ConstantPoolEntry::NameAndTypeDescriptor(name_index, type_descriptor_index) =
                self.get_constant(*name_and_type_index)? {
                let method_name = self.get_constant_utf8(*name_index)?;
                let type_descriptor = self.get_constant_utf8(*type_descriptor_index)?;
                return Ok(MethodReference { class_name, method_name, type_descriptor });
            }
        }
        Err(validation_stop())
    }

    /// The field that a constant refers to.
    fn get_constant_field_reference(&self, constant_index: u16) -> (result: Result<
        FieldReference,
        Stop,
    >)
        ensures
            match result {
                Ok(reference) => {
                    &&& self.class_and_method.class.constants.field_reference(
                        constant_index,
                    ) matches Some(member)
                    &&& member.class_name == reference.class_name@
                    &&& member.name == reference.field_name@
                },
                Err(stop) => self.class_and_method.class.constants.field_reference(
                    constant_index,
                ) is None && stop@ == StopModel::Error(VmErrorModel::ValidationException),
            },
    {
        if let ConstantPoolEntry::FieldReference(class_index, name_and_type_index) =
            self.get_constant(constant_index)? {
            let class_name = self.get_constant_class_reference(*class_index)?;
            if let ConstantPoolEntry::NameAndTypeDescriptor(name_index, type_descriptor_index) =
                self.get_constant(*name_and_type_index)? {
                let field_name = self.get_constant_utf8(*name_index)?;
                self.get_constant_utf8(*type_descriptor_index)?;
                return Ok(FieldReference { class_name, field_name });
            }
        }
        Err(validation_stop())
    }

    /// Whether a value can be held where a type is expected.
    fn validate_type(vm: &Vm, expected_type: &FieldType, value: &Value) -> (result: Result<
        (),
        Stop,
    >)
        ensures
            stop_result(result) == (if vm@.fits(*value, expected_type@) {
                Ok::<(), StopModel>(())
            } else {
                crate::vm_error::invalid()
            }),
    {
        if value.matches_type(expected_type, &vm.class_loader, &vm.object_allocator) {
            Ok(())
        } else {
            Err(validation_stop())
        }
    }

    /// Whether a method with results of a type, or with none, may give a result.
    fn validate_type_opt(vm: &Vm, expected_type: &Option<FieldType>, value: &Option<Value>) -> (
        result: Result<(), Stop>)
        ensures
            stop_result(result) == (if vm@.result_fits(
                match *expected_type {
                    Some(field_type) => Some(field_type@),
                    None => None,
                },
                *value,
            ) {
                Ok::<(), StopModel>(())
            } else {
                crate::vm_error::invalid()
            }),
    {
        match expected_type {
            None => match value {
                None => Ok(()),
                Some(_) => Err(validation_stop()),
            },
            Some(expected_type) => match value {
                None => Err(validation_stop()),
                Some(value) => Self::validate_type(vm, expected_type, value),
            },
        }
    }

    /// The field that a reference names, as a class sees it, with its position in an instance.
    fn get_field(class: &Class, field_reference: &FieldReference) -> (result: Result<
        (usize, Rc<ClassFileField>),
        Stop,
    >)
        ensures
            stop_result(result) == (match crate::class::class_field(
                *class,
                field_reference.class_name@,
                field_reference.field_name@,
            ) {
                Some(found) => Ok::<(usize, Rc<ClassFileField>), StopModel>(found),
                None => Err(
                    StopModel::Error(
                        VmErrorModel::FieldNotFoundException(
                            field_reference.class_name@,
                            field_reference.field_name@,
                        ),
                    ),
                ),
            }),
    {
        match class.find_field(field_reference.class_name, field_reference.field_name) {
            Some(found) => Ok(found),
            None => Err(
                Stop::Error(
                    VmError::FieldNotFoundException(
                        field_reference.class_name.clone(),
                        field_reference.field_name.clone(),
                    ),
                ),
            ),
        }
    }

    /// The field that a constant names, with its position in an instance.
    fn get_constant_field(&self, constant_index: u16) -> (result: Result<
        (usize, Rc<ClassFileField>),
        Stop,
    >)
        ensures
            match result {
                Ok(found) => self@.field(constant_index) == Ok::<
                    (usize, FieldTypeModel),
                    StopModel,
                >((found.0, found.1.type_descriptor@)),
                Err(stop) => self@.field(constant_index) == Err::<(usize, FieldTypeModel), _>(stop@),
            },
    {
        let field_reference = self.get_constant_field_reference(constant_index)?;
        Self::get_field(&self.class_and_method.class, &field_reference)
    }

    /// Replaces the topmost object by the value of its field that a constant names.
    fn execute_getfield(&mut self, vm: &Vm, constant_index: u16) -> (result: Result<(), Stop>)
        ensures
            final(self)@ == old(self)@.get_field(vm@, constant_index).0,
            stop_result(result) == old(self)@.get_field(vm@, constant_index).1,
    {
        let (index, field) = self.get_constant_field(constant_index)?;
        let object = self.pop_object()?;
        if !vm.object_allocator.has_field(object, index) {
            return Err(Stop::Fault);
        }
        let field_value = vm.object_allocator.get_field(object, index);
        Self::validate_type(vm, &field.type_descriptor, &field_value)?;
        self.stack.push(field_value);
        Ok(())
    }

    /// Gives the field that a constant names, of the object below the topmost value, that value.
    fn execute_putfield(&mut self, vm: &mut Vm, constant_index: u16) -> (result: Result<(), Stop>)
        ensures
            final(self)@ == old(self)@.put_field(old(vm)@, constant_index).0,
            final(vm)@ == old(self)@.put_field(old(vm)@, constant_index).1,
            stop_result(result) == old(self)@.put_field(old(vm)@, constant_index).2,
    {
        let (index, field) = self.get_constant_field(constant_index)?;
        let value = self.pop()?;
        Self::validate_type(vm, &field.type_descriptor, &value)?;
        let object = self.pop_object()?;
        if !vm.object_allocator.has_field(object, index) {
            return Err(Stop::Fault);
        }
        vm.object_allocator.set_field(object, index, value);
        Ok(())
    }

    /// Replaces the topmost integer by a new array of that length.
    fn execute_newarray(&mut self, vm: &mut Vm, array_type: NewArrayType) -> (result: Result<
        (),
        Stop,
    >)
        ensures
            final(self)@ == old(self)@.new_array(old(vm)@, array_type).0,
            final(vm)@ == old(self)@.new_array(old(vm)@, array_type).1,
            stop_result(result) == old(self)@.new_array(old(vm)@, array_type).2,
    {
        let length: i32 = self.pop_int()?;
        let (elements_type, default_value) = match array_type {
            NewArrayType::Boolean => (BaseType::Boolean, Value::Int(0)),
            NewArrayType::Char => (BaseType::Char, Value::Int(0)),
            NewArrayType::Float => (BaseType::Float, Value::Float(SINGLE_ZERO)),
            NewArrayType::Double => (BaseType::Double, Value::Double(DOUBLE_ZERO)),
            NewArrayType::Byte => (BaseType::Byte, Value::Int(0)),
            NewArrayType::Short => (BaseType::Short, Value::Int(0)),
            NewArrayType::Int => (BaseType::Int, Value::Int(0)),
            NewArrayType::Long => (BaseType::Long, Value::Long(0)),
        };
        if length < 0 {
            return Err(Stop::Fault);
        }
        let array = vm.object_allocator.allocate_array(
            FieldType::Base(elements_type),
            default_value,
            length as usize,
        );
        self.stack.push(Value::Array(array));
        Ok(())
    }

    /// Replaces the topmost integer by a new array of that length for objects of the class that
    /// a constant names.
    fn execute_anewarray(&mut self, vm: &mut Vm, constant_index: u16) -> (result: Result<(), Stop>)
        ensures
            final(self)@ == old(self)@.new_object_array(old(vm)@, constant_index).0,
            final(vm)@ == old(self)@.new_object_array(old(vm)@, constant_index).1,
            stop_result(result) == old(self)@.new_object_array(old(vm)@, constant_index).2,
    {
        let length: i32 = self.pop_int()?;
        let class_name = self.get_constant_class_reference(constant_index)?.clone();
        if length < 0 {
            return Err(Stop::Fault);
        }
        let array = vm.object_allocator.allocate_array(
            FieldType::Object(class_name),
            Value::Null,
            length as usize,
        );
        self.stack.push(Value::Array(array));
        Ok(())
    }

    /// Replaces the topmost array by its length.
    fn execute_array_length(&mut self, vm: &Vm) -> (result: Result<(), Stop>)
        ensures
            final(self)@ == old(self)@.array_length(vm@).0,
            stop_result(result) == old(self)@.array_length(vm@).1,
    {
        let array = self.pop_array()?;
        if !vm.object_allocator.has_array(array) {
            return Err(Stop::Fault);
        }
        let length: usize = vm.object_allocator.get_array(array).elements.len();
        self.stack.push(Value::Int(length as i32));
        Ok(())
    }

    /// Whether an array instruction applies to arrays of an element type.
    fn element_type_is(element_type: &FieldType, kind: ArrayKind) -> (applies: bool)
        ensures
            applies == crate::semantics::holds_kind(element_type@, kind),
    {
        match element_type {
            FieldType::Base(base) => match (kind, *base) {
                (ArrayKind::Byte, BaseType::Byte) => true,
                (ArrayKind::Byte, BaseType::Boolean) => true,
                (ArrayKind::Char, BaseType::Char) => true,
                (ArrayKind::Short, BaseType::Short) => true,
                (ArrayKind::Int, BaseType::Int) => true,
                (ArrayKind::Long, BaseType::Long) => true,
                (ArrayKind::Float, BaseType::Float) => true,
                (ArrayKind::Double, BaseType::Double) => true,
                _ => false,
            },
            FieldType::Object(_) => kind == ArrayKind::Object,
            FieldType::Array(_) => false,
        }
    }

    /// Replaces the topmost integer and the array below it by the element at that position.
    fn execute_array_load(&mut self, vm: &Vm, kind: ArrayKind) -> (result: Result<(), Stop>)
        ensures
            final(self)@ == old(self)@.array_load(vm@, kind).0,
            stop_result(result) == old(self)@.array_load(vm@, kind).1,
    {
        let index: i32 = self.pop_int()?;
        let array = self.pop_array()?;
        if !vm.object_allocator.has_array(array) {
            return Err(Stop::Fault);
        }
        let array_value = vm.object_allocator.get_array(array);
        if !Self::element_type_is(&array_value.element_type, kind) {
            return Err(validation_stop());
        }
        if index < 0 || index as usize >= array_value.elements.len() {
            return Err(Stop::Error(VmError::ArrayIndexOutOfBoundsException));
        }
        self.stack.push(array_value.elements[index as usize]);
        Ok(())
    }

    /// Takes the value that is to be stored in an array off the stack.
    fn pop_element(&mut self, kind: ArrayKind) -> (result: Result<Value, Stop>)
        ensures
            final(self)@ == old(self)@.pop_element(kind).0,
            stop_result(result) == old(self)@.pop_element(kind).1,
    {
        Ok(
            match kind {
                ArrayKind::Byte => Self::i2b(self.pop_int()?),
                ArrayKind::Char => Self::i2c(self.pop_int()?),
                ArrayKind::Short => Self::i2s(self.pop_int()?),
                ArrayKind::Int => Self::i2i(self.pop_int()?),
                ArrayKind::Long => Self::l2l(self.pop_long()?),
                ArrayKind::Float => Self::f2f(self.pop_float()?),
                ArrayKind::Double => Self::d2d(self.pop_double()?),
                ArrayKind::Object => Value::Object(self.pop_object()?),
            },
        )
    }

    /// Takes a value, an integer and an array off the stack, and makes the value the element of
    /// the array at that position.
    fn execute_array_store(&mut self, vm: &mut Vm, kind: ArrayKind) -> (result: Result<(), Stop>)
        ensures
            final(self)@ == old(self)@.array_store(old(vm)@, kind).0,
            final(vm)@ == old(self)@.array_store(old(vm)@, kind).1,
            stop_result(result) == old(self)@.array_store(old(vm)@, kind).2,
    {
        let value = self.pop_element(kind)?;
        let index: i32 = self.pop_int()?;
        let array = self.pop_array()?;
        if !vm.object_allocator.has_array(array) {
            return Err(Stop::Fault);
        }
        let array_value = vm.object_allocator.get_array(array);
        if !Self::element_type_is(&array_value.element_type, kind) {
            return Err(validation_stop());
        }
        if kind == ArrayKind::Object {
            Self::validate_type(vm, &array_value.element_type, &value)?;
        }
        if index < 0 || index as usize >= array_value.elements.len() {
            return Err(Stop::Error(VmError::ArrayIndexOutOfBoundsException));
        }
        vm.object_allocator.set_element(array, index as usize, value);
        Ok(())
    }

    /// Pushes a new object of the class that a constant names.
    fn execute_new(&mut self, vm: &mut Vm, constant_index: u16) -> (result: Result<(), Stop>)
        ensures
            final(self)@ == old(self)@.new_object(old(vm)@, constant_index).0,
            final(vm)@ == old(self)@.new_object(old(vm)@, constant_index).1,
            stop_result(result) == old(self)@.new_object(old(vm)@, constant_index).2,
    {
        let new_object_class_name = self.get_constant_class_reference(constant_index)?;
        match vm.new_object(new_object_class_name.as_str()) {
            Ok(new_object) => {
                self.stack.push(Value::Object(new_object));
                Ok(())
            },
            Err(error) => Err(Stop::Error(error)),
        }
    }

    /// The method that a class itself declares.
    fn get_method_of_class(class: &ClassRef, method_reference: &MethodReference) -> (result: Result<
        ClassAndMethod,
        Stop,
    >)
        ensures
            stop_result(result) == crate::semantics::declared_method(
                *class,
                method_reference.method_name@,
                method_reference.type_descriptor@,
            ),
    {
        match class.find_method(method_reference.method_name, method_reference.type_descriptor) {
            Some(method) => Ok(ClassAndMethod { class: class.clone(), method }),
            None => Err(
                Stop::Error(
                    VmError::MethodNotFoundException(
                        class.name.clone(),
                        method_reference.method_name.clone(),
                        method_reference.type_descriptor.clone(),
                    ),
                ),
            ),
        }
    }

    /// The method that a class declares, or that its superclass does.
    fn get_method_checking_superclasses(
        class: &ClassRef,
        method_name: &String,
        type_descriptor: &String,
    ) -> (result: Result<ClassAndMethod, Stop>)
        ensures
            stop_result(result) == crate::semantics::inherited_method(
                *class,
                method_name@,
                type_descriptor@,
            ),
    {
        if let Some(method) = class.find_method(method_name, type_descriptor) {
            return Ok(ClassAndMethod { class: class.clone(), method });
        }
        match &class.superclass {
            Some(superclass) => match superclass.find_method(method_name, type_descriptor) {
                Some(method) => Ok(ClassAndMethod { class: superclass.clone(), method }),
                None => Err(Stop::Fault),
            },
            None => Err(
                Stop::Error(
                    VmError::MethodNotFoundException(
                        class.name.clone(),
                        method_name.clone(),
                        type_descriptor.clone(),
                    ),
                ),
            ),
        }
    }

    /// The method that a constant names.
    fn get_method_to_invoke_statically(
        &self,
        vm: &Vm,
        constant_index: u16,
        kind: InvokeKind,
    ) -> (result: Result<ClassAndMethod, Stop>)
        ensures
            stop_result(result) == crate::semantics::named_method(
                self@,
                vm@,
                kind,
                constant_index,
            ),
    {
        let method_reference = self.get_constant_method_reference(constant_index)?;
        match vm.get_class(method_reference.class_name.as_str()) {
            Err(error) => Err(Stop::Error(error)),
            Ok(class) => match kind {
                InvokeKind::Virtual => Self::get_method_checking_superclasses(
                    &class,
                    method_reference.method_name,
                    method_reference.type_descriptor,
                ),
                _ => Self::get_method_of_class(&class, &method_reference),
            },
        }
    }

    /// The method that the class of a receiver has in place of a method.
    fn resolve_virtual_method(
        vm: &Vm,
        receiver: Option<ObjectRef>,
        class_and_method: &ClassAndMethod,
    ) -> (result: Result<ClassAndMethod, Stop>)
        ensures
            stop_result(result) == crate::semantics::virtual_method(
                vm@,
                receiver,
                *class_and_method.method,
            ),
    {
        match receiver {
            None => Err(validation_stop()),
            Some(receiver) => match vm.get_class_by_id(receiver.class_id) {
                Err(error) => Err(Stop::Error(error)),
                Ok(receiver_class) => Self::get_method_checking_superclasses(
                    &receiver_class,
                    &class_and_method.method.name,
                    &class_and_method.method.type_descriptor,
                ),
            },
        }
    }

    /// The object at a position of the stack.
    fn get_object_from_stack(&self, index: usize) -> (result: Result<ObjectRef, Stop>)
        ensures
            match result {
                Ok(object) => index < self@.stack.len() && self@.stack[index as int]
                    == Value::Object(object),
                Err(stop) => stop@ == StopModel::Error(VmErrorModel::ValidationException) && !(index
                    < self@.stack.len() && self@.stack[index as int] is Object),
            },
    {
        if index < self.stack.len() {
            if let Value::Object(object) = self.stack[index] {
                return Ok(object);
            }
        }
        Err(validation_stop())
    }

    /// The receiver and the arguments of a call of a method, on top of the stack, and the height
    /// of the stack without them.
    fn get_method_receiver_and_params(&self, class_and_method: &ClassAndMethod) -> (result: Result<
        (Option<ObjectRef>, Vec<Value>, usize),
        Stop,
    >)
        ensures
            match result {
                Ok(found) => crate::semantics::receiver_and_arguments(
                    self@,
                    *class_and_method.method,
                ) == Ok::<(Option<ObjectRef>, Seq<Value>, nat), StopModel>(
                    (found.0, found.1@, found.2 as nat),
                ),
                Err(stop) => crate::semantics::receiver_and_arguments(
                    self@,
                    *class_and_method.method,
                ) == Err::<(Option<ObjectRef>, Seq<Value>, nat), _>(stop@),
            },
    {
        let cur_stack_len: usize = self.stack.len();
        let receiver_count: usize = if class_and_method.is_static() {
            0
        } else {
            1
        };
        let num_params: usize = class_and_method.num_arguments();
        if cur_stack_len < num_params || cur_stack_len - num_params < receiver_count {
            return Err(validation_stop());
        }
        let height: usize = cur_stack_len - num_params - receiver_count;
        let receiver = if class_and_method.is_static() {
            None
        } else {
            Some(self.get_object_from_stack(height)?)
        };
        let mut params: Vec<Value> = Vec::new();
        let mut i: usize = cur_stack_len - num_params;
        while i < cur_stack_len
            invariant
                cur_stack_len == self.stack@.len(),
                cur_stack_len - num_params <= i <= cur_stack_len,
                num_params <= cur_stack_len,
                params@ == self.stack@.subrange(cur_stack_len - num_params, i as int),
            decreases cur_stack_len - i,
        {
            params.push(self.stack[i]);
            i += 1;
        }
        assert(params@ == self@.stack.skip(cur_stack_len - num_params));
        Ok((receiver, params, height))
    }

    /// Calls the method that a constant names, from the frame at a position of the stack: the
    /// receiver and the arguments leave the operand stack of the frame, and the result of the
    /// method comes onto it.
    fn invoke_method<S: Fn(SingleMath) -> u32, D: Fn(DoubleMath) -> u64>(
        position: usize,
        vm: &mut Vm,
        stack: &mut Stack,
        floats: &FloatUnit<S, D>,
        constant_index: u16,
        kind: InvokeKind,
        budget: u64,
    ) -> (result: Result<(), Stop>)
        requires
            position < old(stack)@.len(),
            floats.is_functional(),
        ensures
            ({
                let effect = crate::semantics::call_method(
                    floats.model(),
                    budget as nat,
                    old(stack)@[position as int],
                    old(vm)@,
                    kind,
                    constant_index,
                );
                &&& final(stack)@ == old(stack)@.update(position as int, effect.frame)
                    + effect.calls
                &&& final(vm)@ == effect.vm
                &&& stop_result(result) == effect.result
            }),
        decreases budget, 2int,
    {
        let frame = stack.frame_mut(position);
        let static_method_reference = frame.get_method_to_invoke_statically(
            vm,
            constant_index,
            kind,
        )?;
        let (receiver, params, new_stack_len) = frame.get_method_receiver_and_params(
            &static_method_reference,
        )?;
        let class_and_method = match kind {
            InvokeKind::Virtual => Self::resolve_virtual_method(
                vm,
                receiver,
                &static_method_reference,
            )?,
            _ => static_method_reference,
        };
        frame.stack.truncate(new_stack_len);
        let method = class_and_method.method.clone();
        let result = vm.invoke_bounded(stack, class_and_method, receiver, params, floats, budget)?;
        Self::validate_type_opt(vm, &method.return_type, &result)?;
        if let Some(value) = result {
            stack.frame_mut(position).stack.push(value);
        }
        Ok(())
    }

    /// Performs an operation that moves values.
    fn execute_data(&mut self, operation: DataOperation, vm: &Vm) -> (result: Result<(), Stop>)
        ensures
            final(self)@ == crate::semantics::data_effect(operation, old(self)@).0,
            stop_result(result) == crate::semantics::data_effect(operation, old(self)@).1,
    {
        match operation {
            DataOperation::Push(value) => {
                self.stack.push(value);
                Ok(())
            },
            DataOperation::Load(kind, index) => self.execute_load(kind, index),
            DataOperation::Store(kind, index) => self.execute_store(kind, index),
            DataOperation::LoadConstant(index) => self.execute_ldc(index),
            DataOperation::LoadWideConstant(index) => self.execute_ldc_long_double(index),
            DataOperation::Dup => self.execute_dup(),
            DataOperation::Pop => self.execute_pop(),
            DataOperation::Increment(index, constant) => self.execute_iinc(vm, index, constant),
        }
    }

    /// Performs an operation that computes or jumps.
    fn execute_compute<S: Fn(SingleMath) -> u32, D: Fn(DoubleMath) -> u64>(
        &mut self,
        operation: ComputeOperation,
        floats: &FloatUnit<S, D>,
    ) -> (result: Result<(), Stop>)
        requires
            floats.is_functional(),
        ensures
            final(self)@ == crate::semantics::compute_effect(
                floats.model(),
                operation,
                old(self)@,
            ).0,
            stop_result(result) == crate::semantics::compute_effect(
                floats.model(),
                operation,
                old(self)@,
            ).1,
    {
        match operation {
            ComputeOperation::Coerce(coercion) => self.coerce_int(floats, coercion),
            ComputeOperation::IntMath(op) => self.execute_int_math(op),
            ComputeOperation::LongMath(op) => self.execute_long_math(op),
            ComputeOperation::FloatMath(op) => self.execute_float_math(floats, op),
            ComputeOperation::DoubleMath(op) => self.execute_double_math(floats, op),
            ComputeOperation::Goto(address) => {
                self.goto(address);
                Ok(())
            },
            ComputeOperation::If(comparison, address) => self.execute_if(comparison, address),
            ComputeOperation::IfInts(comparison, address) => self.execute_if_icmp(
                comparison,
                address,
            ),
        }
    }

    /// Performs an operation on objects and arrays.
    fn execute_heap(&mut self, operation: HeapOperation, vm: &mut Vm) -> (result: Result<(), Stop>)
        ensures
            final(self)@ == crate::semantics::heap_effect(operation, old(self)@, old(vm)@).0,
            final(vm)@ == crate::semantics::heap_effect(operation, old(self)@, old(vm)@).1,
            stop_result(result) == crate::semantics::heap_effect(
                operation,
                old(self)@,
                old(vm)@,
            ).2,
    {
        match operation {
            HeapOperation::New(index) => self.execute_new(vm, index),
            HeapOperation::PutField(index) => self.execute_putfield(vm, index),
            HeapOperation::GetField(index) => self.execute_getfield(vm, index),
            HeapOperation::NewArray(array_type) => self.execute_newarray(vm, array_type),
            HeapOperation::NewObjectArray(index) => self.execute_anewarray(vm, index),
            HeapOperation::ArrayLength => self.execute_array_length(vm),
            HeapOperation::ArrayLoad(kind) => self.execute_array_load(vm, kind),
            HeapOperation::ArrayStore(kind) => self.execute_array_store(vm, kind),
        }
    }

    /// Performs an operation. A call is left to be made.
    fn execute_operation<S: Fn(SingleMath) -> u32, D: Fn(DoubleMath) -> u64>(
        &mut self,
        operation: Operation,
        vm: &mut Vm,
        floats: &FloatUnit<S, D>,
    ) -> (result: Result<Flow, Stop>)
        requires
            floats.is_functional(),
        ensures
            ({
                let effect = crate::semantics::step(
                    floats.model(),
                    operation,
                    old(self)@,
                    old(vm)@,
                );
                &&& final(self)@ == effect.frame
                &&& final(vm)@ == effect.vm
                &&& stop_result(result) == effect.flow
            }),
    {
        match operation {
            Operation::Data(operation) => self.execute_data(operation, vm)?,
            Operation::Compute(operation) => self.execute_compute(operation, floats)?,
            Operation::Heap(operation) => self.execute_heap(operation, vm)?,
            Operation::Invoke(kind, index) => return Ok(Flow::Invoke(kind, index)),
            Operation::Return => return Ok(Flow::Return(self.execute_return()?)),
            Operation::ReturnInt => return Ok(Flow::Return(self.execute_ireturn()?)),
            Operation::Unsupported => return Err(Stop::Error(VmError::NotImplemented)),
        }
        Ok(Flow::Next)
    }

    /// Fetches the instruction at the current address and performs it. A call is left to be made.
    fn execute_next<S: Fn(SingleMath) -> u32, D: Fn(DoubleMath) -> u64>(
        &mut self,
        vm: &mut Vm,
        floats: &FloatUnit<S, D>,
    ) -> (result: Result<Flow, Stop>)
        requires
            floats.is_functional(),
        ensures
            match old(self)@.code.at(old(self)@.pc as int) {
                None => {
                    &&& final(self)@ == old(self)@
                    &&& final(vm)@ == old(vm)@
                    &&& stop_result(result) == crate::vm_error::invalid::<Flow>()
                },
                Some((instruction, next)) => {
                    let effect = crate::semantics::step(
                        floats.model(),
                        instruction.spec_operation(),
                        FrameModel { pc: next, ..old(self)@ },
                        old(vm)@,
                    );
                    &&& final(self)@ == effect.frame
                    &&& final(vm)@ == effect.vm
                    &&& stop_result(result) == effect.flow
                },
            },
    {
        let (instruction, new_address) = match self.code.fetch(self.pc) {
            Some(fetched) => fetched,
            None => return Err(validation_stop()),
        };
        self.pc = new_address;
        self.execute_operation(instruction.operation(), vm, floats)
    }

    /// Executes the instructions of the frame at a position of the stack to the end of the call,
    /// within a budget: each instruction takes one unit of it from those that follow and from the
    /// calls that it makes. The frame is run where it is. The frames of calls that have not ended
    /// stay above the others.
    pub fn execute_bounded<S: Fn(SingleMath) -> u32, D: Fn(DoubleMath) -> u64>(
        position: usize,
        vm: &mut Vm,
        stack: &mut Stack,
        floats: &FloatUnit<S, D>,
        budget: u64,
    ) -> (result: Result<Option<Value>, Stop>)
        requires
            position < old(stack)@.len(),
            floats.is_functional(),
        ensures
            ({
                let ended = crate::semantics::run(
                    floats.model(),
                    budget as nat,
                    old(stack)@[position as int],
                    old(vm)@,
                );
                &&& final(stack)@ == old(stack)@.update(position as int, ended.frame) + ended.calls
                &&& final(vm)@ == ended.vm
                &&& stop_result(result) == ended.result
            }),
        decreases budget, 0int,
    {
        let mut remaining: u64 = budget;
        while remaining > 0
            invariant
                position < stack@.len(),
                floats.is_functional(),
                remaining <= budget,
                crate::semantics::run(
                    floats.model(),
                    remaining as nat,
                    stack@[position as int],
                    vm@,
                ) == crate::semantics::run(
                    floats.model(),
                    budget as nat,
                    old(stack)@[position as int],
                    old(vm)@,
                ),
                stack@.len() == old(stack)@.len(),
                forall|i: int|
                    0 <= i < stack@.len() && i != position ==> #[trigger] stack@[i]
                        == old(stack)@[i],
            decreases remaining,
        {
            remaining -= 1;
            let ghost before = stack@;
            let flow = stack.frame_mut(position).execute_next(vm, floats);
            proof {
                let frame = stack@[position as int];
                assert(stack@ == before.update(position as int, frame));
                assert(stack@ == old(stack)@.update(position as int, frame) + Seq::empty());
            }
            match flow? {
                Flow::Next => {},
                Flow::Return(value) => return Ok(value),
                Flow::Invoke(kind, index) => Self::invoke_method(
                    position,
                    vm,
                    stack,
                    floats,
                    index,
                    kind,
                    remaining,
                )?,
            }
        }
        assert(stack@ == old(stack)@.update(position as int, stack@[position as int])
            + Seq::empty());
        Err(Stop::OutOfBudget)
    }

    /// Executes the instructions of the frame at a position of the stack to the end of the call.
    /// The frame is run where it is, and the other frames stay as they are.
    pub fn execute<S: Fn(SingleMath) -> u32, D: Fn(DoubleMath) -> u64>(
        position: usize,
        vm: &mut Vm,
        stack: &mut Stack,
        floats: &FloatUnit<S, D>,
    ) -> (result: Result<Option<Value>, VmError>)
        requires
            position < old(stack)@.len(),
            floats.is_functional(),
            crate::semantics::ends(
                crate::semantics::run(
                    floats.model(),
                    u64::MAX as nat,
                    old(stack)@[position as int],
                    old(vm)@,
                ).result,
            ),
        ensures
            ({
                let ended = crate::semantics::run(
                    floats.model(),
                    u64::MAX as nat,
                    old(stack)@[position as int],
                    old(vm)@,
                );
                &&& final(stack)@ == old(stack)@.update(position as int, ended.frame)
                &&& final(vm)@ == ended.vm
                &&& lift_error(error_result(result)) == ended.result
            }),
    {
        proof {
            law_ended_run_leaves_no_calls(
                floats.model(),
                u64::MAX as nat,
                stack@[position as int],
                vm@,
            );
        }
        match Self::execute_bounded(position, vm, stack, floats, u64::MAX) {
            Ok(value) => Ok(value),
            Err(Stop::Error(error)) => Err(error),
            Err(_) => vstd::pervasive::unreached(),
        }
    }
}

} // verus!
