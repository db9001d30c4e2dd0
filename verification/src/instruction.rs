//! Instructions, decoded code, and the operation that each instruction performs.

use crate::float::{DOUBLE_ONE, DOUBLE_ZERO, FloatOp, SINGLE_ONE, SINGLE_TWO, SINGLE_ZERO};
use crate::numeric::{Comparison, IntegerOp};
use crate::value::Value;
use vstd::prelude::*;

verus! {

/// The integer that `Instruction::Iconst_m1` pushes.
pub const MINUS_ONE: i32 = -1;

/// The element type of an array of primitive values.
#[derive(Clone, Copy, Debug, PartialEq, Eq, Structural)]
pub enum NewArrayType {
    Boolean,
    Char,
    Float,
    Double,
    Byte,
    Short,
    Int,
    Long,
}

/// The instructions of the machine. Jump addresses are absolute; constant operands are indices
/// into the constant pool of the class; local operands are slots of the frame. The numbers of
/// `Bipush` and `Iinc` are those to be pushed and to be added.
#[allow(non_camel_case_types)]
#[derive(Clone, Copy, Debug, PartialEq, Eq, Structural)]
pub enum Instruction {
    Aconst_null,
    Aload(u8),
    Aload_0,
    Aload_1,
    Aload_2,
    Aload_3,
    Astore(u8),
    Astore_0,
    Astore_1,
    Astore_2,
    Astore_3,
    Iload(u8),
    Iload_0,
    Iload_1,
    Iload_2,
    Iload_3,
    Istore(u8),
    Istore_0,
    Istore_1,
    Istore_2,
    Istore_3,
    Lload(u8),
    Lload_0,
    Lload_1,
    Lload_2,
    Lload_3,
    Lstore(u8),
    Lstore_0,
    Lstore_1,
    Lstore_2,
    Lstore_3,
    Fload(u8),
    Fload_0,
    Fload_1,
    Fload_2,
    Fload_3,
    Fstore(u8),
    Fstore_0,
    Fstore_1,
    Fstore_2,
    Fstore_3,
    Dload(u8),
    Dload_0,
    Dload_1,
    Dload_2,
    Dload_3,
    Dstore(u8),
    Dstore_0,
    Dstore_1,
    Dstore_2,
    Dstore_3,
    Iconst_m1,
    Iconst_0,
    Iconst_1,
    Iconst_2,
    Iconst_3,
    Iconst_4,
    Iconst_5,
    Lconst_0,
    Lconst_1,
    Fconst_0,
    Fconst_1,
    Fconst_2,
    Dconst_0,
    Dconst_1,
    Bipush(i16),
    Ldc(u8),
    Ldc_w(u16),
    Ldc2_w(u16),
    I2b,
    I2c,
    I2s,
    I2f,
    I2l,
    I2d,
    New(u16),
    Dup,
    Pop,
    Invokespecial(u16),
    Invokestatic(u16),
    Invokevirtual(u16),
    Return,
    Ireturn,
    Putfield(u16),
    Getfield(u16),
    Iadd,
    Isub,
    Imul,
    Idiv,
    Irem,
    Iand,
    Ior,
    Ixor,
    Ladd,
    Lsub,
    Lmul,
    Ldiv,
    Lrem,
    Land,
    Lor,
    Lxor,
    Fadd,
    Fsub,
    Fmul,
    Fdiv,
    Frem,
    Dadd,
    Dsub,
    Dmul,
    Ddiv,
    Drem,
    Iinc(u8, i16),
    Goto(u16),
    Ifeq(u16),
    Ifne(u16),
    Iflt(u16),
    Ifle(u16),
    Ifgt(u16),
    Ifge(u16),
    If_icmpeq(u16),
    If_icmpne(u16),
    If_icmplt(u16),
    If_icmple(u16),
    If_icmpgt(u16),
    If_icmpge(u16),
    Newarray(NewArrayType),
    Anewarray(u16),
    Arraylength,
    Baload,
    Caload,
    Saload,
    Iaload,
    Laload,
    Faload,
    Daload,
    Aaload,
    Bastore,
    Castore,
    Sastore,
    Iastore,
    Lastore,
    Fastore,
    Dastore,
    Aastore,
    /// An instruction that the machine knows by name only.
    Unsupported,
}

/// The kinds of values that load and store instructions tell apart.
#[derive(Clone, Copy, Debug, PartialEq, Eq, Structural)]
pub enum ValueKind {
    /// An object or an array.
    Reference,
    Int,
    Long,
    Float,
    Double,
}

/// The kinds of arrays that array instructions tell apart.
#[derive(Clone, Copy, Debug, PartialEq, Eq, Structural)]
pub enum ArrayKind {
    /// Bytes or booleans.
    Byte,
    Char,
    Short,
    Int,
    Long,
    Float,
    Double,
    Object,
}

/// What an integer is converted to.
#[derive(Clone, Copy, Debug, PartialEq, Eq, Structural)]
pub enum Coercion {
    Byte,
    Char,
    Short,
    Float,
    Long,
    Double,
}

/// How the method of a call is selected.
#[derive(Clone, Copy, Debug, PartialEq, Eq, Structural)]
pub enum InvokeKind {
    /// The method of the class that the call names, on a receiver.
    Special,
    /// The method of the class that the call names, without a receiver.
    Static,
    /// The method that the class of the receiver declares, or else its superclass.
    Virtual,
}

/// An operation that moves values between the operand stack, the locals and the constant pool.
#[derive(Clone, Copy, Debug, PartialEq, Eq, Structural)]
pub enum DataOperation {
    /// Pushes a value.
    Push(Value),
    /// Pushes the value of a local.
    Load(ValueKind, usize),
    /// Moves the topmost value to a local.
    Store(ValueKind, usize),
    /// Pushes an integer or a single-precision number of the constant pool.
    LoadConstant(u16),
    /// Pushes a long or a double-precision number of the constant pool.
    LoadWideConstant(u16),
    /// Repeats the topmost value.
    Dup,
    /// Drops the topmost value.
    Pop,
    /// Adds a constant to an integer local.
    Increment(usize, i32),
}

/// An operation that computes with the topmost values, or decides by them where to go on.
#[derive(Clone, Copy, Debug, PartialEq, Eq, Structural)]
pub enum ComputeOperation {
    /// Converts the topmost integer.
    Coerce(Coercion),
    IntMath(IntegerOp),
    LongMath(IntegerOp),
    FloatMath(FloatOp),
    DoubleMath(FloatOp),
    /// Jumps.
    Goto(u16),
    /// Jumps if the topmost integer compares with zero in this way.
    If(Comparison, u16),
    /// Jumps if the two topmost integers compare in this way.
    IfInts(Comparison, u16),
}

/// An operation on objects and arrays.
#[derive(Clone, Copy, Debug, PartialEq, Eq, Structural)]
pub enum HeapOperation {
    /// Creates an object of the class that a constant names.
    New(u16),
    /// Sets the field that a constant names.
    PutField(u16),
    /// Reads the field that a constant names.
    GetField(u16),
    /// Creates an array of primitive values.
    NewArray(NewArrayType),
    /// Creates an array of objects of the class that a constant names.
    NewObjectArray(u16),
    /// Pushes the length of an array.
    ArrayLength,
    /// Pushes an element of an array.
    ArrayLoad(ArrayKind),
    /// Sets an element of an array.
    ArrayStore(ArrayKind),
}

/// What an instruction does, with the instructions that differ only in an operand joined.
#[derive(Clone, Copy, Debug, PartialEq, Eq, Structural)]
pub enum Operation {
    Data(DataOperation),
    Compute(ComputeOperation),
    Heap(HeapOperation),
    /// Calls the method that a constant names.
    Invoke(InvokeKind, u16),
    /// Returns without a result.
    Return,
    /// Returns an integer.
    ReturnInt,
    /// Is not available.
    Unsupported,
}

pub open spec fn spec_slot(index: u8) -> usize {
    index as usize
}

/// The local slot that a byte operand denotes.
#[verifier::when_used_as_spec(spec_slot)]
pub fn slot(index: u8) -> (number: usize)
    ensures
        number == spec_slot(index),
{
    index as usize
}

pub open spec fn spec_constant_index(index: u8) -> u16 {
    index as u16
}

/// The constant that a byte operand denotes.
#[verifier::when_used_as_spec(spec_constant_index)]
pub fn constant_index(index: u8) -> (number: u16)
    ensures
        number == spec_constant_index(index),
{
    index as u16
}

pub open spec fn spec_widen(number: i16) -> i32 {
    number as i32
}

/// The integer that a number in an instruction denotes.
#[verifier::when_used_as_spec(spec_widen)]
pub fn widen(number: i16) -> (wide: i32)
    ensures
        wide == spec_widen(number),
{
    number as i32
}

impl Instruction {
    /// What each instruction does.
    pub open spec fn spec_operation(self) -> Operation {
        match self {
            Instruction::Aconst_null => Operation::Data(DataOperation::Push(Value::Null)),
            Instruction::Aload(index) => Operation::Data(DataOperation::Load(ValueKind::Reference, spec_slot(index))),
            Instruction::Aload_0 => Operation::Data(DataOperation::Load(ValueKind::Reference, 0)),
            Instruction::Aload_1 => Operation::Data(DataOperation::Load(ValueKind::Reference, 1)),
            Instruction::Aload_2 => Operation::Data(DataOperation::Load(ValueKind::Reference, 2)),
            Instruction::Aload_3 => Operation::Data(DataOperation::Load(ValueKind::Reference, 3)),
            Instruction::Astore(index) => Operation::Data(DataOperation::Store(ValueKind::Reference, spec_slot(index))),
            Instruction::Astore_0 => Operation::Data(DataOperation::Store(ValueKind::Reference, 0)),
            Instruction::Astore_1 => Operation::Data(DataOperation::Store(ValueKind::Reference, 1)),
            Instruction::Astore_2 => Operation::Data(DataOperation::Store(ValueKind::Reference, 2)),
            Instruction::Astore_3 => Operation::Data(DataOperation::Store(ValueKind::Reference, 3)),
            Instruction::Iload(index) => Operation::Data(DataOperation::Load(ValueKind::Int, spec_slot(index))),
            Instruction::Iload_0 => Operation::Data(DataOperation::Load(ValueKind::Int, 0)),
            Instruction::Iload_1 => Operation::Data(DataOperation::Load(ValueKind::Int, 1)),
            Instruction::Iload_2 => Operation::Data(DataOperation::Load(ValueKind::Int, 2)),
            Instruction::Iload_3 => Operation::Data(DataOperation::Load(ValueKind::Int, 3)),
            Instruction::Istore(index) => Operation::Data(DataOperation::Store(ValueKind::Int, spec_slot(index))),
            Instruction::Istore_0 => Operation::Data(DataOperation::Store(ValueKind::Int, 0)),
            Instruction::Istore_1 => Operation::Data(DataOperation::Store(ValueKind::Int, 1)),
            Instruction::Istore_2 => Operation::Data(DataOperation::Store(ValueKind::Int, 2)),
            Instruction::Istore_3 => Operation::Data(DataOperation::Store(ValueKind::Int, 3)),
            Instruction::Lload(index) => Operation::Data(DataOperation::Load(ValueKind::Long, spec_slot(index))),
            Instruction::Lload_0 => Operation::Data(DataOperation::Load(ValueKind::Long, 0)),
            Instruction::Lload_1 => Operation::Data(DataOperation::Load(ValueKind::Long, 1)),
            Instruction::Lload_2 => Operation::Data(DataOperation::Load(ValueKind::Long, 2)),
            Instruction::Lload_3 => Operation::Data(DataOperation::Load(ValueKind::Long, 3)),
            Instruction::Lstore(index) => Operation::Data(DataOperation::Store(ValueKind::Long, spec_slot(index))),
            Instruction::Lstore_0 => Operation::Data(DataOperation::Store(ValueKind::Long, 0)),
            Instruction::Lstore_1 => Operation::Data(DataOperation::Store(ValueKind::Long, 1)),
            Instruction::Lstore_2 => Operation::Data(DataOperation::Store(ValueKind::Long, 2)),
            Instruction::Lstore_3 => Operation::Data(DataOperation::Store(ValueKind::Long, 3)),
            Instruction::Fload(index) => Operation::Data(DataOperation::Load(ValueKind::Float, spec_slot(index))),
            Instruction::Fload_0 => Operation::Data(DataOperation::Load(ValueKind::Float, 0)),
            Instruction::Fload_1 => Operation::Data(DataOperation::Load(ValueKind::Float, 1)),
            Instruction::Fload_2 => Operation::Data(DataOperation::Load(ValueKind::Float, 2)),
            Instruction::Fload_3 => Operation::Data(DataOperation::Load(ValueKind::Float, 3)),
            Instruction::Fstore(index) => Operation::Data(DataOperation::Store(ValueKind::Float, spec_slot(index))),
            Instruction::Fstore_0 => Operation::Data(DataOperation::Store(ValueKind::Float, 0)),
            Instruction::Fstore_1 => Operation::Data(DataOperation::Store(ValueKind::Float, 1)),
            Instruction::Fstore_2 => Operation::Data(DataOperation::Store(ValueKind::Float, 2)),
            Instruction::Fstore_3 => Operation::Data(DataOperation::Store(ValueKind::Float, 3)),
            Instruction::Dload(index) => Operation::Data(DataOperation::Load(ValueKind::Double, spec_slot(index))),
            Instruction::Dload_0 => Operation::Data(DataOperation::Load(ValueKind::Double, 0)),
            Instruction::Dload_1 => Operation::Data(DataOperation::Load(ValueKind::Double, 1)),
            Instruction::Dload_2 => Operation::Data(DataOperation::Load(ValueKind::Double, 2)),
            Instruction::Dload_3 => Operation::Data(DataOperation::Load(ValueKind::Double, 3)),
            Instruction::Dstore(index) => Operation::Data(DataOperation::Store(ValueKind::Double, spec_slot(index))),
            Instruction::Dstore_0 => Operation::Data(DataOperation::Store(ValueKind::Double, 0)),
            Instruction::Dstore_1 => Operation::Data(DataOperation::Store(ValueKind::Double, 1)),
            Instruction::Dstore_2 => Operation::Data(DataOperation::Store(ValueKind::Double, 2)),
            Instruction::Dstore_3 => Operation::Data(DataOperation::Store(ValueKind::Double, 3)),
            Instruction::Iconst_m1 => Operation::Data(DataOperation::Push(Value::Int(MINUS_ONE))),
            Instruction::Iconst_0 => Operation::Data(DataOperation::Push(Value::Int(0))),
            Instruction::Iconst_1 => Operation::Data(DataOperation::Push(Value::Int(1))),
            Instruction::Iconst_2 => Operation::Data(DataOperation::Push(Value::Int(2))),
            Instruction::Iconst_3 => Operation::Data(DataOperation::Push(Value::Int(3))),
            Instruction::Iconst_4 => Operation::Data(DataOperation::Push(Value::Int(4))),
            Instruction::Iconst_5 => Operation::Data(DataOperation::Push(Value::Int(5))),
            Instruction::Lconst_0 => Operation::Data(DataOperation::Push(Value::Long(0))),
            Instruction::Lconst_1 => Operation::Data(DataOperation::Push(Value::Long(1))),
            Instruction::Fconst_0 => Operation::Data(DataOperation::Push(Value::Float(SINGLE_ZERO))),
            Instruction::Fconst_1 => Operation::Data(DataOperation::Push(Value::Float(SINGLE_ONE))),
            Instruction::Fconst_2 => Operation::Data(DataOperation::Push(Value::Float(SINGLE_TWO))),
            Instruction::Dconst_0 => Operation::Data(DataOperation::Push(Value::Double(DOUBLE_ZERO))),
            Instruction::Dconst_1 => Operation::Data(DataOperation::Push(Value::Double(DOUBLE_ONE))),
            Instruction::Bipush(number) => Operation::Data(DataOperation::Push(Value::Int(spec_widen(number)))),
            Instruction::Ldc(index) => Operation::Data(DataOperation::LoadConstant(spec_constant_index(index))),
            Instruction::Ldc_w(index) => Operation::Data(DataOperation::LoadConstant(index)),
            Instruction::Ldc2_w(index) => Operation::Data(DataOperation::LoadWideConstant(index)),
            Instruction::I2b => Operation::Compute(ComputeOperation::Coerce(Coercion::Byte)),
            Instruction::I2c => Operation::Compute(ComputeOperation::Coerce(Coercion::Char)),
            Instruction::I2s => Operation::Compute(ComputeOperation::Coerce(Coercion::Short)),
            Instruction::I2f => Operation::Compute(ComputeOperation::Coerce(Coercion::Float)),
            Instruction::I2l => Operation::Compute(ComputeOperation::Coerce(Coercion::Long)),
            Instruction::I2d => Operation::Compute(ComputeOperation::Coerce(Coercion::Double)),
            Instruction::New(index) => Operation::Heap(HeapOperation::New(index)),
            Instruction::Dup => Operation::Data(DataOperation::Dup),
            Instruction::Pop => Operation::Data(DataOperation::Pop),
            Instruction::Invokespecial(index) => Operation::Invoke(InvokeKind::Special, index),
            Instruction::Invokestatic(index) => Operation::Invoke(InvokeKind::Static, index),
            Instruction::Invokevirtual(index) => Operation::Invoke(InvokeKind::Virtual, index),
            Instruction::Return => Operation::Return,
            Instruction::Ireturn => Operation::ReturnInt,
            Instruction::Putfield(index) => Operation::Heap(HeapOperation::PutField(index)),
            Instruction::Getfield(index) => Operation::Heap(HeapOperation::GetField(index)),
            Instruction::Iadd => Operation::Compute(ComputeOperation::IntMath(IntegerOp::Add)),
            Instruction::Isub => Operation::Compute(ComputeOperation::IntMath(IntegerOp::Sub)),
            Instruction::Imul => Operation::Compute(ComputeOperation::IntMath(IntegerOp::Mul)),
            Instruction::Idiv => Operation::Compute(ComputeOperation::IntMath(IntegerOp::Div)),
            Instruction::Irem => Operation::Compute(ComputeOperation::IntMath(IntegerOp::Rem)),
            Instruction::Iand => Operation::Compute(ComputeOperation::IntMath(IntegerOp::And)),
            Instruction::Ior => Operation::Compute(ComputeOperation::IntMath(IntegerOp::Or)),
            Instruction::Ixor => Operation::Compute(ComputeOperation::IntMath(IntegerOp::Xor)),
            Instruction::Ladd => Operation::Compute(ComputeOperation::LongMath(IntegerOp::Add)),
            Instruction::Lsub => Operation::Compute(ComputeOperation::LongMath(IntegerOp::Sub)),
            Instruction::Lmul => Operation::Compute(ComputeOperation::LongMath(IntegerOp::Mul)),
            Instruction::Ldiv => Operation::Compute(ComputeOperation::LongMath(IntegerOp::Div)),
            Instruction::Lrem => Operation::Compute(ComputeOperation::LongMath(IntegerOp::Rem)),
            Instruction::Land => Operation::Compute(ComputeOperation::LongMath(IntegerOp::And)),
            Instruction::Lor => Operation::Compute(ComputeOperation::LongMath(IntegerOp::Or)),
            Instruction::Lxor => Operation::Compute(ComputeOperation::LongMath(IntegerOp::Xor)),
            Instruction::Fadd => Operation::Compute(ComputeOperation::FloatMath(FloatOp::Add)),
            Instruction::Fsub => Operation::Compute(ComputeOperation::FloatMath(FloatOp::Sub)),
            Instruction::Fmul => Operation::Compute(ComputeOperation::FloatMath(FloatOp::Mul)),
            Instruction::Fdiv => Operation::Compute(ComputeOperation::FloatMath(FloatOp::Div)),
            Instruction::Frem => Operation::Compute(ComputeOperation::FloatMath(FloatOp::Rem)),
            Instruction::Dadd => Operation::Compute(ComputeOperation::DoubleMath(FloatOp::Add)),
            Instruction::Dsub => Operation::Compute(ComputeOperation::DoubleMath(FloatOp::Sub)),
            Instruction::Dmul => Operation::Compute(ComputeOperation::DoubleMath(FloatOp::Mul)),
            Instruction::Ddiv => Operation::Compute(ComputeOperation::DoubleMath(FloatOp::Div)),
            Instruction::Drem => Operation::Compute(ComputeOperation::DoubleMath(FloatOp::Rem)),
            Instruction::Iinc(index, constant) => Operation::Data(DataOperation::Increment(spec_slot(index), spec_widen(constant))),
            Instruction::Goto(address) => Operation::Compute(ComputeOperation::Goto(address)),
            Instruction::Ifeq(address) => Operation::Compute(ComputeOperation::If(Comparison::Equal, address)),
            Instruction::Ifne(address) => Operation::Compute(ComputeOperation::If(Comparison::NotEqual, address)),
            Instruction::Iflt(address) => Operation::Compute(ComputeOperation::If(Comparison::Less, address)),
            Instruction::Ifle(address) => Operation::Compute(ComputeOperation::If(Comparison::LessOrEqual, address)),
            Instruction::Ifgt(address) => Operation::Compute(ComputeOperation::If(Comparison::Greater, address)),
            Instruction::Ifge(address) => Operation::Compute(ComputeOperation::If(Comparison::GreaterOrEqual, address)),
            Instruction::If_icmpeq(address) => Operation::Compute(ComputeOperation::IfInts(Comparison::Equal, address)),
            Instruction::If_icmpne(address) => Operation::Compute(ComputeOperation::IfInts(Comparison::NotEqual, address)),
            Instruction::If_icmplt(address) => Operation::Compute(ComputeOperation::IfInts(Comparison::Less, address)),
            Instruction::If_icmple(address) => Operation::Compute(ComputeOperation::IfInts(Comparison::LessOrEqual, address)),
            Instruction::If_icmpgt(address) => Operation::Compute(ComputeOperation::IfInts(Comparison::Greater, address)),
            Instruction::If_icmpge(address) => Operation::Compute(ComputeOperation::IfInts(Comparison::GreaterOrEqual, address)),
            Instruction::Newarray(array_type) => Operation::Heap(HeapOperation::NewArray(array_type)),
            Instruction::Anewarray(index) => Operation::Heap(HeapOperation::NewObjectArray(index)),
            Instruction::Arraylength => Operation::Heap(HeapOperation::ArrayLength),
            Instruction::Baload => Operation::Heap(HeapOperation::ArrayLoad(ArrayKind::Byte)),
            Instruction::Caload => Operation::Heap(HeapOperation::ArrayLoad(ArrayKind::Char)),
            Instruction::Saload => Operation::Heap(HeapOperation::ArrayLoad(ArrayKind::Short)),
            Instruction::Iaload => Operation::Heap(HeapOperation::ArrayLoad(ArrayKind::Int)),
            Instruction::Laload => Operation::Heap(HeapOperation::ArrayLoad(ArrayKind::Long)),
            Instruction::Faload => Operation::Heap(HeapOperation::ArrayLoad(ArrayKind::Float)),
            Instruction::Daload => Operation::Heap(HeapOperation::ArrayLoad(ArrayKind::Double)),
            Instruction::Aaload => Operation::Heap(HeapOperation::ArrayLoad(ArrayKind::Object)),
            Instruction::Bastore => Operation::Heap(HeapOperation::ArrayStore(ArrayKind::Byte)),
            Instruction::Castore => Operation::Heap(HeapOperation::ArrayStore(ArrayKind::Char)),
            Instruction::Sastore => Operation::Heap(HeapOperation::ArrayStore(ArrayKind::Short)),
            Instruction::Iastore => Operation::Heap(HeapOperation::ArrayStore(ArrayKind::Int)),
            Instruction::Lastore => Operation::Heap(HeapOperation::ArrayStore(ArrayKind::Long)),
            Instruction::Fastore => Operation::Heap(HeapOperation::ArrayStore(ArrayKind::Float)),
            Instruction::Dastore => Operation::Heap(HeapOperation::ArrayStore(ArrayKind::Double)),
            Instruction::Aastore => Operation::Heap(HeapOperation::ArrayStore(ArrayKind::Object)),
            Instruction::Unsupported => Operation::Unsupported,
        }
    }

    /// What the instruction does.
    pub fn operation(self) -> (operation: Operation)
        ensures
            operation == self.spec_operation(),
    {
        match self {
            Instruction::Aconst_null => Operation::Data(DataOperation::Push(Value::Null)),
            Instruction::Aload(index) => Operation::Data(DataOperation::Load(ValueKind::Reference, slot(index))),
            Instruction::Aload_0 => Operation::Data(DataOperation::Load(ValueKind::Reference, 0)),
            Instruction::Aload_1 => Operation::Data(DataOperation::Load(ValueKind::Reference, 1)),
            Instruction::Aload_2 => Operation::Data(DataOperation::Load(ValueKind::Reference, 2)),
            Instruction::Aload_3 => Operation::Data(DataOperation::Load(ValueKind::Reference, 3)),
            Instruction::Astore(index) => Operation::Data(DataOperation::Store(ValueKind::Reference, slot(index))),
            Instruction::Astore_0 => Operation::Data(DataOperation::Store(ValueKind::Reference, 0)),
            Instruction::Astore_1 => Operation::Data(DataOperation::Store(ValueKind::Reference, 1)),
            Instruction::Astore_2 => Operation::Data(DataOperation::Store(ValueKind::Reference, 2)),
            Instruction::Astore_3 => Operation::Data(DataOperation::Store(ValueKind::Reference, 3)),
            Instruction::Iload(index) => Operation::Data(DataOperation::Load(ValueKind::Int, slot(index))),
            Instruction::Iload_0 => Operation::Data(DataOperation::Load(ValueKind::Int, 0)),
            Instruction::Iload_1 => Operation::Data(DataOperation::Load(ValueKind::Int, 1)),
            Instruction::Iload_2 => Operation::Data(DataOperation::Load(ValueKind::Int, 2)),
            Instruction::Iload_3 => Operation::Data(DataOperation::Load(ValueKind::Int, 3)),
            Instruction::Istore(index) => Operation::Data(DataOperation::Store(ValueKind::Int, slot(index))),
            Instruction::Istore_0 => Operation::Data(DataOperation::Store(ValueKind::Int, 0)),
            Instruction::Istore_1 => Operation::Data(DataOperation::Store(ValueKind::Int, 1)),
            Instruction::Istore_2 => Operation::Data(DataOperation::Store(ValueKind::Int, 2)),
            Instruction::Istore_3 => Operation::Data(DataOperation::Store(ValueKind::Int, 3)),
            Instruction::Lload(index) => Operation::Data(DataOperation::Load(ValueKind::Long, slot(index))),
            Instruction::Lload_0 => Operation::Data(DataOperation::Load(ValueKind::Long, 0)),
            Instruction::Lload_1 => Operation::Data(DataOperation::Load(ValueKind::Long, 1)),
            Instruction::Lload_2 => Operation::Data(DataOperation::Load(ValueKind::Long, 2)),
            Instruction::Lload_3 => Operation::Data(DataOperation::Load(ValueKind::Long, 3)),
            Instruction::Lstore(index) => Operation::Data(DataOperation::Store(ValueKind::Long, slot(index))),
            Instruction::Lstore_0 => Operation::Data(DataOperation::Store(ValueKind::Long, 0)),
            Instruction::Lstore_1 => Operation::Data(DataOperation::Store(ValueKind::Long, 1)),
            Instruction::Lstore_2 => Operation::Data(DataOperation::Store(ValueKind::Long, 2)),
            Instruction::Lstore_3 => Operation::Data(DataOperation::Store(ValueKind::Long, 3)),
            Instruction::Fload(index) => Operation::Data(DataOperation::Load(ValueKind::Float, slot(index))),
            Instruction::Fload_0 => Operation::Data(DataOperation::Load(ValueKind::Float, 0)),
            Instruction::Fload_1 => Operation::Data(DataOperation::Load(ValueKind::Float, 1)),
            Instruction::Fload_2 => Operation::Data(DataOperation::Load(ValueKind::Float, 2)),
            Instruction::Fload_3 => Operation::Data(DataOperation::Load(ValueKind::Float, 3)),
            Instruction::Fstore(index) => Operation::Data(DataOperation::Store(ValueKind::Float, slot(index))),
            Instruction::Fstore_0 => Operation::Data(DataOperation::Store(ValueKind::Float, 0)),
            Instruction::Fstore_1 => Operation::Data(DataOperation::Store(ValueKind::Float, 1)),
            Instruction::Fstore_2 => Operation::Data(DataOperation::Store(ValueKind::Float, 2)),
            Instruction::Fstore_3 => Operation::Data(DataOperation::Store(ValueKind::Float, 3)),
            Instruction::Dload(index) => Operation::Data(DataOperation::Load(ValueKind::Double, slot(index))),
            Instruction::Dload_0 => Operation::Data(DataOperation::Load(ValueKind::Double, 0)),
            Instruction::Dload_1 => Operation::Data(DataOperation::Load(ValueKind::Double, 1)),
            Instruction::Dload_2 => Operation::Data(DataOperation::Load(ValueKind::Double, 2)),
            Instruction::Dload_3 => Operation::Data(DataOperation::Load(ValueKind::Double, 3)),
            Instruction::Dstore(index) => Operation::Data(DataOperation::Store(ValueKind::Double, slot(index))),
            Instruction::Dstore_0 => Operation::Data(DataOperation::Store(ValueKind::Double, 0)),
            Instruction::Dstore_1 => Operation::Data(DataOperation::Store(ValueKind::Double, 1)),
            Instruction::Dstore_2 => Operation::Data(DataOperation::Store(ValueKind::Double, 2)),
            Instruction::Dstore_3 => Operation::Data(DataOperation::Store(ValueKind::Double, 3)),
            Instruction::Iconst_m1 => Operation::Data(DataOperation::Push(Value::Int(MINUS_ONE))),
            Instruction::Iconst_0 => Operation::Data(DataOperation::Push(Value::Int(0))),
            Instruction::Iconst_1 => Operation::Data(DataOperation::Push(Value::Int(1))),
            Instruction::Iconst_2 => Operation::Data(DataOperation::Push(Value::Int(2))),
            Instruction::Iconst_3 => Operation::Data(DataOperation::Push(Value::Int(3))),
            Instruction::Iconst_4 => Operation::Data(DataOperation::Push(Value::Int(4))),
            Instruction::Iconst_5 => Operation::Data(DataOperation::Push(Value::Int(5))),
            Instruction::Lconst_0 => Operation::Data(DataOperation::Push(Value::Long(0))),
            Instruction::Lconst_1 => Operation::Data(DataOperation::Push(Value::Long(1))),
            Instruction::Fconst_0 => Operation::Data(DataOperation::Push(Value::Float(SINGLE_ZERO))),
            Instruction::Fconst_1 => Operation::Data(DataOperation::Push(Value::Float(SINGLE_ONE))),
            Instruction::Fconst_2 => Operation::Data(DataOperation::Push(Value::Float(SINGLE_TWO))),
            Instruction::Dconst_0 => Operation::Data(DataOperation::Push(Value::Double(DOUBLE_ZERO))),
            Instruction::Dconst_1 => Operation::Data(DataOperation::Push(Value::Double(DOUBLE_ONE))),
            Instruction::Bipush(number) => Operation::Data(DataOperation::Push(Value::Int(widen(number)))),
            Instruction::Ldc(index) => Operation::Data(DataOperation::LoadConstant(constant_index(index))),
            Instruction::Ldc_w(index) => Operation::Data(DataOperation::LoadConstant(index)),
            Instruction::Ldc2_w(index) => Operation::Data(DataOperation::LoadWideConstant(index)),
            Instruction::I2b => Operation::Compute(ComputeOperation::Coerce(Coercion::Byte)),
            Instruction::I2c => Operation::Compute(ComputeOperation::Coerce(Coercion::Char)),
            Instruction::I2s => Operation::Compute(ComputeOperation::Coerce(Coercion::Short)),
            Instruction::I2f => Operation::Compute(ComputeOperation::Coerce(Coercion::Float)),
            Instruction::I2l => Operation::Compute(ComputeOperation::Coerce(Coercion::Long)),
            Instruction::I2d => Operation::Compute(ComputeOperation::Coerce(Coercion::Double)),
            Instruction::New(index) => Operation::Heap(HeapOperation::New(index)),
            Instruction::Dup => Operation::Data(DataOperation::Dup),
            Instruction::Pop => Operation::Data(DataOperation::Pop),
            Instruction::Invokespecial(index) => Operation::Invoke(InvokeKind::Special, index),
            Instruction::Invokestatic(index) => Operation::Invoke(InvokeKind::Static, index),
            Instruction::Invokevirtual(index) => Operation::Invoke(InvokeKind::Virtual, index),
            Instruction::Return => Operation::Return,
            Instruction::Ireturn => Operation::ReturnInt,
            Instruction::Putfield(index) => Operation::Heap(HeapOperation::PutField(index)),
            Instruction::Getfield(index) => Operation::Heap(HeapOperation::GetField(index)),
            Instruction::Iadd => Operation::Compute(ComputeOperation::IntMath(IntegerOp::Add)),
            Instruction::Isub => Operation::Compute(ComputeOperation::IntMath(IntegerOp::Sub)),
            Instruction::Imul => Operation::Compute(ComputeOperation::IntMath(IntegerOp::Mul)),
            Instruction::Idiv => Operation::Compute(ComputeOperation::IntMath(IntegerOp::Div)),
            Instruction::Irem => Operation::Compute(ComputeOperation::IntMath(IntegerOp::Rem)),
            Instruction::Iand => Operation::Compute(ComputeOperation::IntMath(IntegerOp::And)),
            Instruction::Ior => Operation::Compute(ComputeOperation::IntMath(IntegerOp::Or)),
            Instruction::Ixor => Operation::Compute(ComputeOperation::IntMath(IntegerOp::Xor)),
            Instruction::Ladd => Operation::Compute(ComputeOperation::LongMath(IntegerOp::Add)),
            Instruction::Lsub => Operation::Compute(ComputeOperation::LongMath(IntegerOp::Sub)),
            Instruction::Lmul => Operation::Compute(ComputeOperation::LongMath(IntegerOp::Mul)),
            Instruction::Ldiv => Operation::Compute(ComputeOperation::LongMath(IntegerOp::Div)),
            Instruction::Lrem => Operation::Compute(ComputeOperation::LongMath(IntegerOp::Rem)),
            Instruction::Land => Operation::Compute(ComputeOperation::LongMath(IntegerOp::And)),
            Instruction::Lor => Operation::Compute(ComputeOperation::LongMath(IntegerOp::Or)),
            Instruction::Lxor => Operation::Compute(ComputeOperation::LongMath(IntegerOp::Xor)),
            Instruction::Fadd => Operation::Compute(ComputeOperation::FloatMath(FloatOp::Add)),
            Instruction::Fsub => Operation::Compute(ComputeOperation::FloatMath(FloatOp::Sub)),
            Instruction::Fmul => Operation::Compute(ComputeOperation::FloatMath(FloatOp::Mul)),
            Instruction::Fdiv => Operation::Compute(ComputeOperation::FloatMath(FloatOp::Div)),
            Instruction::Frem => Operation::Compute(ComputeOperation::FloatMath(FloatOp::Rem)),
            Instruction::Dadd => Operation::Compute(ComputeOperation::DoubleMath(FloatOp::Add)),
            Instruction::Dsub => Operation::Compute(ComputeOperation::DoubleMath(FloatOp::Sub)),
            Instruction::Dmul => Operation::Compute(ComputeOperation::DoubleMath(FloatOp::Mul)),
            Instruction::Ddiv => Operation::Compute(ComputeOperation::DoubleMath(FloatOp::Div)),
            Instruction::Drem => Operation::Compute(ComputeOperation::DoubleMath(FloatOp::Rem)),
            Instruction::Iinc(index, constant) => Operation::Data(DataOperation::Increment(slot(index), widen(constant))),
            Instruction::Goto(address) => Operation::Compute(ComputeOperation::Goto(address)),
            Instruction::Ifeq(address) => Operation::Compute(ComputeOperation::If(Comparison::Equal, address)),
            Instruction::Ifne(address) => Operation::Compute(ComputeOperation::If(Comparison::NotEqual, address)),
            Instruction::Iflt(address) => Operation::Compute(ComputeOperation::If(Comparison::Less, address)),
            Instruction::Ifle(address) => Operation::Compute(ComputeOperation::If(Comparison::LessOrEqual, address)),
            Instruction::Ifgt(address) => Operation::Compute(ComputeOperation::If(Comparison::Greater, address)),
            Instruction::Ifge(address) => Operation::Compute(ComputeOperation::If(Comparison::GreaterOrEqual, address)),
            Instruction::If_icmpeq(address) => Operation::Compute(ComputeOperation::IfInts(Comparison::Equal, address)),
            Instruction::If_icmpne(address) => Operation::Compute(ComputeOperation::IfInts(Comparison::NotEqual, address)),
            Instruction::If_icmplt(address) => Operation::Compute(ComputeOperation::IfInts(Comparison::Less, address)),
            Instruction::If_icmple(address) => Operation::Compute(ComputeOperation::IfInts(Comparison::LessOrEqual, address)),
            Instruction::If_icmpgt(address) => Operation::Compute(ComputeOperation::IfInts(Comparison::Greater, address)),
            Instruction::If_icmpge(address) => Operation::Compute(ComputeOperation::IfInts(Comparison::GreaterOrEqual, address)),
            Instruction::Newarray(array_type) => Operation::Heap(HeapOperation::NewArray(array_type)),
            Instruction::Anewarray(index) => Operation::Heap(HeapOperation::NewObjectArray(index)),
            Instruction::Arraylength => Operation::Heap(HeapOperation::ArrayLength),
            Instruction::Baload => Operation::Heap(HeapOperation::ArrayLoad(ArrayKind::Byte)),
            Instruction::Caload => Operation::Heap(HeapOperation::ArrayLoad(ArrayKind::Char)),
            Instruction::Saload => Operation::Heap(HeapOperation::ArrayLoad(ArrayKind::Short)),
            Instruction::Iaload => Operation::Heap(HeapOperation::ArrayLoad(ArrayKind::Int)),
            Instruction::Laload => Operation::Heap(HeapOperation::ArrayLoad(ArrayKind::Long)),
            Instruction::Faload => Operation::Heap(HeapOperation::ArrayLoad(ArrayKind::Float)),
            Instruction::Daload => Operation::Heap(HeapOperation::ArrayLoad(ArrayKind::Double)),
            Instruction::Aaload => Operation::Heap(HeapOperation::ArrayLoad(ArrayKind::Object)),
            Instruction::Bastore => Operation::Heap(HeapOperation::ArrayStore(ArrayKind::Byte)),
            Instruction::Castore => Operation::Heap(HeapOperation::ArrayStore(ArrayKind::Char)),
            Instruction::Sastore => Operation::Heap(HeapOperation::ArrayStore(ArrayKind::Short)),
            Instruction::Iastore => Operation::Heap(HeapOperation::ArrayStore(ArrayKind::Int)),
            Instruction::Lastore => Operation::Heap(HeapOperation::ArrayStore(ArrayKind::Long)),
            Instruction::Fastore => Operation::Heap(HeapOperation::ArrayStore(ArrayKind::Float)),
            Instruction::Dastore => Operation::Heap(HeapOperation::ArrayStore(ArrayKind::Double)),
            Instruction::Aastore => Operation::Heap(HeapOperation::ArrayStore(ArrayKind::Object)),
            Instruction::Unsupported => Operation::Unsupported,
        }
    }
}

/// The code of a method, decoded: for each address, the instruction that starts there and the
/// address that follows it, if an instruction can be decoded at that address.
#[derive(Debug)]
pub struct DecodedCode {
    pub instructions: Vec<Option<(Instruction, usize)>>,
}

impl DecodedCode {
    /// The instruction at an address, and the address that follows it.
    pub open spec fn at(&self, address: int) -> Option<(Instruction, usize)> {
        if 0 <= address < self.instructions@.len() {
            self.instructions@[address]
        } else {
            None
        }
    }

    /// Decodes code with a parser for single instructions: the parser is asked about every
    /// address of the code.
    pub fn decode<P: Fn(&Vec<u8>, usize) -> Option<(Instruction, usize)>>(
        code: &Vec<u8>,
        parser: P,
    ) -> (decoded: DecodedCode)
        requires
            forall|address: usize| address < code@.len() ==> call_requires(parser, (code, address)),
        ensures
            decoded.instructions@.len() == code@.len(),
            forall|address: usize|
                address < code@.len() ==> call_ensures(
                    parser,
                    (code, address),
                    #[trigger] decoded.at(address as int),
                ),
    {
        let mut instructions: Vec<Option<(Instruction, usize)>> = Vec::new();
        let mut address: usize = 0;
        while address < code.len()
            invariant
                address <= code@.len(),
                instructions@.len() == address,
                forall|a: usize| a < code@.len() ==> call_requires(parser, (code, a)),
                forall|a: usize|
                    a < address ==> call_ensures(parser, (code, a), #[trigger] instructions@[a as int]),
            decreases code@.len() - address,
        {
            let parsed = parser(code, address);
            instructions.push(parsed);
            address += 1;
        }
        DecodedCode { instructions }
    }

    /// Fetches the instruction at an address, and the address that follows it.
    pub fn fetch(&self, address: usize) -> (instruction: Option<(Instruction, usize)>)
        ensures
            instruction == self.at(address as int),
    {
        if address < self.instructions.len() {
            self.instructions[address]
        } else {
            None
        }
    }
}

} // verus!
