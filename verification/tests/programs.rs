use rjvm::call_frame::CallFrame;
use rjvm::class::{ClassAndMethod, ClassId};
use rjvm::class_file::{
    ClassFile, ClassFileField, ClassFileMethod, ClassFileMethodCode, ConstantPool,
    ConstantPoolEntry, MethodFlags,
};
use rjvm::field_type::{BaseType, FieldType};
use rjvm::float::{DoubleMath, FloatOp, FloatUnit, SingleMath, DOUBLE_NAN, SINGLE_NAN};
use rjvm::instruction::{DecodedCode, Instruction, NewArrayType};
use rjvm::stack::Stack;
use rjvm::value::{ObjectRef, Value};
use rjvm::vm::{DebugStats, Vm};
use rjvm::vm_error::{Stop, VmError};
use std::rc::Rc;

fn single(math: SingleMath) -> u32 {
    match math {
        SingleMath::FromInt(value) => (value as f32).to_bits(),
        SingleMath::Binary(op, a, b) => {
            let (a, b) = (f32::from_bits(a), f32::from_bits(b));
            let result = match op {
                FloatOp::Add => a + b,
                FloatOp::Sub => a - b,
                FloatOp::Mul => a * b,
                FloatOp::Div => a / b,
                FloatOp::Rem => a % b,
            };
            result.to_bits()
        }
    }
}

fn double(math: DoubleMath) -> u64 {
    match math {
        DoubleMath::FromInt(value) => (value as f64).to_bits(),
        DoubleMath::Binary(op, a, b) => {
            let (a, b) = (f64::from_bits(a), f64::from_bits(b));
            let result = match op {
                FloatOp::Add => a + b,
                FloatOp::Sub => a - b,
                FloatOp::Mul => a * b,
                FloatOp::Div => a / b,
                FloatOp::Rem => a % b,
            };
            result.to_bits()
        }
    }
}

fn int_type() -> FieldType {
    FieldType::Base(BaseType::Int)
}

/// Each instruction takes one address.
fn code(instructions: &[Instruction], max_locals: u16) -> ClassFileMethodCode {
    let decoded = instructions
        .iter()
        .enumerate()
        .map(|(address, instruction)| Some((*instruction, address + 1)))
        .collect();
    ClassFileMethodCode {
        max_stack: 8,
        max_locals,
        code: Rc::new(DecodedCode { instructions: decoded }),
    }
}

fn method(
    name: &str,
    is_static: bool,
    parameters: Vec<FieldType>,
    return_type: Option<FieldType>,
    instructions: &[Instruction],
    max_locals: u16,
) -> Rc<ClassFileMethod> {
    Rc::new(ClassFileMethod {
        flags: MethodFlags { is_static, is_native: false },
        name: name.to_string(),
        type_descriptor: "T".to_string(),
        parameters,
        return_type,
        code: Some(code(instructions, max_locals)),
    })
}

fn native(name: &str) -> Rc<ClassFileMethod> {
    Rc::new(ClassFileMethod {
        flags: MethodFlags { is_static: true, is_native: true },
        name: name.to_string(),
        type_descriptor: "T".to_string(),
        parameters: vec![int_type()],
        return_type: None,
        code: None,
    })
}

fn field(name: &str, type_descriptor: FieldType) -> Rc<ClassFileField> {
    Rc::new(ClassFileField { name: name.to_string(), type_descriptor })
}

fn utf8(text: &str) -> Option<ConstantPoolEntry> {
    Some(ConstantPoolEntry::Utf8(text.to_string()))
}

/// The constants that a reference to a member takes up, from a first index on.
fn member(first: u16, class: &str, name: &str, is_method: bool) -> Vec<Option<ConstantPoolEntry>> {
    vec![
        Some(if is_method {
            ConstantPoolEntry::MethodReference(first + 1, first + 3)
        } else {
            ConstantPoolEntry::FieldReference(first + 1, first + 3)
        }),
        Some(ConstantPoolEntry::ClassReference(first + 2)),
        utf8(class),
        Some(ConstantPoolEntry::NameAndTypeDescriptor(first + 4, first + 5)),
        utf8(name),
        utf8("T"),
    ]
}

fn class_file(
    name: &str,
    superclass: Option<&str>,
    constants: Vec<Option<ConstantPoolEntry>>,
    fields: Vec<Rc<ClassFileField>>,
    methods: Vec<Rc<ClassFileMethod>>,
) -> ClassFile {
    ClassFile {
        name: name.to_string(),
        superclass: superclass.map(|name| name.to_string()),
        interfaces: vec![],
        constants: ConstantPool { entries: constants },
        fields,
        methods,
    }
}

fn call(
    vm: &mut Vm,
    class: &str,
    name: &str,
    object: Option<ObjectRef>,
    args: Vec<Value>,
    budget: u64,
) -> Result<Option<Value>, Stop> {
    let floats = FloatUnit { single, double };
    let mut stack = vm.allocate_stack();
    let class_and_method = vm.find_class_method(class, name, "T").unwrap();
    let result = vm.invoke_bounded(&mut stack, class_and_method, object, args, &floats, budget);
    if !matches!(result, Err(Stop::Fault) | Err(Stop::OutOfBudget)) {
        assert_eq!(stack.frames.len(), 0);
    }
    result
}

/// Runs the instructions as the method of a class without constants.
fn run(instructions: &[Instruction], locals: Vec<Value>) -> Result<Option<Value>, Stop> {
    run_with(instructions, locals, vec![])
}

fn run_with(
    instructions: &[Instruction],
    locals: Vec<Value>,
    constants: Vec<Option<ConstantPoolEntry>>,
) -> Result<Option<Value>, Stop> {
    let mut vm = Vm::new();
    let parameters = locals.iter().map(|_| int_type()).collect();
    let main = method("main", true, parameters, Some(int_type()), instructions, 4);
    vm.load_class(class_file("Main", None, constants, vec![], vec![main])).unwrap();
    call(&mut vm, "Main", "main", None, locals, 10_000)
}

fn ok(value: Value) -> Result<Option<Value>, Stop> {
    Ok(Some(value))
}

fn error(error: VmError) -> Result<Option<Value>, Stop> {
    Err(Stop::Error(error))
}

fn invalid() -> Result<Option<Value>, Stop> {
    error(VmError::ValidationException)
}

/// Runs an instruction on two values.
fn binary(instruction: Instruction, a: Value, b: Value) -> Result<Option<Value>, Stop> {
    let load = |value: Value, index: u8| match value {
        Value::Int(_) => Instruction::Iload(index),
        Value::Long(_) => Instruction::Lload(index),
        Value::Float(_) => Instruction::Fload(index),
        _ => Instruction::Dload(index),
    };
    run(&[load(a, 0), load(b, 1), instruction, Instruction::Ireturn], vec![a, b])
}

fn f(value: f32) -> Value {
    Value::Float(value.to_bits())
}

fn d(value: f64) -> Value {
    Value::Double(value.to_bits())
}

#[test]
fn integer_arithmetic() {
    let int_op = |i, a, b| binary(i, Value::Int(a), Value::Int(b));
    assert_eq!(int_op(Instruction::Iadd, 40, 2), ok(Value::Int(42)));
    assert_eq!(int_op(Instruction::Iadd, i32::MAX, 1), ok(Value::Int(i32::MIN)));
    assert_eq!(int_op(Instruction::Isub, 2, 5), ok(Value::Int(-3)));
    assert_eq!(int_op(Instruction::Isub, i32::MIN, 1), ok(Value::Int(i32::MAX)));
    assert_eq!(int_op(Instruction::Imul, 65536, 65537), ok(Value::Int(65536)));
    assert_eq!(int_op(Instruction::Idiv, -7, 2), ok(Value::Int(-3)));
    assert_eq!(int_op(Instruction::Irem, -7, 2), ok(Value::Int(-1)));
    assert_eq!(int_op(Instruction::Idiv, 7, -2), ok(Value::Int(-3)));
    assert_eq!(int_op(Instruction::Irem, 7, -2), ok(Value::Int(1)));
    assert_eq!(int_op(Instruction::Iand, 12, 10), ok(Value::Int(8)));
    assert_eq!(int_op(Instruction::Ior, 12, 10), ok(Value::Int(14)));
    assert_eq!(int_op(Instruction::Ixor, 12, 10), ok(Value::Int(6)));
    assert_eq!(int_op(Instruction::Idiv, 1, 0), error(VmError::ArithmeticException));
    assert_eq!(int_op(Instruction::Irem, 1, 0), error(VmError::ArithmeticException));
    assert_eq!(int_op(Instruction::Idiv, i32::MIN, -1), Err(Stop::Fault));
    assert_eq!(int_op(Instruction::Irem, i32::MIN, -1), Err(Stop::Fault));
}

#[test]
fn long_arithmetic() {
    let long_op = |i, a, b| binary(i, Value::Long(a), Value::Long(b));
    assert_eq!(long_op(Instruction::Ladd, i64::MAX, 1), ok(Value::Long(i64::MIN)));
    assert_eq!(long_op(Instruction::Lsub, 1, 2), ok(Value::Long(-1)));
    assert_eq!(long_op(Instruction::Lmul, 1 << 40, 1 << 20), ok(Value::Long(1 << 60)));
    assert_eq!(long_op(Instruction::Ldiv, -9, 4), ok(Value::Long(-2)));
    assert_eq!(long_op(Instruction::Lrem, -9, 4), ok(Value::Long(-1)));
    assert_eq!(long_op(Instruction::Land, 12, 10), ok(Value::Long(8)));
    assert_eq!(long_op(Instruction::Lor, 12, 10), ok(Value::Long(14)));
    assert_eq!(long_op(Instruction::Lxor, 12, 10), ok(Value::Long(6)));
    assert_eq!(long_op(Instruction::Ldiv, 1, 0), error(VmError::ArithmeticException));
    assert_eq!(long_op(Instruction::Lrem, i64::MIN, -1), Err(Stop::Fault));
}

#[test]
fn float_arithmetic() {
    assert_eq!(binary(Instruction::Fadd, f(1.5), f(2.25)), ok(f(3.75)));
    assert_eq!(binary(Instruction::Fsub, f(1.5), f(2.25)), ok(f(-0.75)));
    assert_eq!(binary(Instruction::Fmul, f(1.5), f(2.0)), ok(f(3.0)));
    assert_eq!(binary(Instruction::Fdiv, f(3.0), f(2.0)), ok(f(1.5)));
    assert_eq!(binary(Instruction::Frem, f(5.5), f(2.0)), ok(f(1.5)));
    assert_eq!(binary(Instruction::Fdiv, f(1.0), f(0.0)), ok(f(f32::INFINITY)));
    for (a, b) in [
        (0.0, -0.0),
        (f32::NAN, 1.0),
        (1.0, f32::NAN),
        (f32::INFINITY, f32::NEG_INFINITY),
    ] {
        assert_eq!(binary(Instruction::Fdiv, f(a), f(b)), ok(Value::Float(SINGLE_NAN)));
        assert_eq!(binary(Instruction::Frem, f(a), f(b)), ok(Value::Float(SINGLE_NAN)));
    }
}

#[test]
fn double_arithmetic() {
    assert_eq!(binary(Instruction::Dadd, d(1.5), d(2.25)), ok(d(3.75)));
    assert_eq!(binary(Instruction::Dsub, d(1.5), d(2.25)), ok(d(-0.75)));
    assert_eq!(binary(Instruction::Dmul, d(1.5), d(2.0)), ok(d(3.0)));
    assert_eq!(binary(Instruction::Ddiv, d(3.0), d(2.0)), ok(d(1.5)));
    assert_eq!(binary(Instruction::Drem, d(5.5), d(2.0)), ok(d(1.5)));
    assert_eq!(binary(Instruction::Ddiv, d(-1.0), d(0.0)), ok(d(f64::NEG_INFINITY)));
    for (a, b) in [
        (-0.0, 0.0),
        (f64::NAN, 1.0),
        (1.0, f64::NAN),
        (f64::NEG_INFINITY, f64::INFINITY),
    ] {
        assert_eq!(binary(Instruction::Ddiv, d(a), d(b)), ok(Value::Double(DOUBLE_NAN)));
        assert_eq!(binary(Instruction::Drem, d(a), d(b)), ok(Value::Double(DOUBLE_NAN)));
    }
}

#[test]
fn not_a_number_constants_are_those_of_the_host() {
    assert!(f32::from_bits(SINGLE_NAN).is_nan());
    assert!(f64::from_bits(DOUBLE_NAN).is_nan());
}

#[test]
fn conversions() {
    let convert = |instruction, value| {
        run(&[Instruction::Iload_0, instruction, Instruction::Ireturn], vec![Value::Int(value)])
    };
    assert_eq!(convert(Instruction::I2b, 200), ok(Value::Int(-56)));
    assert_eq!(convert(Instruction::I2b, -56), ok(Value::Int(-56)));
    assert_eq!(convert(Instruction::I2c, -1), ok(Value::Int(65535)));
    assert_eq!(convert(Instruction::I2s, 32768), ok(Value::Int(-32768)));
    assert_eq!(convert(Instruction::I2l, -5), ok(Value::Long(-5)));
    assert_eq!(convert(Instruction::I2f, 16777217), ok(f(16777216.0)));
    assert_eq!(convert(Instruction::I2d, -3), ok(d(-3.0)));
    assert_eq!(run(&[Instruction::Lconst_0, Instruction::I2l], vec![]), invalid());
}

#[test]
fn identity_conversions() {
    assert_eq!(CallFrame::i2i(-4), Value::Int(-4));
    assert_eq!(CallFrame::l2l(1 << 40), Value::Long(1 << 40));
    assert_eq!(CallFrame::f2f(1.5f32.to_bits()), f(1.5));
    assert_eq!(CallFrame::d2d(1.5f64.to_bits()), d(1.5));
}

#[test]
fn constants_are_pushed() {
    let push = |instruction| run(&[instruction, Instruction::Ireturn], vec![]);
    assert_eq!(push(Instruction::Aconst_null), ok(Value::Null));
    assert_eq!(push(Instruction::Iconst_m1), ok(Value::Int(-1)));
    assert_eq!(push(Instruction::Iconst_0), ok(Value::Int(0)));
    assert_eq!(push(Instruction::Iconst_5), ok(Value::Int(5)));
    assert_eq!(push(Instruction::Lconst_1), ok(Value::Long(1)));
    assert_eq!(push(Instruction::Fconst_0), ok(f(0.0)));
    assert_eq!(push(Instruction::Fconst_1), ok(f(1.0)));
    assert_eq!(push(Instruction::Fconst_2), ok(f(2.0)));
    assert_eq!(push(Instruction::Dconst_0), ok(d(0.0)));
    assert_eq!(push(Instruction::Dconst_1), ok(d(1.0)));
    assert_eq!(push(Instruction::Bipush(-100)), ok(Value::Int(-100)));
}

#[test]
fn constants_are_loaded_from_the_pool() {
    let constants = || {
        vec![
            None,
            Some(ConstantPoolEntry::Integer(77)),
            Some(ConstantPoolEntry::Float(2.5f32.to_bits())),
            Some(ConstantPoolEntry::Long(1 << 40)),
            Some(ConstantPoolEntry::Double(2.5f64.to_bits())),
            Some(ConstantPoolEntry::Other),
        ]
    };
    let load = |instruction| run_with(&[instruction, Instruction::Ireturn], vec![], constants());
    assert_eq!(load(Instruction::Ldc(1)), ok(Value::Int(77)));
    assert_eq!(load(Instruction::Ldc_w(2)), ok(f(2.5)));
    assert_eq!(load(Instruction::Ldc2_w(3)), ok(Value::Long(1 << 40)));
    assert_eq!(load(Instruction::Ldc2_w(4)), ok(d(2.5)));
    assert_eq!(load(Instruction::Ldc(0)), invalid());
    assert_eq!(load(Instruction::Ldc(3)), invalid());
    assert_eq!(load(Instruction::Ldc(5)), invalid());
    assert_eq!(load(Instruction::Ldc2_w(1)), invalid());
    assert_eq!(load(Instruction::Ldc_w(6)), invalid());
}

#[test]
fn locals_are_loaded_and_stored() {
    let move_int = [
        Instruction::Iload_0,
        Instruction::Istore_3,
        Instruction::Iload_3,
        Instruction::Ireturn,
    ];
    assert_eq!(run(&move_int, vec![Value::Int(9)]), ok(Value::Int(9)));
    assert_eq!(run(&[Instruction::Iload(1)], vec![Value::Int(9)]), invalid());
    assert_eq!(run(&[Instruction::Iload(9)], vec![Value::Int(9)]), invalid());
    assert_eq!(run(&[Instruction::Lload_0], vec![Value::Int(9)]), invalid());
    assert_eq!(run(&[Instruction::Aload_0], vec![Value::Null]), invalid());
    assert_eq!(run(&[Instruction::Aconst_null, Instruction::Astore_0], vec![]), invalid());
    assert_eq!(run(&[Instruction::Istore_0], vec![]), invalid());
    assert_eq!(run(&[Instruction::Iconst_1, Instruction::Istore(4)], vec![]), Err(Stop::Fault));
    assert_eq!(run(&[Instruction::Lconst_1, Instruction::Istore(4)], vec![]), invalid());
}

#[test]
fn dup_and_pop() {
    let square = [Instruction::Iload_0, Instruction::Dup, Instruction::Imul, Instruction::Ireturn];
    assert_eq!(run(&square, vec![Value::Int(12)]), ok(Value::Int(144)));
    let drop = [
        Instruction::Iconst_1,
        Instruction::Iconst_2,
        Instruction::Dup,
        Instruction::Pop,
        Instruction::Pop,
        Instruction::Ireturn,
    ];
    assert_eq!(run(&drop, vec![]), ok(Value::Int(1)));
    assert_eq!(run(&[Instruction::Dup], vec![]), invalid());
    assert_eq!(run(&[Instruction::Pop], vec![]), invalid());
}

#[test]
fn a_loop_sums_up() {
    let sum = [
        Instruction::Iconst_0,
        Instruction::Istore_1,
        Instruction::Iload_0,
        Instruction::Ifle(9),
        Instruction::Iload_1,
        Instruction::Iload_0,
        Instruction::Iadd,
        Instruction::Istore_1,
        Instruction::Goto(11),
        Instruction::Iload_1,
        Instruction::Ireturn,
        Instruction::Iinc(0, -1),
        Instruction::Goto(2),
    ];
    assert_eq!(run(&sum, vec![Value::Int(10)]), ok(Value::Int(55)));
    assert_eq!(run(&sum, vec![Value::Int(-10)]), ok(Value::Int(0)));
    assert_eq!(run(&[Instruction::Iinc(0, 1)], vec![Value::Null]), invalid());
    let wrap = [Instruction::Iinc(0, 1), Instruction::Iload_0, Instruction::Ireturn];
    assert_eq!(run(&wrap, vec![Value::Int(i32::MAX)]), ok(Value::Int(i32::MIN)));
}

#[test]
fn comparisons_decide_jumps() {
    let jumps = |comparison: Instruction, values: Vec<Value>| {
        let mut program = vec![Instruction::Iload_0];
        if values.len() == 2 {
            program.push(Instruction::Iload_1);
        } else {
            program.push(Instruction::Goto(2));
        }
        program.extend([
            comparison,
            Instruction::Iconst_0,
            Instruction::Ireturn,
            Instruction::Iconst_1,
            Instruction::Ireturn,
        ]);
        run(&program, values) == ok(Value::Int(1))
    };
    let zero: [(fn(u16) -> Instruction, [bool; 3]); 6] = [
        (Instruction::Ifeq, [false, true, false]),
        (Instruction::Ifne, [true, false, true]),
        (Instruction::Iflt, [true, false, false]),
        (Instruction::Ifle, [true, true, false]),
        (Instruction::Ifgt, [false, false, true]),
        (Instruction::Ifge, [false, true, true]),
    ];
    for (comparison, expected) in zero {
        for (value, jump) in [-1, 0, 1].into_iter().zip(expected) {
            assert_eq!(jumps(comparison(5), vec![Value::Int(value)]), jump);
        }
    }
    let pairs: [(fn(u16) -> Instruction, [bool; 3]); 6] = [
        (Instruction::If_icmpeq, [false, true, false]),
        (Instruction::If_icmpne, [true, false, true]),
        (Instruction::If_icmplt, [true, false, false]),
        (Instruction::If_icmple, [true, true, false]),
        (Instruction::If_icmpgt, [false, false, true]),
        (Instruction::If_icmpge, [false, true, true]),
    ];
    for (comparison, expected) in pairs {
        for (value, jump) in [6, 7, 8].into_iter().zip(expected) {
            assert_eq!(jumps(comparison(5), vec![Value::Int(value), Value::Int(7)]), jump);
        }
    }
}

#[test]
fn code_that_cannot_be_decoded_is_invalid() {
    assert_eq!(run(&[], vec![]), invalid());
    assert_eq!(run(&[Instruction::Iconst_0], vec![]), invalid());
    assert_eq!(run(&[Instruction::Goto(1000)], vec![]), invalid());
    assert_eq!(run(&[Instruction::Unsupported], vec![]), error(VmError::NotImplemented));
}

#[test]
fn results_must_have_the_declared_type() {
    assert_eq!(run(&[Instruction::Return], vec![]), invalid());
    assert_eq!(run(&[Instruction::Ireturn], vec![]), invalid());
    let mut vm = Vm::new();
    let methods = vec![
        method("void", true, vec![], None, &[Instruction::Return], 0),
        method("int", true, vec![], None, &[Instruction::Iconst_0, Instruction::Ireturn], 0),
        method(
            "boolean",
            true,
            vec![],
            Some(FieldType::Base(BaseType::Boolean)),
            &[Instruction::Iconst_0, Instruction::Ireturn],
            0,
        ),
    ];
    vm.load_class(class_file("Main", None, vec![], vec![], methods)).unwrap();
    assert_eq!(call(&mut vm, "Main", "void", None, vec![], 10), Ok(None));
    assert_eq!(call(&mut vm, "Main", "int", None, vec![], 10), invalid());
    assert_eq!(call(&mut vm, "Main", "boolean", None, vec![], 10), invalid());
}

#[test]
fn arrays_hold_what_is_stored() {
    let cases = [
        (NewArrayType::Int, Instruction::Iastore, Instruction::Iaload, Value::Int(70000), Value::Int(70000)),
        (NewArrayType::Byte, Instruction::Bastore, Instruction::Baload, Value::Int(200), Value::Int(-56)),
        (NewArrayType::Boolean, Instruction::Bastore, Instruction::Baload, Value::Int(1), Value::Int(1)),
        (NewArrayType::Char, Instruction::Castore, Instruction::Caload, Value::Int(-1), Value::Int(65535)),
        (NewArrayType::Short, Instruction::Sastore, Instruction::Saload, Value::Int(65535), Value::Int(-1)),
        (NewArrayType::Long, Instruction::Lastore, Instruction::Laload, Value::Long(1 << 40), Value::Long(1 << 40)),
        (NewArrayType::Float, Instruction::Fastore, Instruction::Faload, f(2.5), f(2.5)),
        (NewArrayType::Double, Instruction::Dastore, Instruction::Daload, d(2.5), d(2.5)),
    ];
    for (array_type, store, load, stored, loaded) in cases {
        let load_value = match stored {
            Value::Int(_) => Instruction::Iload_0,
            Value::Long(_) => Instruction::Lload_0,
            Value::Float(_) => Instruction::Fload_0,
            _ => Instruction::Dload_0,
        };
        let program = [
            Instruction::Iconst_3,
            Instruction::Newarray(array_type),
            Instruction::Astore_1,
            Instruction::Aload_1,
            Instruction::Iconst_2,
            load_value,
            store,
            Instruction::Aload_1,
            Instruction::Iconst_2,
            load,
            Instruction::Ireturn,
        ];
        assert_eq!(run(&program, vec![stored]), ok(loaded));
    }
}

#[test]
fn new_arrays_are_zero() {
    let cases = [
        (NewArrayType::Boolean, Instruction::Baload, Value::Int(0)),
        (NewArrayType::Char, Instruction::Caload, Value::Int(0)),
        (NewArrayType::Float, Instruction::Faload, f(0.0)),
        (NewArrayType::Double, Instruction::Daload, d(0.0)),
        (NewArrayType::Byte, Instruction::Baload, Value::Int(0)),
        (NewArrayType::Short, Instruction::Saload, Value::Int(0)),
        (NewArrayType::Int, Instruction::Iaload, Value::Int(0)),
        (NewArrayType::Long, Instruction::Laload, Value::Long(0)),
    ];
    for (array_type, load, zero) in cases {
        let element = [
            Instruction::Iconst_1,
            Instruction::Newarray(array_type),
            Instruction::Iconst_0,
            load,
            Instruction::Ireturn,
        ];
        assert_eq!(run(&element, vec![]), ok(zero));
        let length = [
            Instruction::Iload_0,
            Instruction::Newarray(array_type),
            Instruction::Arraylength,
            Instruction::Ireturn,
        ];
        assert_eq!(run(&length, vec![Value::Int(1234)]), ok(Value::Int(1234)));
        assert_eq!(run(&length, vec![Value::Int(0)]), ok(Value::Int(0)));
        assert_eq!(run(&length, vec![Value::Int(-1)]), Err(Stop::Fault));
    }
}

#[test]
fn array_accesses_are_checked() {
    let access = |index: i32, load: Instruction| {
        run(
            &[
                Instruction::Iconst_2,
                Instruction::Newarray(NewArrayType::Int),
                Instruction::Iload_0,
                load,
                Instruction::Ireturn,
            ],
            vec![Value::Int(index)],
        )
    };
    let out_of_bounds = error(VmError::ArrayIndexOutOfBoundsException);
    assert_eq!(access(1, Instruction::Iaload), ok(Value::Int(0)));
    assert_eq!(access(2, Instruction::Iaload), out_of_bounds);
    assert_eq!(access(-1, Instruction::Iaload), out_of_bounds);
    assert_eq!(access(0, Instruction::Laload), invalid());
    assert_eq!(access(5, Instruction::Aaload), invalid());
    let store = |index: i32, value: Instruction, store: Instruction| {
        run(
            &[
                Instruction::Iconst_2,
                Instruction::Newarray(NewArrayType::Int),
                Instruction::Iload_0,
                value,
                store,
                Instruction::Iconst_5,
                Instruction::Ireturn,
            ],
            vec![Value::Int(index)],
        )
    };
    let one = Instruction::Iconst_1;
    assert_eq!(store(1, one, Instruction::Iastore), ok(Value::Int(5)));
    assert_eq!(store(2, one, Instruction::Iastore), out_of_bounds);
    assert_eq!(store(-1, one, Instruction::Iastore), out_of_bounds);
    assert_eq!(store(0, one, Instruction::Lastore), invalid());
    assert_eq!(store(0, one, Instruction::Castore), invalid());
    assert_eq!(store(0, Instruction::Lconst_1, Instruction::Iastore), invalid());
    assert_eq!(run(&[Instruction::Iconst_0, Instruction::Arraylength], vec![]), invalid());
}

fn animals() -> Vm {
    let mut vm = Vm::new();
    let answer = |name: &str, instruction| {
        method(name, false, vec![], Some(int_type()), &[instruction, Instruction::Ireturn], 1)
    };
    let setter = [Instruction::Aload_0, Instruction::Iload_1, Instruction::Putfield(0), Instruction::Return];
    let getter = [Instruction::Aload_0, Instruction::Getfield(0), Instruction::Ireturn];
    let animal_methods = vec![
        answer("speak", Instruction::Iconst_1),
        answer("walk", Instruction::Iconst_2),
        method("setAge", false, vec![int_type()], None, &setter, 2),
        method("getAge", false, vec![], Some(int_type()), &getter, 1),
    ];
    let dog_getter = [Instruction::Aload_0, Instruction::Getfield(6), Instruction::Ireturn];
    let mut dog_constants = member(0, "Dog", "owner", false);
    dog_constants.extend(member(6, "Animal", "age", false));
    let owner = FieldType::Object("Animal".to_string());
    let set_owner = [Instruction::Aload_0, Instruction::Aload_1, Instruction::Putfield(0), Instruction::Return];
    let dog_methods = vec![
        answer("speak", Instruction::Iconst_3),
        method("ageOfDog", false, vec![], Some(int_type()), &dog_getter, 1),
        method("setOwner", false, vec![FieldType::Object("Animal".to_string())], None, &set_owner, 2),
    ];
    vm.load_class(class_file(
        "Animal",
        None,
        member(0, "Animal", "age", false),
        vec![field("age", int_type())],
        animal_methods,
    ))
    .unwrap();
    vm.load_class(class_file(
        "Dog",
        Some("Animal"),
        dog_constants,
        vec![field("owner", owner)],
        dog_methods,
    ))
    .unwrap();
    vm.load_class(class_file("Puppy", Some("Dog"), vec![], vec![], vec![])).unwrap();
    vm
}

/// Loads a class whose method `main` calls a method on its only argument.
fn load_caller(vm: &mut Vm, name: &str, class: &str, called: &str, invoke: Instruction) {
    let main = method(
        "main",
        true,
        vec![int_type()],
        Some(int_type()),
        &[Instruction::Aload_0, invoke, Instruction::Ireturn],
        1,
    );
    vm.load_class(class_file(name, None, member(0, class, called, true), vec![], vec![main]))
        .unwrap();
}

#[test]
fn fields_hold_what_is_put() {
    let mut vm = animals();
    let animal = vm.new_object("Animal").unwrap();
    let dog = vm.new_object("Dog").unwrap();
    assert_eq!(call(&mut vm, "Animal", "getAge", Some(animal), vec![], 10), invalid());
    assert_eq!(call(&mut vm, "Animal", "setAge", Some(animal), vec![Value::Int(7)], 10), Ok(None));
    assert_eq!(call(&mut vm, "Animal", "setAge", Some(dog), vec![Value::Int(8)], 10), Ok(None));
    assert_eq!(call(&mut vm, "Animal", "getAge", Some(animal), vec![], 10), ok(Value::Int(7)));
    assert_eq!(call(&mut vm, "Animal", "getAge", Some(dog), vec![], 10), ok(Value::Int(8)));
    assert_eq!(call(&mut vm, "Dog", "ageOfDog", Some(dog), vec![], 10), ok(Value::Int(8)));
    assert_eq!(
        call(&mut vm, "Dog", "setOwner", Some(dog), vec![Value::Object(animal)], 10),
        Ok(None)
    );
    assert_eq!(
        call(&mut vm, "Dog", "setOwner", Some(dog), vec![Value::Object(dog)], 10),
        Ok(None)
    );
    assert_eq!(vm.object_allocator.get_field(dog, 1), Value::Object(dog));
    assert_eq!(vm.object_allocator.get_field(dog, 0), Value::Int(8));
    assert_eq!(
        call(&mut vm, "Dog", "setOwner", Some(animal), vec![Value::Object(dog)], 10),
        Err(Stop::Fault)
    );
}

#[test]
fn fields_are_checked() {
    let mut vm = animals();
    let other = [Instruction::Aload_0, Instruction::Getfield(0), Instruction::Ireturn];
    let put = [Instruction::Aload_0, Instruction::Aload_0, Instruction::Putfield(6), Instruction::Return];
    let no_object = [Instruction::Iconst_0, Instruction::Iconst_0, Instruction::Putfield(6), Instruction::Return];
    let mut constants = member(0, "Animal", "age", false);
    constants.extend(member(6, "Zoo", "size", false));
    let methods = vec![
        method("other", true, vec![int_type()], Some(int_type()), &other, 1),
        method("put", true, vec![int_type()], None, &put, 1),
        method("noObject", true, vec![], None, &no_object, 1),
        method("badConstant", true, vec![], None, &[Instruction::Getfield(1)], 1),
    ];
    vm.load_class(class_file("Zoo", None, constants, vec![field("size", int_type())], methods)).unwrap();
    let zoo = vm.new_object("Zoo").unwrap();
    let not_found =
        VmError::FieldNotFoundException("Animal".to_string(), "age".to_string());
    assert_eq!(
        call(&mut vm, "Zoo", "other", None, vec![Value::Object(zoo)], 10),
        error(not_found)
    );
    assert_eq!(call(&mut vm, "Zoo", "put", None, vec![Value::Object(zoo)], 10), invalid());
    assert_eq!(call(&mut vm, "Zoo", "noObject", None, vec![], 10), invalid());
    assert_eq!(call(&mut vm, "Zoo", "badConstant", None, vec![], 10), invalid());
}

#[test]
fn virtual_calls_go_to_the_class_of_the_receiver() {
    let mut vm = animals();
    load_caller(&mut vm, "Speak", "Animal", "speak", Instruction::Invokevirtual(0));
    load_caller(&mut vm, "Walk", "Dog", "walk", Instruction::Invokevirtual(0));
    load_caller(&mut vm, "Special", "Animal", "speak", Instruction::Invokespecial(0));
    let animal = Value::Object(vm.new_object("Animal").unwrap());
    let dog = Value::Object(vm.new_object("Dog").unwrap());
    let puppy = Value::Object(vm.new_object("Puppy").unwrap());
    assert_eq!(call(&mut vm, "Speak", "main", None, vec![animal], 10), ok(Value::Int(1)));
    assert_eq!(call(&mut vm, "Speak", "main", None, vec![dog], 10), ok(Value::Int(3)));
    assert_eq!(call(&mut vm, "Speak", "main", None, vec![puppy], 10), ok(Value::Int(3)));
    assert_eq!(call(&mut vm, "Walk", "main", None, vec![dog], 10), ok(Value::Int(2)));
    assert_eq!(call(&mut vm, "Walk", "main", None, vec![puppy], 10), Err(Stop::Fault));
    assert_eq!(call(&mut vm, "Special", "main", None, vec![dog], 10), ok(Value::Int(1)));
    assert_eq!(call(&mut vm, "Special", "main", None, vec![Value::Null], 10), invalid());
}

#[test]
fn calls_of_missing_methods_are_refused() {
    let mut vm = animals();
    let mut refused = |class: &str, called: &str, invoke| {
        load_caller(&mut vm, "Caller", class, called, invoke);
        let dog = Value::Object(vm.new_object("Dog").unwrap());
        call(&mut vm, "Caller", "main", None, vec![dog], 10)
    };
    let not_found = |class: &str, name: &str| {
        error(VmError::MethodNotFoundException(
            class.to_string(),
            name.to_string(),
            "T".to_string(),
        ))
    };
    assert_eq!(
        refused("Dog", "walk", Instruction::Invokespecial(0)),
        not_found("Dog", "walk")
    );
    assert_eq!(
        refused("Animal", "fly", Instruction::Invokevirtual(0)),
        not_found("Animal", "fly")
    );
    assert_eq!(refused("Dog", "fly", Instruction::Invokevirtual(0)), Err(Stop::Fault));
    assert_eq!(
        refused("Cat", "speak", Instruction::Invokestatic(0)),
        error(VmError::ClassNotFoundException("Cat".to_string()))
    );
    assert_eq!(refused("Dog", "speak", Instruction::Invokevirtual(1)), invalid());
    assert_eq!(refused("Animal", "setAge", Instruction::Invokevirtual(0)), invalid());
}

#[test]
fn recursion_computes_a_factorial() {
    let factorial = [
        Instruction::Iload_0,
        Instruction::Ifgt(4),
        Instruction::Iconst_1,
        Instruction::Ireturn,
        Instruction::Iload_0,
        Instruction::Iload_0,
        Instruction::Iconst_1,
        Instruction::Isub,
        Instruction::Invokestatic(0),
        Instruction::Imul,
        Instruction::Ireturn,
    ];
    let mut vm = Vm::new();
    let main = method("main", true, vec![int_type()], Some(int_type()), &factorial, 1);
    vm.load_class(class_file("Main", None, member(0, "Main", "main", true), vec![], vec![main]))
        .unwrap();
    let ten = vec![Value::Int(10)];
    assert_eq!(call(&mut vm, "Main", "main", None, ten.clone(), 1000), ok(Value::Int(3628800)));
    assert_eq!(call(&mut vm, "Main", "main", None, ten.clone(), u64::MAX), ok(Value::Int(3628800)));
    assert_eq!(call(&mut vm, "Main", "main", None, ten, 20), Err(Stop::OutOfBudget));
}

#[test]
fn results_of_calls_are_checked() {
    let mut vm = Vm::new();
    let wrong = method("wrong", true, vec![], Some(int_type()), &[Instruction::Lconst_1, Instruction::Ireturn], 0);
    let main = method("main", true, vec![], Some(int_type()), &[Instruction::Invokestatic(0), Instruction::Ireturn], 0);
    vm.load_class(class_file(
        "Main",
        None,
        member(0, "Main", "wrong", true),
        vec![],
        vec![wrong, main],
    ))
    .unwrap();
    assert_eq!(call(&mut vm, "Main", "wrong", None, vec![], 10), ok(Value::Long(1)));
    assert_eq!(call(&mut vm, "Main", "main", None, vec![], 10), invalid());
}

#[test]
fn a_loop_without_end_uses_up_its_budget() {
    let mut vm = Vm::new();
    let forever = method("main", true, vec![], None, &[Instruction::Goto(0)], 0);
    vm.load_class(class_file("Main", None, vec![], vec![], vec![forever])).unwrap();
    assert_eq!(call(&mut vm, "Main", "main", None, vec![], 100_000), Err(Stop::OutOfBudget));
    assert_eq!(call(&mut vm, "Main", "main", None, vec![], 0), Err(Stop::OutOfBudget));
}

#[test]
fn native_methods_print() {
    let mut vm = Vm::new();
    let print = [Instruction::Iload_0, Instruction::Invokestatic(0), Instruction::Return];
    let main = method("main", true, vec![int_type()], None, &print, 1);
    let methods = vec![native("tempPrint"), native("exit")];
    vm.load_class(class_file("rjvm/Main", None, vec![], vec![], methods)).unwrap();
    vm.load_class(class_file("Other", None, vec![], vec![], vec![native("tempPrint")])).unwrap();
    vm.load_class(class_file(
        "Main",
        None,
        member(0, "rjvm/Main", "tempPrint", true),
        vec![],
        vec![main],
    ))
    .unwrap();
    assert_eq!(call(&mut vm, "Main", "main", None, vec![Value::Int(3)], 10), Ok(None));
    assert_eq!(call(&mut vm, "Main", "main", None, vec![Value::Int(4)], 10), Ok(None));
    assert_eq!(vm.printed, vec![Value::Int(3), Value::Int(4)]);
    assert_eq!(call(&mut vm, "rjvm/Main", "tempPrint", None, vec![], 10), invalid());
    let not_implemented = error(VmError::NotImplemented);
    assert_eq!(call(&mut vm, "rjvm/Main", "exit", None, vec![], 10), not_implemented);
    assert_eq!(
        call(&mut vm, "Other", "tempPrint", None, vec![Value::Int(5)], 10),
        not_implemented
    );
    assert_eq!(vm.printed.len(), 2);
}

#[test]
fn receivers_are_checked() {
    let mut vm = animals();
    let dog = vm.new_object("Dog").unwrap();
    assert_eq!(
        call(&mut vm, "Dog", "speak", None, vec![], 10),
        error(VmError::NullPointerException)
    );
    load_caller(&mut vm, "Main", "Dog", "speak", Instruction::Invokevirtual(0));
    assert_eq!(call(&mut vm, "Main", "main", Some(dog), vec![], 10), invalid());
}

#[test]
fn methods_without_code_cannot_be_entered() {
    let mut vm = Vm::new();
    let without_code = Rc::new(ClassFileMethod {
        flags: MethodFlags { is_static: true, is_native: false },
        name: "main".to_string(),
        type_descriptor: "T".to_string(),
        parameters: vec![],
        return_type: None,
        code: None,
    });
    vm.load_class(class_file("Main", None, vec![], vec![], vec![without_code])).unwrap();
    assert_eq!(call(&mut vm, "Main", "main", None, vec![], 10), Err(Stop::Fault));
}

#[test]
fn objects_are_created_by_instructions() {
    let mut vm = animals();
    let constants = || {
        vec![
            Some(ConstantPoolEntry::ClassReference(1)),
            utf8("Dog"),
            Some(ConstantPoolEntry::ClassReference(3)),
            utf8("Cat"),
        ]
    };
    let create = |name: &str, index| {
        method(name, true, vec![], Some(int_type()), &[Instruction::New(index), Instruction::Ireturn], 0)
    };
    let methods = vec![create("dog", 0), create("cat", 2), create("text", 1)];
    vm.load_class(class_file("Main", None, constants(), vec![], methods)).unwrap();
    let expected = ObjectRef { class_id: vm.get_class("Dog").unwrap().id, index: 0 };
    assert_eq!(call(&mut vm, "Main", "dog", None, vec![], 10), ok(Value::Object(expected)));
    assert_eq!(
        call(&mut vm, "Main", "cat", None, vec![], 10),
        error(VmError::ClassNotFoundException("Cat".to_string()))
    );
    assert_eq!(call(&mut vm, "Main", "text", None, vec![], 10), invalid());
    assert_eq!(
        vm.object_allocator.objects[0].fields,
        vec![Value::Uninitialized, Value::Uninitialized]
    );
}

#[test]
fn object_arrays_hold_objects_of_their_class() {
    let mut vm = animals();
    let constants = vec![Some(ConstantPoolEntry::ClassReference(1)), utf8("Dog")];
    let store = [
        Instruction::Iconst_1,
        Instruction::Anewarray(0),
        Instruction::Astore_1,
        Instruction::Aload_1,
        Instruction::Iconst_0,
        Instruction::Aload_0,
        Instruction::Aastore,
        Instruction::Aload_1,
        Instruction::Iconst_0,
        Instruction::Aaload,
        Instruction::Ireturn,
    ];
    let first = [
        Instruction::Iload_0,
        Instruction::Anewarray(0),
        Instruction::Iconst_0,
        Instruction::Aaload,
        Instruction::Ireturn,
    ];
    let methods = vec![
        method("store", true, vec![int_type()], Some(int_type()), &store, 2),
        method("first", true, vec![int_type()], Some(int_type()), &first, 1),
        method("bad", true, vec![], None, &[Instruction::Iconst_1, Instruction::Anewarray(1)], 0),
    ];
    vm.load_class(class_file("Main", None, constants, vec![], methods)).unwrap();
    let animal = Value::Object(vm.new_object("Animal").unwrap());
    let dog = Value::Object(vm.new_object("Dog").unwrap());
    let puppy = Value::Object(vm.new_object("Puppy").unwrap());
    assert_eq!(call(&mut vm, "Main", "store", None, vec![dog], 20), ok(dog));
    assert_eq!(call(&mut vm, "Main", "store", None, vec![puppy], 20), ok(puppy));
    assert_eq!(call(&mut vm, "Main", "store", None, vec![animal], 20), invalid());
    assert_eq!(call(&mut vm, "Main", "first", None, vec![Value::Int(1)], 20), ok(Value::Null));
    assert_eq!(
        call(&mut vm, "Main", "first", None, vec![Value::Int(0)], 20),
        error(VmError::ArrayIndexOutOfBoundsException)
    );
    assert_eq!(
        call(&mut vm, "Main", "first", None, vec![Value::Int(-2)], 20),
        Err(Stop::Fault)
    );
    assert_eq!(call(&mut vm, "Main", "bad", None, vec![], 20), invalid());
    assert_eq!(vm.debug_stats(), DebugStats { classes: 4, objects: 3, arrays: 5 });
}

#[test]
fn unbounded_calls_and_executions_agree_with_bounded_ones() {
    let floats = FloatUnit { single, double };
    let mut vm = Vm::new();
    let double_it = [Instruction::Iload_0, Instruction::Dup, Instruction::Iadd, Instruction::Ireturn];
    let main = method("main", true, vec![int_type()], Some(int_type()), &double_it, 1);
    let fail = method("fail", true, vec![], None, &[Instruction::Pop], 0);
    vm.load_class(class_file("Main", None, vec![], vec![], vec![main, fail])).unwrap();
    let mut stack = vm.allocate_stack();
    let main = vm.find_class_method("Main", "main", "T").unwrap();
    let fail = vm.find_class_method("Main", "fail", "T").unwrap();
    let result = vm.invoke(&mut stack, main.clone(), None, vec![Value::Int(21)], &floats);
    assert_eq!(result, Ok(Some(Value::Int(42))));
    let result = vm.invoke(&mut stack, fail, None, vec![], &floats);
    assert_eq!(result, Err(VmError::ValidationException));
    let position = stack.add_frame(main, None, vec![Value::Int(4)]).unwrap();
    assert_eq!(position, 0);
    assert_eq!(stack.frames.len(), 1);
    let result = CallFrame::execute(position, &mut vm, &mut stack, &floats);
    assert_eq!(result, Ok(Some(Value::Int(8))));
    assert_eq!(stack.frames[position].pc, 4);
    assert_eq!(stack.frames.len(), 1);
    assert_eq!(stack.pop_frame(), Ok(()));
    assert_eq!(stack.pop_frame(), Err(VmError::ValidationException));
}

#[test]
fn frames_start_with_receiver_arguments_and_free_locals() {
    let mut vm = animals();
    let dog = vm.new_object("Dog").unwrap();
    let class_and_method = vm.find_class_method("Dog", "setOwner", "T").unwrap();
    let mut stack = Stack::default();
    let first = stack.add_frame(class_and_method.clone(), Some(dog), vec![]).unwrap();
    let frame = &stack.frames[first];
    assert_eq!(frame.locals, vec![Value::Object(dog), Value::Uninitialized]);
    assert_eq!(frame.stack, vec![]);
    assert_eq!(frame.pc, 0);
    let many = vec![Value::Int(1), Value::Int(2), Value::Int(3)];
    let second = stack.add_frame(class_and_method, Some(dog), many).unwrap();
    assert_eq!((first, second), (0, 1));
    let frame = &stack.frames[second];
    assert_eq!(
        frame.locals,
        vec![Value::Object(dog), Value::Int(1), Value::Int(2), Value::Int(3)]
    );
    let native = ClassAndMethod { class: vm.get_class("Dog").unwrap(), method: native("bark") };
    assert_eq!(
        stack.add_frame(native, None, vec![]).err(),
        Some(VmError::NotImplemented)
    );
    assert_eq!(stack.frames.len(), 2);
}

#[test]
fn code_is_decoded_at_every_address() {
    let bytes = vec![16u8, 7, 172];
    let decoded = DecodedCode::decode(&bytes, |code: &Vec<u8>, address: usize| match code[address] {
        16 if address + 1 < code.len() => {
            Some((Instruction::Bipush(i16::from(code[address + 1])), address + 2))
        }
        172 => Some((Instruction::Ireturn, address + 1)),
        _ => None,
    });
    assert_eq!(decoded.fetch(0), Some((Instruction::Bipush(7), 2)));
    assert_eq!(decoded.fetch(1), None);
    assert_eq!(decoded.fetch(2), Some((Instruction::Ireturn, 3)));
    assert_eq!(decoded.fetch(3), None);
    let mut vm = Vm::default();
    let main = Rc::new(ClassFileMethod {
        flags: MethodFlags { is_static: true, is_native: false },
        name: "main".to_string(),
        type_descriptor: "T".to_string(),
        parameters: vec![],
        return_type: Some(int_type()),
        code: Some(ClassFileMethodCode { max_stack: 1, max_locals: 0, code: Rc::new(decoded) }),
    });
    vm.load_class(class_file("Main", None, vec![], vec![], vec![main])).unwrap();
    assert_eq!(call(&mut vm, "Main", "main", None, vec![], 10), ok(Value::Int(7)));
}

#[test]
fn a_receiver_of_an_unknown_class_is_refused() {
    let mut vm = animals();
    load_caller(&mut vm, "Main", "Animal", "speak", Instruction::Invokevirtual(0));
    let stranger = Value::Object(ObjectRef { class_id: ClassId(99), index: 0 });
    assert_eq!(
        call(&mut vm, "Main", "main", None, vec![stranger], 10),
        error(VmError::ClassNotFoundException("99".to_string()))
    );
}

#[test]
fn runs_keep_classes_objects_and_what_was_printed() {
    let mut vm = animals();
    let program = [
        Instruction::Iconst_2,
        Instruction::Newarray(NewArrayType::Long),
        Instruction::Astore_0,
        Instruction::Iconst_0,
        Instruction::Newarray(NewArrayType::Byte),
        Instruction::Iconst_0,
        Instruction::Baload,
        Instruction::Ireturn,
    ];
    let main = method("main", true, vec![], Some(int_type()), &program, 1);
    vm.load_class(class_file("Main", None, vec![], vec![], vec![main])).unwrap();
    vm.load_class(class_file("rjvm/Io", None, vec![], vec![], vec![native("tempPrint")])).unwrap();
    let dog = vm.new_object("Dog").unwrap();
    assert_eq!(call(&mut vm, "rjvm/Io", "tempPrint", None, vec![Value::Long(1)], 1), Ok(None));
    let before = vm.debug_stats();
    assert_eq!(
        call(&mut vm, "Main", "main", None, vec![], 100),
        error(VmError::ArrayIndexOutOfBoundsException)
    );
    let after = vm.debug_stats();
    assert_eq!(before, DebugStats { classes: 5, objects: 1, arrays: 0 });
    assert_eq!(after, DebugStats { classes: 5, objects: 1, arrays: 2 });
    assert_eq!(vm.printed, vec![Value::Long(1)]);
    assert_eq!(vm.object_allocator.objects[dog.index].fields.len(), 2);
    assert_eq!(vm.object_allocator.arrays[0].elements, vec![Value::Long(0), Value::Long(0)]);
}

#[test]
fn inherited_methods_use_the_fields_of_their_class() {
    let mut vm = animals();
    let puppy = vm.new_object("Puppy").unwrap();
    assert_eq!(call(&mut vm, "Animal", "setAge", Some(puppy), vec![Value::Int(1)], 10), Ok(None));
    assert_eq!(
        call(&mut vm, "Dog", "setOwner", Some(puppy), vec![Value::Object(puppy)], 10),
        Ok(None)
    );
    assert_eq!(call(&mut vm, "Animal", "getAge", Some(puppy), vec![], 10), ok(Value::Int(1)));
}

#[test]
fn a_call_leaves_the_rest_of_the_stack_alone() {
    let mut vm = Vm::new();
    let sub = [Instruction::Iload_0, Instruction::Iload_1, Instruction::Isub, Instruction::Ireturn];
    let main = [
        Instruction::Bipush(100),
        Instruction::Iconst_5,
        Instruction::Iconst_3,
        Instruction::Invokestatic(0),
        Instruction::Isub,
        Instruction::Ireturn,
    ];
    let methods = vec![
        method("sub", true, vec![int_type(), int_type()], Some(int_type()), &sub, 2),
        method("main", true, vec![], Some(int_type()), &main, 0),
    ];
    vm.load_class(class_file("Main", None, member(0, "Main", "sub", true), vec![], methods))
        .unwrap();
    assert_eq!(call(&mut vm, "Main", "main", None, vec![], 100), ok(Value::Int(98)));
}

#[test]
fn a_frame_is_run_on_the_stack() {
    let floats = FloatUnit { single, double };
    let mut vm = Vm::new();
    let count = [
        Instruction::Iinc(0, 1),
        Instruction::Iload_0,
        Instruction::Istore_1,
        Instruction::Iload_1,
        Instruction::Ireturn,
    ];
    let main = method("main", true, vec![int_type()], Some(int_type()), &count, 2);
    vm.load_class(class_file("Main", None, vec![], vec![], vec![main])).unwrap();
    let main = vm.find_class_method("Main", "main", "T").unwrap();
    let mut stack = Stack::new();
    let below = stack.add_frame(main.clone(), None, vec![Value::Int(1)]).unwrap();
    let run = stack.add_frame(main.clone(), None, vec![Value::Int(5)]).unwrap();
    let above = stack.add_frame(main, None, vec![Value::Int(9)]).unwrap();
    let stopped = CallFrame::execute_bounded(run, &mut vm, &mut stack, &floats, 2);
    assert_eq!(stopped, Err(Stop::OutOfBudget));
    assert_eq!(stack.frames[run].pc, 2);
    assert_eq!(stack.frames[run].locals, vec![Value::Int(6), Value::Uninitialized]);
    assert_eq!(stack.frames[run].stack, vec![Value::Int(6)]);
    let result = CallFrame::execute_bounded(run, &mut vm, &mut stack, &floats, 3);
    assert_eq!(result, ok(Value::Int(6)));
    assert_eq!(stack.frames[run].locals, vec![Value::Int(6), Value::Int(6)]);
    assert_eq!(stack.frames[run].pc, 5);
    assert_eq!(stack.frames.len(), 3);
    assert_eq!(stack.frames[below].locals, vec![Value::Int(1), Value::Uninitialized]);
    assert_eq!(stack.frames[above].locals, vec![Value::Int(9), Value::Uninitialized]);
    assert_eq!((stack.frames[below].pc, stack.frames[above].pc), (0, 0));
}

#[test]
fn calls_that_have_not_ended_are_on_the_stack() {
    let floats = FloatUnit { single, double };
    let mut vm = Vm::new();
    let forever = [Instruction::Iinc(0, 1), Instruction::Goto(0)];
    let divide = [Instruction::Iload_0, Instruction::Iconst_m1, Instruction::Idiv, Instruction::Ireturn];
    let caller = |index| {
        [Instruction::Iconst_4, Instruction::Iload_0, Instruction::Invokestatic(index), Instruction::Ireturn]
    };
    let mut constants = member(0, "Main", "forever", true);
    constants.extend(member(6, "Main", "divide", true));
    let methods = vec![
        method("forever", true, vec![int_type()], Some(int_type()), &forever, 1),
        method("divide", true, vec![int_type()], Some(int_type()), &divide, 1),
        method("main", true, vec![int_type()], Some(int_type()), &caller(0), 1),
        method("fault", true, vec![int_type()], Some(int_type()), &caller(6), 1),
    ];
    vm.load_class(class_file("Main", None, constants, vec![], methods)).unwrap();
    let main = vm.find_class_method("Main", "main", "T").unwrap();
    let fault = vm.find_class_method("Main", "fault", "T").unwrap();
    let mut stack = Stack::new();
    let result =
        vm.invoke_bounded(&mut stack, main.clone(), None, vec![Value::Int(7)], &floats, 6);
    assert_eq!(result, Err(Stop::OutOfBudget));
    assert_eq!(stack.frames.len(), 2);
    assert_eq!(stack.frames[0].class_and_method.method.name, "main");
    assert_eq!((stack.frames[0].pc, &stack.frames[0].stack), (3, &vec![Value::Int(4)]));
    assert_eq!(stack.frames[1].class_and_method.method.name, "forever");
    assert_eq!((stack.frames[1].pc, &stack.frames[1].locals), (1, &vec![Value::Int(9)]));

    let mut stack = Stack::new();
    let args = vec![Value::Int(i32::MIN)];
    let result = vm.invoke_bounded(&mut stack, fault.clone(), None, args, &floats, 100);
    assert_eq!(result, Err(Stop::Fault));
    assert_eq!(stack.frames.len(), 2);
    assert_eq!(stack.frames[1].class_and_method.method.name, "divide");
    assert_eq!(stack.frames[1].pc, 3);

    let mut stack = Stack::new();
    let result = vm.invoke_bounded(&mut stack, main, None, vec![Value::Int(7)], &floats, 0);
    assert_eq!(result, Err(Stop::OutOfBudget));
    assert_eq!(stack.frames.len(), 1);
    assert_eq!(stack.frames[0].pc, 0);

    let mut stack = Stack::new();
    let result = vm.invoke_bounded(&mut stack, fault, None, vec![Value::Int(8)], &floats, 100);
    assert_eq!(result, ok(Value::Int(-8)));
    assert_eq!(stack.frames.len(), 0);
}

#[test]
fn a_constant_is_loaded_in_one_way() {
    let constants = || {
        vec![
            Some(ConstantPoolEntry::Integer(1)),
            Some(ConstantPoolEntry::Float(1f32.to_bits())),
            Some(ConstantPoolEntry::Long(1)),
            Some(ConstantPoolEntry::Double(1f64.to_bits())),
            utf8("text"),
            None,
        ]
    };
    let loads = |instruction| {
        run_with(&[instruction, Instruction::Ireturn], vec![], constants()).is_ok()
    };
    let expected =
        [(true, false), (true, false), (false, true), (false, true), (false, false), (false, false)];
    for (index, expected) in expected.into_iter().enumerate() {
        let index = index as u16;
        assert_eq!((loads(Instruction::Ldc_w(index)), loads(Instruction::Ldc2_w(index))), expected);
    }
}

#[test]
fn a_member_constant_has_one_use() {
    let mut constants = member(0, "Main", "age", false);
    constants.extend(member(6, "Main", "main", true));
    let mut vm = Vm::new();
    let methods = vec![
        method("callField", true, vec![], None, &[Instruction::Invokestatic(0)], 0),
        method("getMethod", true, vec![], None, &[Instruction::Getfield(6)], 0),
        method("callMethod", true, vec![], None, &[Instruction::Invokestatic(6)], 0),
    ];
    vm.load_class(class_file("Main", None, constants, vec![field("age", int_type())], methods))
        .unwrap();
    assert_eq!(call(&mut vm, "Main", "callField", None, vec![], 10), invalid());
    assert_eq!(call(&mut vm, "Main", "getMethod", None, vec![], 10), invalid());
    assert_eq!(
        call(&mut vm, "Main", "callMethod", None, vec![], 10),
        error(VmError::MethodNotFoundException(
            "Main".to_string(),
            "main".to_string(),
            "T".to_string()
        ))
    );
}

#[test]
fn the_named_class_does_not_influence_dispatch() {
    let mut vm = animals();
    load_caller(&mut vm, "ByAnimal", "Animal", "speak", Instruction::Invokevirtual(0));
    load_caller(&mut vm, "ByDog", "Dog", "speak", Instruction::Invokevirtual(0));
    for (class, answer) in [("Animal", 1), ("Dog", 3), ("Puppy", 3)] {
        let receiver = Value::Object(vm.new_object(class).unwrap());
        for caller in ["ByAnimal", "ByDog"] {
            assert_eq!(
                call(&mut vm, caller, "main", None, vec![receiver], 10),
                ok(Value::Int(answer))
            );
        }
    }
}

#[test]
fn numbers_in_instructions_are_taken_as_they_are() {
    for number in [-128, -1, 0, 127, 255] {
        let program = [Instruction::Bipush(number), Instruction::Ireturn];
        assert_eq!(run(&program, vec![]), ok(Value::Int(i32::from(number))));
    }
}
