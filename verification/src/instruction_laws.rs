//! What holds of the instructions: what one of them undoes, reads back or never does.

use crate::class::{first_method, ClassAndMethod, ClassRef};
use crate::class_file::{ClassFileMethod, ConstantPool, ConstantPoolEntry, MemberModel};
use crate::class_loader::{class_named, class_with_id};
use crate::field_type::FieldTypeModel;
use crate::float::FloatModel;
use crate::instruction::{ArrayKind, Coercion, InvokeKind, NewArrayType, ValueKind};
use crate::numeric::{int_result, long_result, quotient, remainder, IntegerOp};
use crate::semantics::{
    call_method,
    coerced,
    declared_method,
    default_value,
    inherited_method,
    named_method,
    prepared_call,
    virtual_method,
    FrameModel,
    VmModel,
};
use crate::value::{ArrayRef, ObjectRef, Value};
use crate::vm_error::{invalid, StopModel};
use std::rc::Rc;
use vstd::prelude::*;

verus! {

/// Taking a value off the stack undoes the push of it.
pub proof fn law_pop_undoes_push(frame: FrameModel, value: Value)
    ensures
        frame.push(value).pop() == (frame, Ok::<Value, StopModel>(value)),
{
    assert(frame.push(value).pop().0 == frame);
}

/// Dropping the topmost value undoes its repetition.
pub proof fn law_drop_undoes_dup(frame: FrameModel)
    requires
        frame.stack.len() > 0,
    ensures
        frame.dup().1 is Ok,
        frame.dup().0.drop_top() == (frame, Ok::<(), StopModel>(())),
{
    assert(frame.dup().0.drop_top().0 == frame);
}

/// Loading a local gives the value that was stored in it, and storing a value in a local leaves
/// the other locals alone.
pub proof fn law_load_reads_store(frame: FrameModel, kind: ValueKind, index: usize)
    requires
        frame.store(kind, index).1 is Ok,
    ensures
        frame.store(kind, index).0.load(kind, index) == (
            frame.store(kind, index).0.push(frame.stack.last()),
            Ok::<(), StopModel>(()),
        ),
        forall|other: int|
            0 <= other < frame.locals.len() && other != index ==> #[trigger] frame.store(
                kind,
                index,
            ).0.locals[other] == frame.locals[other],
{
}

/// Storing in a local what was loaded from it changes nothing.
pub proof fn law_store_undoes_load(frame: FrameModel, kind: ValueKind, index: usize)
    requires
        frame.load(kind, index).1 is Ok,
    ensures
        frame.load(kind, index).0.store(kind, index) == (frame, Ok::<(), StopModel>(())),
{
    assert(frame.load(kind, index).0.store(kind, index).0 == frame);
}

/// Reading a field gives the value that was put into it, from any frame of the same class.
pub proof fn law_get_field_reads_put_field(
    frame: FrameModel,
    vm: VmModel,
    index: u16,
    reader: FrameModel,
)
    requires
        frame.put_field(vm, index).2 is Ok,
        reader.class_and_method.class == frame.class_and_method.class,
        reader.stack.len() > 0,
        reader.stack.last() == frame.stack[frame.stack.len() - 2],
    ensures
        reader.get_field(frame.put_field(vm, index).1, index) == (
            reader.pop().0.push(frame.stack.last()),
            Ok::<(), StopModel>(()),
        ),
{
    let after = frame.put_field(vm, index).1;
    let value = frame.stack.last();
    assert(frame.pop().0.stack.last() == frame.stack[frame.stack.len() - 2]);
    assert(after.classes == vm.classes);
    assert(after.heap.arrays == vm.heap.arrays);
    let field_type = frame.field(index)->Ok_0.1;
    assert(vm.fits(value, field_type));
    assert(after.fits(value, field_type));
}

/// Putting a value into a field leaves all other fields alone.
pub proof fn law_put_field_keeps_others(
    frame: FrameModel,
    vm: VmModel,
    index: u16,
    other: ObjectRef,
    position: usize,
)
    requires
        frame.put_field(vm, index).2 is Ok,
        vm.heap.has_field(other, position),
        !(frame.stack[frame.stack.len() - 2] matches Value::Object(object) && object.index
            == other.index && frame.field(index)->Ok_0.0 == position),
    ensures
        frame.put_field(vm, index).1.heap.has_field(other, position),
        frame.put_field(vm, index).1.heap.field(other, position) == vm.heap.field(other, position),
{
    assert(frame.pop().0.stack.last() == frame.stack[frame.stack.len() - 2]);
}

/// No field gives a value that was never put into it: values that are not initialized fit no
/// type.
pub proof fn law_get_field_gives_initialized(frame: FrameModel, vm: VmModel, index: u16)
    requires
        frame.get_field(vm, index).1 is Ok,
    ensures
        frame.get_field(vm, index).0.stack.last() != Value::Uninitialized,
{
}

/// A new object is an object of the class that its constant names, and none of its fields can be
/// read before a value is put into it.
pub proof fn law_new_object_is_uninitialized(
    frame: FrameModel,
    vm: VmModel,
    index: u16,
    field_index: u16,
)
    requires
        frame.new_object(vm, index).2 is Ok,
        vm.heap.objects.len() < usize::MAX,
    ensures
        frame.class_and_method.class.constants.class_reference(index) is Some,
        class_named(
            vm.classes,
            frame.class_and_method.class.constants.class_reference(index)->0,
        ) matches Some(class) && frame.new_object(vm, index).0.stack.last() == Value::Object(
            ObjectRef { class_id: class.id, index: vm.heap.objects.len() as usize },
        ),
        frame.new_object(vm, index).0.get_field(frame.new_object(vm, index).1, field_index).1 is Err,
{
}

/// A new array has the length that was asked for, and all its elements are zero.
pub proof fn law_new_array_is_zero(
    frame: FrameModel,
    vm: VmModel,
    array_type: NewArrayType,
    index: int,
)
    requires
        frame.new_array(vm, array_type).2 is Ok,
        vm.heap.arrays.len() < usize::MAX,
    ensures
        frame.new_array(vm, array_type).0.array_length(frame.new_array(vm, array_type).1) == (
            frame,
            Ok::<(), StopModel>(()),
        ),
        frame.new_array(vm, array_type).0.stack.last() is Array,
        frame.stack.last() is Int,
        0 <= index < frame.stack.last()->Int_0 ==> frame.new_array(vm, array_type).1.heap.array(
            frame.new_array(vm, array_type).0.stack.last()->Array_0,
        ).elements[index] == default_value(array_type),
{
    let (after, machine, result) = frame.new_array(vm, array_type);
    assert(after.pop().0 == frame.pop().0);
    assert(after.array_length(machine).0 == frame);
}

/// The length of a new array is the one that was asked for, whatever its elements are.
pub proof fn law_array_length_reads_new_array(
    frame: FrameModel,
    vm: VmModel,
    array_type: NewArrayType,
    index: u16,
)
    requires
        frame.stack.len() > 0,
        frame.stack.last() matches Value::Int(length) && length >= 0,
        vm.heap.arrays.len() < usize::MAX,
    ensures
        frame.new_array(vm, array_type).2 is Ok,
        frame.new_array(vm, array_type).0.array_length(frame.new_array(vm, array_type).1) == (
            frame,
            Ok::<(), StopModel>(()),
        ),
        frame.class_and_method.class.constants.class_reference(index) is Some ==> {
            &&& frame.new_object_array(vm, index).2 is Ok
            &&& frame.new_object_array(vm, index).0.array_length(
                frame.new_object_array(vm, index).1,
            ) == (frame, Ok::<(), StopModel>(()))
        },
{
    let (after, machine, _) = frame.new_array(vm, array_type);
    assert(after.pop().0 == frame.pop().0);
    assert(after.array_length(machine).0 == frame);
    if frame.class_and_method.class.constants.class_reference(index) is Some {
        let (after, machine, _) = frame.new_object_array(vm, index);
        assert(after.pop().0 == frame.pop().0);
        assert(after.array_length(machine).0 == frame);
    }
}

/// Which constants the two ways to load a constant take: integers and single-precision numbers
/// the one, longs and double-precision numbers the other, and no constant is taken by both. The
/// number is pushed as it is. A refused load changes nothing.
pub proof fn law_constants_load_in_one_way(frame: FrameModel, index: u16)
    ensures
        !(frame.load_constant(index).1 is Ok && frame.load_wide_constant(index).1 is Ok),
        match frame.class_and_method.class.constants.at(index) {
            Some(ConstantPoolEntry::Integer(value)) => frame.load_constant(index) == (
                frame.push(Value::Int(value)),
                Ok::<(), StopModel>(()),
            ),
            Some(ConstantPoolEntry::Float(bits)) => frame.load_constant(index) == (
                frame.push(Value::Float(bits)),
                Ok::<(), StopModel>(()),
            ),
            _ => frame.load_constant(index) == (frame, invalid::<()>()),
        },
        match frame.class_and_method.class.constants.at(index) {
            Some(ConstantPoolEntry::Long(value)) => frame.load_wide_constant(index) == (
                frame.push(Value::Long(value)),
                Ok::<(), StopModel>(()),
            ),
            Some(ConstantPoolEntry::Double(bits)) => frame.load_wide_constant(index) == (
                frame.push(Value::Double(bits)),
                Ok::<(), StopModel>(()),
            ),
            _ => frame.load_wide_constant(index) == (frame, invalid::<()>()),
        },
        frame.load_constant(index).1 is Err ==> frame.load_constant(index) == (
            frame,
            invalid::<()>(),
        ),
        frame.load_wide_constant(index).1 is Err ==> frame.load_wide_constant(index) == (
            frame,
            invalid::<()>(),
        ),
{
}

/// A constant refers to a method or to a field or to neither, but not to both. It refers to a
/// member if it gives the index of a class with a name, and that of a name and a type descriptor,
/// and then to the member of that class with that name and type.
pub proof fn law_member_constants_are_apart(constants: &ConstantPool, index: u16)
    ensures
        constants.method_reference(index) is Some ==> constants.field_reference(index) is None,
        constants.field_reference(index) is Some ==> constants.method_reference(index) is None,
        match constants.at(index) {
            Some(ConstantPoolEntry::MethodReference(class, name_and_type)) => {
                constants.method_reference(index) == constants.member(class, name_and_type)
            },
            _ => constants.method_reference(index) is None,
        },
        match constants.at(index) {
            Some(ConstantPoolEntry::FieldReference(class, name_and_type)) => {
                constants.field_reference(index) == constants.member(class, name_and_type)
            },
            _ => constants.field_reference(index) is None,
        },
        forall|class: u16, name_and_type: u16|
            #![trigger constants.member(class, name_and_type)]
            constants.member(class, name_and_type) == match (
                constants.at(class),
                constants.at(name_and_type),
            ) {
                (
                    Some(ConstantPoolEntry::ClassReference(class_name)),
                    Some(ConstantPoolEntry::NameAndTypeDescriptor(name, type_descriptor)),
                ) => match (
                    constants.at(class_name),
                    constants.at(name),
                    constants.at(type_descriptor),
                ) {
                    (
                        Some(ConstantPoolEntry::Utf8(class_name)),
                        Some(ConstantPoolEntry::Utf8(name)),
                        Some(ConstantPoolEntry::Utf8(type_descriptor)),
                    ) => Some(
                        MemberModel {
                            class_name: class_name@,
                            name: name@,
                            type_descriptor: type_descriptor@,
                        },
                    ),
                    _ => None,
                },
                _ => None,
            },
{
}

/// No constant can be both called and accessed as a field: one of the two is invalid.
pub proof fn law_member_constant_has_one_use(
    frame: FrameModel,
    vm: VmModel,
    kind: InvokeKind,
    index: u16,
)
    ensures
        ({
            ||| named_method(frame, vm, kind, index) == invalid::<ClassAndMethod>()
            ||| frame.field(index) == invalid::<(usize, FieldTypeModel)>()
        }),
{
    law_member_constants_are_apart(&frame.class_and_method.class.constants, index);
}

/// The class in which a virtual call looks for its method first does not influence which method
/// is called: the receiver, the name and the type descriptor alone do.
pub proof fn law_dispatch_ignores_static_class(
    vm: VmModel,
    receiver: Option<ObjectRef>,
    one: ClassAndMethod,
    two: ClassAndMethod,
)
    requires
        one.method.name@ == two.method.name@,
        one.method.type_descriptor@ == two.method.type_descriptor@,
    ensures
        virtual_method(vm, receiver, *one.method) == virtual_method(vm, receiver, *two.method),
{
}

/// The value that an array store of a kind stores: bytes, characters and shorts are cut to size.
pub open spec fn stored_value(frame: FrameModel, kind: ArrayKind) -> Value {
    frame.pop_element(kind).1->Ok_0
}

/// Loading an array element gives the value that was stored in it.
pub proof fn law_array_load_reads_store(
    frame: FrameModel,
    vm: VmModel,
    kind: ArrayKind,
    reader: FrameModel,
)
    requires
        frame.array_store(vm, kind).2 is Ok,
        reader.stack.len() >= 2,
        reader.stack.last() == frame.stack[frame.stack.len() - 2],
        reader.stack[reader.stack.len() - 2] == frame.stack[frame.stack.len() - 3],
    ensures
        reader.array_load(frame.array_store(vm, kind).1, kind) == (
            reader.pop().0.pop().0.push(stored_value(frame, kind)),
            Ok::<(), StopModel>(()),
        ),
{
    let popped = frame.pop_element(kind).0;
    assert(popped.stack == frame.stack.drop_last());
    assert(popped.stack.last() == frame.stack[frame.stack.len() - 2]);
    assert(popped.pop().0.stack.last() == frame.stack[frame.stack.len() - 3]);
    assert(reader.pop().0.stack.last() == reader.stack[reader.stack.len() - 2]);
}

/// Storing an array element leaves all other elements and all objects alone.
pub proof fn law_array_store_keeps_others(
    frame: FrameModel,
    vm: VmModel,
    kind: ArrayKind,
    other: ArrayRef,
    index: int,
)
    requires
        frame.array_store(vm, kind).2 is Ok,
        vm.heap.has_array(other),
        0 <= index < vm.heap.array(other).elements.len(),
        !(frame.stack[frame.stack.len() - 2] == Value::Int(index as i32) && frame.stack[
        frame.stack.len() - 3] == Value::Array(other)),
        index <= i32::MAX,
    ensures
        frame.array_store(vm, kind).1.heap.has_array(other),
        frame.array_store(vm, kind).1.heap.array(other).elements[index] == vm.heap.array(
            other,
        ).elements[index],
        frame.array_store(vm, kind).1.heap.objects == vm.heap.objects,
{
    let popped = frame.pop_element(kind).0;
    assert(popped.stack == frame.stack.drop_last());
    assert(popped.stack.last() == frame.stack[frame.stack.len() - 2]);
    assert(popped.pop().0.stack.last() == frame.stack[frame.stack.len() - 3]);
}

/// The remainder completes the quotient, is smaller than the divisor and has the sign of the
/// dividend; and where an integer quotient is defined, it is the mathematical one.
pub proof fn law_division(a: i32, b: i32)
    requires
        b != 0,
        !(a == i32::MIN && b == -1),
    ensures
        int_result(IntegerOp::Div, a, b) matches Ok(q) && q == quotient(a as int, b as int),
        int_result(IntegerOp::Rem, a, b) matches Ok(r) && r == remainder(a as int, b as int),
        quotient(a as int, b as int) * b + remainder(a as int, b as int) == a,
        -(if b < 0 { -b } else { b as int }) < remainder(a as int, b as int) < (if b < 0 {
            -b
        } else {
            b as int
        }),
        a >= 0 ==> remainder(a as int, b as int) >= 0,
        a <= 0 ==> remainder(a as int, b as int) <= 0,
{
    lemma_division(a as int, b as int);
    lemma_quotient_size(a as int, b as int);
}

/// The same of longs.
pub proof fn law_long_division(a: i64, b: i64)
    requires
        b != 0,
        !(a == i64::MIN && b == -1),
    ensures
        long_result(IntegerOp::Div, a, b) matches Ok(q) && q == quotient(a as int, b as int),
        long_result(IntegerOp::Rem, a, b) matches Ok(r) && r == remainder(a as int, b as int),
        quotient(a as int, b as int) * b + remainder(a as int, b as int) == a,
        -(if b < 0 { -b } else { b as int }) < remainder(a as int, b as int) < (if b < 0 {
            -b
        } else {
            b as int
        }),
        a >= 0 ==> remainder(a as int, b as int) >= 0,
        a <= 0 ==> remainder(a as int, b as int) <= 0,
{
    lemma_division(a as int, b as int);
    lemma_quotient_size(a as int, b as int);
}

proof fn lemma_division(a: int, b: int)
    requires
        b != 0,
    ensures
        quotient(a, b) * b + remainder(a, b) == a,
        -(if b < 0 { -b } else { b }) < remainder(a, b) < (if b < 0 { -b } else { b }),
        a >= 0 ==> remainder(a, b) >= 0,
        a <= 0 ==> remainder(a, b) <= 0,
{
    let x = if a >= 0 { a } else { -a };
    assert(x == (x / b) * b + x % b && 0 <= x % b && x % b < (if b < 0 { -b } else { b }))
        by (nonlinear_arith)
        requires
            b != 0,
    ;
    if a < 0 {
        assert((-(x / b)) * b == -((x / b) * b)) by (nonlinear_arith);
    }
    if a == 0 {
        assert(0int % b == 0) by (nonlinear_arith)
            requires
                b != 0,
        ;
    }
}

proof fn lemma_quotient_size(a: int, b: int)
    requires
        b != 0,
    ensures
        -(if a >= 0 { a } else { -a }) <= quotient(a, b) <= (if a >= 0 { a } else { -a }),
        a < 0 && (b > 1 || b < -1) ==> quotient(a, b) < -a,
{
    let x = if a >= 0 { a } else { -a };
    assert(-x <= x / b && x / b <= x) by (nonlinear_arith)
        requires
            b != 0,
            x >= 0,
    ;
    if b < -1 && x > 0 {
        assert(-x < x / b) by (nonlinear_arith)
            requires
                b < -1,
                x > 0,
        ;
    }
}

/// Narrowing an integer to a byte gives the integer of a byte that differs from it by a multiple
/// of 256. Integers that are bytes stay the same.
pub proof fn law_narrowing_to_byte(floats: FloatModel, value: i32)
    ensures
        coerced(floats, Coercion::Byte, value) matches Value::Int(byte) && -128 <= byte <= 127 && (
        value - byte) % 256 == 0,
        -128 <= value <= 127 ==> coerced(floats, Coercion::Byte, value) == Value::Int(value),
{
    assert(-128 <= (value as i8) as i32 && (value as i8) as i32 <= 127) by (bit_vector);
    assert((value - ((value as i8) as i32)) % 256 == 0) by (bit_vector);
}

/// Narrowing an integer to a character gives the integer of a character that differs from it by
/// a multiple of 65536. Integers that are characters stay the same.
pub proof fn law_narrowing_to_char(floats: FloatModel, value: i32)
    ensures
        coerced(floats, Coercion::Char, value) matches Value::Int(char) && 0 <= char <= 65535 && (
        value - char) % 65536 == 0,
        0 <= value <= 65535 ==> coerced(floats, Coercion::Char, value) == Value::Int(value),
{
    assert(0 <= (value as u16) as i32 && (value as u16) as i32 <= 65535) by (bit_vector);
    assert((value - ((value as u16) as i32)) % 65536 == 0) by (bit_vector);
}

/// Narrowing an integer to a short gives the integer of a short that differs from it by a
/// multiple of 65536. Integers that are shorts stay the same.
pub proof fn law_narrowing_to_short(floats: FloatModel, value: i32)
    ensures
        coerced(floats, Coercion::Short, value) matches Value::Int(short) && -32768 <= short
            <= 32767 && (value - short) % 65536 == 0,
        -32768 <= value <= 32767 ==> coerced(floats, Coercion::Short, value) == Value::Int(value),
{
    assert(-32768 <= (value as i16) as i32 && (value as i16) as i32 <= 32767) by (bit_vector);
    assert((value - ((value as i16) as i32)) % 65536 == 0) by (bit_vector);
}

/// Widening an integer to a long keeps the number.
pub proof fn law_widening_keeps_value(floats: FloatModel, value: i32)
    ensures
        coerced(floats, Coercion::Long, value) matches Value::Long(long) && long == value,
{
}

proof fn lemma_first_method_matches(
    methods: Seq<Rc<ClassFileMethod>>,
    name: Seq<char>,
    type_descriptor: Seq<char>,
)
    ensures
        first_method(methods, name, type_descriptor) matches Some(method) ==> methods.contains(
            method,
        ) && method.name@ == name && method.type_descriptor@ == type_descriptor,
    decreases methods.len(),
{
    if methods.len() > 0 {
        lemma_first_method_matches(methods.skip(1), name, type_descriptor);
        if methods[0].name@ == name && methods[0].type_descriptor@ == type_descriptor {
            assert(methods.contains(methods[0]));
        } else if let Some(method) = first_method(methods.skip(1), name, type_descriptor) {
            let i = choose|i: int| 0 <= i < methods.skip(1).len() && methods.skip(1)[i] == method;
            assert(methods[i + 1] == method);
        }
    }
}

/// A method that is found is one of the class that it is found in, and has the name and the type
/// descriptor that were looked for; a class's own method comes before that of its superclass.
pub proof fn law_found_method_matches(
    class: ClassRef,
    name: Seq<char>,
    type_descriptor: Seq<char>,
)
    ensures
        inherited_method(class, name, type_descriptor) matches Ok(found) ==> {
            &&& found.class.methods@.contains(found.method)
            &&& found.method.name@ == name
            &&& found.method.type_descriptor@ == type_descriptor
            &&& found.class == class || class.superclass == Some(found.class)
        },
        declared_method(class, name, type_descriptor) matches Ok(found) ==> {
            &&& inherited_method(class, name, type_descriptor) == Ok::<_, StopModel>(found)
            &&& found.class == class
        },
{
    lemma_first_method_matches(class.methods@, name, type_descriptor);
    if let Some(superclass) = class.superclass {
        lemma_first_method_matches(superclass.methods@, name, type_descriptor);
    }
}

/// A call goes to a method with the name and the type descriptor that its constant gives. A
/// virtual call goes to a method of the receiver's class, or of the superclass of that.
pub proof fn law_call_goes_to_named_method(
    frame: FrameModel,
    vm: VmModel,
    kind: InvokeKind,
    index: u16,
)
    requires
        prepared_call(frame, vm, kind, index) is Ok,
    ensures
        ({
            let call = prepared_call(frame, vm, kind, index)->Ok_0;
            let reference = frame.class_and_method.class.constants.method_reference(index);
            &&& reference is Some
            &&& call.class_and_method.method.name@ == reference->0.name
            &&& call.class_and_method.method.type_descriptor@ == reference->0.type_descriptor
            &&& kind == InvokeKind::Virtual ==> {
                &&& call.receiver is Some
                &&& class_with_id(vm.classes, call.receiver->0.class_id) matches Some(class)
                &&& call.class_and_method.class == class || class.superclass == Some(
                    call.class_and_method.class,
                )
            }
        }),
{
    let reference = frame.class_and_method.class.constants.method_reference(index)->0;
    let class = class_named(vm.classes, reference.class_name)->0;
    law_found_method_matches(class, reference.name, reference.type_descriptor);
    lemma_first_method_matches(class.methods@, reference.name, reference.type_descriptor);
    if kind == InvokeKind::Virtual {
        let receiver = prepared_call(frame, vm, kind, index)->Ok_0.receiver->0;
        let receiver_class = class_with_id(vm.classes, receiver.class_id)->0;
        law_found_method_matches(receiver_class, reference.name, reference.type_descriptor);
    }
}

/// A call takes the receiver and the arguments off the caller's stack, leaves what is below them,
/// and puts at most a result onto it, which fits the result type of the method.
pub proof fn law_call_replaces_operands(
    floats: FloatModel,
    budget: nat,
    frame: FrameModel,
    vm: VmModel,
    kind: InvokeKind,
    index: u16,
)
    requires
        call_method(floats, budget, frame, vm, kind, index).result is Ok,
    ensures
        ({
            let called = call_method(floats, budget, frame, vm, kind, index);
            let call = prepared_call(frame, vm, kind, index)->Ok_0;
            &&& prepared_call(frame, vm, kind, index) is Ok
            &&& call.height <= frame.stack.len()
            &&& frame.stack.take(call.height as int) == called.frame.stack.take(call.height as int)
            &&& match call.class_and_method.method.result_type() {
                None => called.frame.stack.len() == call.height,
                Some(result_type) => called.frame.stack.len() == call.height + 1 && called.vm.fits(
                    called.frame.stack.last(),
                    result_type,
                ),
            }
        }),
{
    let called = call_method(floats, budget, frame, vm, kind, index);
    let call = prepared_call(frame, vm, kind, index)->Ok_0;
    assert(frame.stack.take(call.height as int) == called.frame.stack.take(call.height as int));
}

/// Ending the topmost call undoes the start of it.
pub proof fn law_pop_frame_undoes_add_frame(frames: Seq<FrameModel>, frame: FrameModel)
    ensures
        frames.push(frame).len() > 0,
        frames.push(frame).drop_last() == frames,
{
    assert(frames.push(frame).drop_last() == frames);
}

} // verus!
