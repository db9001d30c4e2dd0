//! What instructions do with objects and arrays.

use crate::class::class_field;
use crate::class_loader::class_named;
use crate::field_type::{BaseType, FieldTypeModel};
use crate::float::FloatModel;
use crate::heap::ArrayModel;
use crate::instruction::{ArrayKind, Instruction, NewArrayType};
use crate::operand_laws::{executed, fails, faults, leaves_stack};
use crate::semantics::{create_object, next_step, with_vm, Flow, FrameModel, Step, VmModel};
use crate::value::{fits_type, ArrayRef, ObjectRef, Value};
use crate::vm_error::{StopModel, VmErrorModel};
use vstd::prelude::*;

verus! {

/// The frame goes on with this stack, and nothing else of it has changed.
pub open spec fn frame_goes_on(after: Step, frame: FrameModel, stack: Seq<Value>) -> bool {
    &&& after.flow == Ok::<Flow, StopModel>(Flow::Next)
    &&& after.frame.class_and_method == frame.class_and_method
    &&& after.frame.code == frame.code
    &&& after.frame.pc == frame.pc
    &&& after.frame.locals == frame.locals
    &&& after.frame.stack == stack
}

/// Two machines have the same classes, and have printed the same.
pub open spec fn same_but_for_heap(before: VmModel, after: VmModel) -> bool {
    &&& after.allocated == before.allocated
    &&& after.classes == before.classes
    &&& after.printed == before.printed
}

/// Creating an object adds one to the heap, after all that are there, which stay as they are. It
/// belongs to the class that was registered under the name, and has as many fields as the
/// instances of that class, none of which is initialized. The reference to it is its position,
/// with the identifier of its class. The instruction for it pushes that reference.
pub proof fn law_object_creation(
    floats: FloatModel,
    frame: FrameModel,
    vm: VmModel,
    index: u16,
    name: Seq<char>,
)
    ensures
        ({
            let (after, result) = create_object(vm, name);
            match class_named(vm.classes, name) {
                None => after == vm && result == Err::<ObjectRef, _>(
                    VmErrorModel::ClassNotFoundException(name),
                ),
                Some(class) => {
                    let count = vm.heap.objects.len();
                    &&& result == Ok::<_, VmErrorModel>(
                        ObjectRef { class_id: class.id, index: count as usize },
                    )
                    &&& same_but_for_heap(vm, after)
                    &&& after.heap.arrays == vm.heap.arrays
                    &&& after.heap.objects.len() == count + 1
                    &&& forall|i: int|
                        0 <= i < count ==> #[trigger] after.heap.objects[i] == vm.heap.objects[i]
                    &&& after.heap.objects[count as int].class_id == class.id
                    &&& after.heap.objects[count as int].fields.len() == class.num_total_fields
                    &&& forall|i: int|
                        0 <= i < class.num_total_fields
                            ==> #[trigger] after.heap.objects[count as int].fields[i]
                            == Value::Uninitialized
                },
            }
        }),
        ({
            let after = executed(floats, Instruction::New(index), frame, vm);
            match frame.class_and_method.class.constants.class_reference(index) {
                None => fails(after, frame, vm, VmErrorModel::ValidationException),
                Some(name) => match class_named(vm.classes, name) {
                    None => fails(after, frame, vm, VmErrorModel::ClassNotFoundException(name)),
                    Some(class) => {
                        let object = ObjectRef {
                            class_id: class.id,
                            index: vm.heap.objects.len() as usize,
                        };
                        &&& frame_goes_on(after, frame, frame.stack.push(Value::Object(object)))
                        &&& after.vm == create_object(vm, name).0
                    },
                },
            }
        }),
{
}

/// Reading a field takes an object off the stack and puts the value that the object holds at the
/// position of the field in its place, if it fits the type of the field. Nothing else changes.
pub proof fn law_field_reads(
    floats: FloatModel,
    frame: FrameModel,
    vm: VmModel,
    index: u16,
    below: Seq<Value>,
    value: Value,
)
    requires
        frame.stack == below.push(value),
    ensures
        ({
            let after = executed(floats, Instruction::Getfield(index), frame, vm);
            let class = frame.class_and_method.class;
            match class.constants.field_reference(index) {
                None => fails(after, frame, vm, VmErrorModel::ValidationException),
                Some(reference) => match class_field(*class, reference.class_name, reference.name) {
                    None => fails(
                        after,
                        frame,
                        vm,
                        VmErrorModel::FieldNotFoundException(reference.class_name, reference.name),
                    ),
                    Some((position, field)) => match value {
                        Value::Object(object) => if object.index >= vm.heap.objects.len()
                            || position >= vm.heap.objects[object.index as int].fields.len() {
                            faults(after, frame, vm)
                        } else {
                            let held = vm.heap.objects[object.index as int].fields[position as int];
                            if fits_type(held, field.type_descriptor@, vm.classes, vm.heap) {
                                leaves_stack(after, frame, vm, below.push(held))
                            } else {
                                fails(after, frame, vm, VmErrorModel::ValidationException)
                            }
                        },
                        _ => fails(after, frame, vm, VmErrorModel::ValidationException),
                    },
                },
            }
        }),
{
    assert(frame.stack.drop_last() == below);
}

/// Writing a field takes a value and the object below it off the stack, and makes the value,
/// which must fit the type of the field, what the object holds at the position of the field. All
/// other fields, objects and arrays stay as they are.
pub proof fn law_field_writes(
    floats: FloatModel,
    frame: FrameModel,
    vm: VmModel,
    index: u16,
    below: Seq<Value>,
    target: Value,
    value: Value,
)
    requires
        frame.stack == below.push(target).push(value),
    ensures
        ({
            let after = executed(floats, Instruction::Putfield(index), frame, vm);
            let class = frame.class_and_method.class;
            match class.constants.field_reference(index) {
                None => fails(after, frame, vm, VmErrorModel::ValidationException),
                Some(reference) => match class_field(*class, reference.class_name, reference.name) {
                    None => fails(
                        after,
                        frame,
                        vm,
                        VmErrorModel::FieldNotFoundException(reference.class_name, reference.name),
                    ),
                    Some((position, field)) => if !fits_type(
                        value,
                        field.type_descriptor@,
                        vm.classes,
                        vm.heap,
                    ) {
                        fails(after, frame, vm, VmErrorModel::ValidationException)
                    } else {
                        match target {
                            Value::Object(object) => if object.index >= vm.heap.objects.len()
                                || position >= vm.heap.objects[object.index as int].fields.len() {
                                faults(after, frame, vm)
                            } else {
                                frame_goes_on(after, frame, below) && field_is_written(
                                    vm,
                                    after.vm,
                                    object.index as int,
                                    position as int,
                                    value,
                                )
                            },
                            _ => fails(after, frame, vm, VmErrorModel::ValidationException),
                        }
                    },
                },
            }
        }),
{
    assert(frame.stack.drop_last() == below.push(target));
    assert(below.push(target).drop_last() == below);
}

/// A machine is another one with this value in one field of one object.
pub open spec fn field_is_written(
    before: VmModel,
    after: VmModel,
    object: int,
    position: int,
    value: Value,
) -> bool {
    &&& same_but_for_heap(before, after)
    &&& after.heap.arrays == before.heap.arrays
    &&& after.heap.objects.len() == before.heap.objects.len()
    &&& after.heap.objects[object].class_id == before.heap.objects[object].class_id
    &&& after.heap.objects[object].fields.len() == before.heap.objects[object].fields.len()
    &&& after.heap.objects[object].fields[position] == value
    &&& forall|i: int|
        0 <= i < before.heap.objects[object].fields.len() && i != position
            ==> #[trigger] after.heap.objects[object].fields[i]
            == before.heap.objects[object].fields[i]
    &&& forall|i: int|
        0 <= i < before.heap.objects.len() && i != object ==> #[trigger] after.heap.objects[i]
            == before.heap.objects[i]
}

/// The accesses to fields are refused where an operand is missing.
pub proof fn law_field_accesses_need_operands(
    floats: FloatModel,
    frame: FrameModel,
    vm: VmModel,
    index: u16,
)
    requires
        frame.class_and_method.class.constants.field_reference(index) is Some,
        class_field(
            *frame.class_and_method.class,
            frame.class_and_method.class.constants.field_reference(index)->0.class_name,
            frame.class_and_method.class.constants.field_reference(index)->0.name,
        ) is Some,
    ensures
        frame.stack.len() == 0 ==> fails(
            executed(floats, Instruction::Getfield(index), frame, vm),
            frame,
            vm,
            VmErrorModel::ValidationException,
        ),
        frame.stack.len() < 2 ==> fails(
            executed(floats, Instruction::Putfield(index), frame, vm),
            frame,
            vm,
            VmErrorModel::ValidationException,
        ),
{
}

/// A machine is another one with one more array: after all that are there, which stay as they
/// are, with elements of this type, as many as this, and each of them this value.
pub open spec fn array_is_added(
    before: VmModel,
    after: VmModel,
    element_type: FieldTypeModel,
    length: int,
    value: Value,
) -> bool {
    let count = before.heap.arrays.len();
    &&& same_but_for_heap(before, after)
    &&& after.heap.objects == before.heap.objects
    &&& after.heap.arrays.len() == count + 1
    &&& forall|i: int|
        0 <= i < count ==> #[trigger] after.heap.arrays[i] == before.heap.arrays[i]
    &&& after.heap.arrays[count as int].element_type == element_type
    &&& after.heap.arrays[count as int].elements.len() == length
    &&& forall|i: int|
        0 <= i < length ==> #[trigger] after.heap.arrays[count as int].elements[i] == value
}

/// A new array of primitive values takes the place of its length on the stack. It has the type
/// that was asked for, that many elements, and zero for each of them. The machine has no way to
/// go on where the length is negative.
pub proof fn law_primitive_array_creation(
    floats: FloatModel,
    frame: FrameModel,
    vm: VmModel,
    array_type: NewArrayType,
    below: Seq<Value>,
    length: i32,
)
    requires
        frame.stack == below.push(Value::Int(length)),
    ensures
        ({
            let after = executed(floats, Instruction::Newarray(array_type), frame, vm);
            let reference = ArrayRef { index: vm.heap.arrays.len() as usize };
            if length < 0 {
                faults(after, frame, vm)
            } else {
                &&& frame_goes_on(after, frame, below.push(Value::Array(reference)))
                &&& match array_type {
                    NewArrayType::Boolean => array_is_added(
                        vm,
                        after.vm,
                        FieldTypeModel::Base(BaseType::Boolean),
                        length as int,
                        Value::Int(0),
                    ),
                    NewArrayType::Char => array_is_added(
                        vm,
                        after.vm,
                        FieldTypeModel::Base(BaseType::Char),
                        length as int,
                        Value::Int(0),
                    ),
                    NewArrayType::Float => array_is_added(
                        vm,
                        after.vm,
                        FieldTypeModel::Base(BaseType::Float),
                        length as int,
                        Value::Float(0),
                    ),
                    NewArrayType::Double => array_is_added(
                        vm,
                        after.vm,
                        FieldTypeModel::Base(BaseType::Double),
                        length as int,
                        Value::Double(0),
                    ),
                    NewArrayType::Byte => array_is_added(
                        vm,
                        after.vm,
                        FieldTypeModel::Base(BaseType::Byte),
                        length as int,
                        Value::Int(0),
                    ),
                    NewArrayType::Short => array_is_added(
                        vm,
                        after.vm,
                        FieldTypeModel::Base(BaseType::Short),
                        length as int,
                        Value::Int(0),
                    ),
                    NewArrayType::Int => array_is_added(
                        vm,
                        after.vm,
                        FieldTypeModel::Base(BaseType::Int),
                        length as int,
                        Value::Int(0),
                    ),
                    NewArrayType::Long => array_is_added(
                        vm,
                        after.vm,
                        FieldTypeModel::Base(BaseType::Long),
                        length as int,
                        Value::Long(0),
                    ),
                }
            }
        }),
{
    assert(frame.stack.drop_last() == below);
}

/// A new array of objects takes the place of its length on the stack. It is for objects of the
/// class that the constant names, and holds none yet.
pub proof fn law_object_array_creation(
    floats: FloatModel,
    frame: FrameModel,
    vm: VmModel,
    index: u16,
    below: Seq<Value>,
    length: i32,
)
    requires
        frame.stack == below.push(Value::Int(length)),
    ensures
        ({
            let after = executed(floats, Instruction::Anewarray(index), frame, vm);
            let reference = ArrayRef { index: vm.heap.arrays.len() as usize };
            match frame.class_and_method.class.constants.class_reference(index) {
                None => fails(after, frame, vm, VmErrorModel::ValidationException),
                Some(name) => if length < 0 {
                    faults(after, frame, vm)
                } else {
                    &&& frame_goes_on(after, frame, below.push(Value::Array(reference)))
                    &&& array_is_added(
                        vm,
                        after.vm,
                        FieldTypeModel::Object(name),
                        length as int,
                        Value::Null,
                    )
                },
            }
        }),
{
    assert(frame.stack.drop_last() == below);
}

/// The number of elements of an array takes the place of the array on the stack.
pub proof fn law_array_lengths(
    floats: FloatModel,
    frame: FrameModel,
    vm: VmModel,
    below: Seq<Value>,
    array: ArrayRef,
)
    requires
        frame.stack == below.push(Value::Array(array)),
    ensures
        ({
            let after = executed(floats, Instruction::Arraylength, frame, vm);
            if array.index >= vm.heap.arrays.len() {
                faults(after, frame, vm)
            } else {
                &&& after.frame.stack.last() matches Value::Int(length)
                &&& leaves_stack(after, frame, vm, below.push(Value::Int(length)))
                &&& vm.heap.arrays[array.index as int].elements.len() <= i32::MAX ==> length
                    == vm.heap.arrays[array.index as int].elements.len()
            }
        }),
{
    assert(frame.stack.drop_last() == below);
}

/// The creation of arrays is refused where there is no integer for the length, and the length
/// where there is no array.
pub proof fn law_array_instructions_need_operands(
    floats: FloatModel,
    frame: FrameModel,
    vm: VmModel,
    array_type: NewArrayType,
    index: u16,
)
    ensures
        frame.stack.len() == 0 || frame.stack.last() !is Int ==> fails(
            executed(floats, Instruction::Newarray(array_type), frame, vm),
            frame,
            vm,
            VmErrorModel::ValidationException,
        ) && fails(
            executed(floats, Instruction::Anewarray(index), frame, vm),
            frame,
            vm,
            VmErrorModel::ValidationException,
        ),
        frame.stack.len() == 0 || frame.stack.last() !is Array ==> fails(
            executed(floats, Instruction::Arraylength, frame, vm),
            frame,
            vm,
            VmErrorModel::ValidationException,
        ),
{
}

/// What a load from an array does, if its elements are of the right type: the element at the
/// index takes the place of the array and the index, if there is one.
pub open spec fn loads_element(
    after: Step,
    frame: FrameModel,
    vm: VmModel,
    below: Seq<Value>,
    array: ArrayModel,
    index: int,
    right_type: bool,
) -> bool {
    if !right_type {
        fails(after, frame, vm, VmErrorModel::ValidationException)
    } else if index < 0 || array.elements.len() <= index {
        fails(after, frame, vm, VmErrorModel::ArrayIndexOutOfBoundsException)
    } else {
        leaves_stack(after, frame, vm, below.push(array.elements[index]))
    }
}

/// Each load from an array is for arrays of its own type of elements; that of bytes is also for
/// booleans.
pub proof fn law_array_loads(
    floats: FloatModel,
    frame: FrameModel,
    vm: VmModel,
    below: Seq<Value>,
    array: ArrayRef,
    index: i32,
)
    requires
        frame.stack == below.push(Value::Array(array)).push(Value::Int(index)),
        array.index < vm.heap.arrays.len(),
    ensures
        ({
            let held = vm.heap.arrays[array.index as int];
            &&& loads_element(
                executed(floats, Instruction::Baload, frame, vm),
                frame,
                vm,
                below,
                held,
                index as int,
                held.element_type == FieldTypeModel::Base(BaseType::Byte)
                    || held.element_type == FieldTypeModel::Base(BaseType::Boolean),
            )
            &&& loads_element(
                executed(floats, Instruction::Caload, frame, vm),
                frame,
                vm,
                below,
                held,
                index as int,
                held.element_type == FieldTypeModel::Base(BaseType::Char),
            )
            &&& loads_element(
                executed(floats, Instruction::Saload, frame, vm),
                frame,
                vm,
                below,
                held,
                index as int,
                held.element_type == FieldTypeModel::Base(BaseType::Short),
            )
            &&& loads_element(
                executed(floats, Instruction::Iaload, frame, vm),
                frame,
                vm,
                below,
                held,
                index as int,
                held.element_type == FieldTypeModel::Base(BaseType::Int),
            )
            &&& loads_element(
                executed(floats, Instruction::Laload, frame, vm),
                frame,
                vm,
                below,
                held,
                index as int,
                held.element_type == FieldTypeModel::Base(BaseType::Long),
            )
            &&& loads_element(
                executed(floats, Instruction::Faload, frame, vm),
                frame,
                vm,
                below,
                held,
                index as int,
                held.element_type == FieldTypeModel::Base(BaseType::Float),
            )
            &&& loads_element(
                executed(floats, Instruction::Daload, frame, vm),
                frame,
                vm,
                below,
                held,
                index as int,
                held.element_type == FieldTypeModel::Base(BaseType::Double),
            )
            &&& loads_element(
                executed(floats, Instruction::Aaload, frame, vm),
                frame,
                vm,
                below,
                held,
                index as int,
                held.element_type is Object,
            )
        }),
{
    assert(frame.stack.drop_last() == below.push(Value::Array(array)));
    assert(below.push(Value::Array(array)).drop_last() == below);
}

/// A load from an array needs an array and, above it, an integer. The machine has no way to go on
/// where the array does not exist.
pub proof fn law_array_loads_need_operands(
    floats: FloatModel,
    frame: FrameModel,
    vm: VmModel,
    instruction: Instruction,
)
    requires
        instruction == Instruction::Baload || instruction == Instruction::Caload
            || instruction == Instruction::Saload || instruction == Instruction::Iaload
            || instruction == Instruction::Laload || instruction == Instruction::Faload
            || instruction == Instruction::Daload || instruction == Instruction::Aaload,
    ensures
        ({
            let after = executed(floats, instruction, frame, vm);
            let height = frame.stack.len();
            &&& height < 2 || frame.stack[height - 1] !is Int || frame.stack[height - 2] !is Array
                ==> fails(after, frame, vm, VmErrorModel::ValidationException)
            &&& height >= 2 && frame.stack[height - 1] is Int && (frame.stack[height
                - 2] matches Value::Array(array) && array.index >= vm.heap.arrays.len())
                ==> faults(after, frame, vm)
        }),
{
    match instruction {
        Instruction::Baload => lemma_array_load_operands(frame, vm, ArrayKind::Byte),
        Instruction::Caload => lemma_array_load_operands(frame, vm, ArrayKind::Char),
        Instruction::Saload => lemma_array_load_operands(frame, vm, ArrayKind::Short),
        Instruction::Iaload => lemma_array_load_operands(frame, vm, ArrayKind::Int),
        Instruction::Laload => lemma_array_load_operands(frame, vm, ArrayKind::Long),
        Instruction::Faload => lemma_array_load_operands(frame, vm, ArrayKind::Float),
        Instruction::Daload => lemma_array_load_operands(frame, vm, ArrayKind::Double),
        Instruction::Aaload => lemma_array_load_operands(frame, vm, ArrayKind::Object),
        _ => {},
    }
}

proof fn lemma_array_load_operands(frame: FrameModel, vm: VmModel, kind: ArrayKind)
    ensures
        ({
            let after = next_step(with_vm(vm, frame.array_load(vm, kind)));
            let height = frame.stack.len();
            &&& height < 2 || frame.stack[height - 1] !is Int || frame.stack[height - 2] !is Array
                ==> fails(after, frame, vm, VmErrorModel::ValidationException)
            &&& height >= 2 && frame.stack[height - 1] is Int && (frame.stack[height
                - 2] matches Value::Array(array) && array.index >= vm.heap.arrays.len())
                ==> faults(after, frame, vm)
        }),
{
    if frame.stack.len() >= 2 {
        assert(frame.stack.drop_last().last() == frame.stack[frame.stack.len() - 2]);
    }
}

/// A machine is another one with this value as one element of one array.
pub open spec fn element_is_written(
    before: VmModel,
    after: VmModel,
    array: int,
    index: int,
    value: Value,
) -> bool {
    &&& same_but_for_heap(before, after)
    &&& after.heap.objects == before.heap.objects
    &&& after.heap.arrays.len() == before.heap.arrays.len()
    &&& after.heap.arrays[array].element_type == before.heap.arrays[array].element_type
    &&& after.heap.arrays[array].elements.len() == before.heap.arrays[array].elements.len()
    &&& after.heap.arrays[array].elements[index] == value
    &&& forall|i: int|
        0 <= i < before.heap.arrays[array].elements.len() && i != index
            ==> #[trigger] after.heap.arrays[array].elements[i]
            == before.heap.arrays[array].elements[i]
    &&& forall|i: int|
        0 <= i < before.heap.arrays.len() && i != array ==> #[trigger] after.heap.arrays[i]
            == before.heap.arrays[i]
}

/// What a store to an array does, if its elements are of the right type: the array, the index and
/// the value leave the stack, and the value becomes the element at the index, if there is one.
pub open spec fn stores_element(
    after: Step,
    frame: FrameModel,
    vm: VmModel,
    below: Seq<Value>,
    array: int,
    index: int,
    value: Value,
    right_type: bool,
) -> bool {
    if !right_type {
        fails(after, frame, vm, VmErrorModel::ValidationException)
    } else if index < 0 || vm.heap.arrays[array].elements.len() <= index {
        fails(after, frame, vm, VmErrorModel::ArrayIndexOutOfBoundsException)
    } else {
        frame_goes_on(after, frame, below) && element_is_written(vm, after.vm, array, index, value)
    }
}

/// What a store of a cut integer to an array does: the element becomes the integer of a range that
/// differs from the one on the stack by a multiple of the modulus.
pub open spec fn stores_narrowed(
    after: Step,
    frame: FrameModel,
    vm: VmModel,
    below: Seq<Value>,
    array: int,
    index: int,
    value: int,
    least: int,
    greatest: int,
    modulus: int,
    right_type: bool,
) -> bool {
    if !right_type {
        fails(after, frame, vm, VmErrorModel::ValidationException)
    } else if index < 0 || vm.heap.arrays[array].elements.len() <= index {
        fails(after, frame, vm, VmErrorModel::ArrayIndexOutOfBoundsException)
    } else {
        &&& frame_goes_on(after, frame, below)
        &&& after.vm.heap.arrays[array].elements[index] matches Value::Int(cut)
        &&& element_is_written(vm, after.vm, array, index, Value::Int(cut))
        &&& least <= cut <= greatest
        &&& (value - cut) % modulus == 0
    }
}

/// A store to an array of bytes or booleans makes the element the one that differs from the integer on
/// the stack by a multiple of 256.
pub proof fn law_byte_array_stores(
    floats: FloatModel,
    frame: FrameModel,
    vm: VmModel,
    below: Seq<Value>,
    array: ArrayRef,
    index: i32,
    value: i32,
)
    requires
        frame.stack == below.push(Value::Array(array)).push(Value::Int(index)).push(
            Value::Int(value),
        ),
        array.index < vm.heap.arrays.len(),
    ensures
        stores_narrowed(
            executed(floats, Instruction::Bastore, frame, vm),
            frame,
            vm,
            below,
            array.index as int,
            index as int,
            value as int,
            -128,
            127,
            256,
            vm.heap.arrays[array.index as int].element_type == FieldTypeModel::Base(BaseType::Byte)
                || vm.heap.arrays[array.index as int].element_type == FieldTypeModel::Base(BaseType::Boolean),
        ),
{
    lemma_three_operands(
        frame,
        below,
        Value::Array(array),
        Value::Int(index),
        Value::Int(value),
    );
    assert(-128 <= (value as i8) as i32 && (value as i8) as i32 <= 127) by (bit_vector);
    assert((value - ((value as i8) as i32)) % 256 == 0) by (bit_vector);
}

/// A store to an array of characters makes the element the one that differs from the integer on
/// the stack by a multiple of 65536.
pub proof fn law_char_array_stores(
    floats: FloatModel,
    frame: FrameModel,
    vm: VmModel,
    below: Seq<Value>,
    array: ArrayRef,
    index: i32,
    value: i32,
)
    requires
        frame.stack == below.push(Value::Array(array)).push(Value::Int(index)).push(
            Value::Int(value),
        ),
        array.index < vm.heap.arrays.len(),
    ensures
        stores_narrowed(
            executed(floats, Instruction::Castore, frame, vm),
            frame,
            vm,
            below,
            array.index as int,
            index as int,
            value as int,
            0,
            65535,
            65536,
            vm.heap.arrays[array.index as int].element_type == FieldTypeModel::Base(BaseType::Char),
        ),
{
    lemma_three_operands(
        frame,
        below,
        Value::Array(array),
        Value::Int(index),
        Value::Int(value),
    );
    assert(0 <= (value as u16) as i32 && (value as u16) as i32 <= 65535) by (bit_vector);
    assert((value - ((value as u16) as i32)) % 65536 == 0) by (bit_vector);
}

/// A store to an array of shorts makes the element the one that differs from the integer on
/// the stack by a multiple of 65536.
pub proof fn law_short_array_stores(
    floats: FloatModel,
    frame: FrameModel,
    vm: VmModel,
    below: Seq<Value>,
    array: ArrayRef,
    index: i32,
    value: i32,
)
    requires
        frame.stack == below.push(Value::Array(array)).push(Value::Int(index)).push(
            Value::Int(value),
        ),
        array.index < vm.heap.arrays.len(),
    ensures
        stores_narrowed(
            executed(floats, Instruction::Sastore, frame, vm),
            frame,
            vm,
            below,
            array.index as int,
            index as int,
            value as int,
            -32768,
            32767,
            65536,
            vm.heap.arrays[array.index as int].element_type == FieldTypeModel::Base(BaseType::Short),
        ),
{
    lemma_three_operands(
        frame,
        below,
        Value::Array(array),
        Value::Int(index),
        Value::Int(value),
    );
    assert(-32768 <= (value as i16) as i32 && (value as i16) as i32 <= 32767) by (bit_vector);
    assert((value - ((value as i16) as i32)) % 65536 == 0) by (bit_vector);
}

/// A store to an array of integers makes the element the very value that is on top of the stack.
pub proof fn law_int_array_stores(
    floats: FloatModel,
    frame: FrameModel,
    vm: VmModel,
    below: Seq<Value>,
    array: ArrayRef,
    index: i32,
    value: i32,
)
    requires
        frame.stack == below.push(Value::Array(array)).push(Value::Int(index)).push(
            Value::Int(value),
        ),
        array.index < vm.heap.arrays.len(),
    ensures
        stores_element(
            executed(floats, Instruction::Iastore, frame, vm),
            frame,
            vm,
            below,
            array.index as int,
            index as int,
            Value::Int(value),
            vm.heap.arrays[array.index as int].element_type == FieldTypeModel::Base(BaseType::Int),
        ),
{
    lemma_three_operands(
        frame,
        below,
        Value::Array(array),
        Value::Int(index),
        Value::Int(value),
    );
}

/// A store to an array of longs makes the element the very value that is on top of the stack.
pub proof fn law_long_array_stores(
    floats: FloatModel,
    frame: FrameModel,
    vm: VmModel,
    below: Seq<Value>,
    array: ArrayRef,
    index: i32,
    value: i64,
)
    requires
        frame.stack == below.push(Value::Array(array)).push(Value::Int(index)).push(
            Value::Long(value),
        ),
        array.index < vm.heap.arrays.len(),
    ensures
        stores_element(
            executed(floats, Instruction::Lastore, frame, vm),
            frame,
            vm,
            below,
            array.index as int,
            index as int,
            Value::Long(value),
            vm.heap.arrays[array.index as int].element_type == FieldTypeModel::Base(BaseType::Long),
        ),
{
    lemma_three_operands(
        frame,
        below,
        Value::Array(array),
        Value::Int(index),
        Value::Long(value),
    );
}

/// A store to an array of single-precision numbers makes the element the very value that is on top of the stack.
pub proof fn law_float_array_stores(
    floats: FloatModel,
    frame: FrameModel,
    vm: VmModel,
    below: Seq<Value>,
    array: ArrayRef,
    index: i32,
    value: u32,
)
    requires
        frame.stack == below.push(Value::Array(array)).push(Value::Int(index)).push(
            Value::Float(value),
        ),
        array.index < vm.heap.arrays.len(),
    ensures
        stores_element(
            executed(floats, Instruction::Fastore, frame, vm),
            frame,
            vm,
            below,
            array.index as int,
            index as int,
            Value::Float(value),
            vm.heap.arrays[array.index as int].element_type == FieldTypeModel::Base(BaseType::Float),
        ),
{
    lemma_three_operands(
        frame,
        below,
        Value::Array(array),
        Value::Int(index),
        Value::Float(value),
    );
}

/// A store to an array of double-precision numbers makes the element the very value that is on top of the stack.
pub proof fn law_double_array_stores(
    floats: FloatModel,
    frame: FrameModel,
    vm: VmModel,
    below: Seq<Value>,
    array: ArrayRef,
    index: i32,
    value: u64,
)
    requires
        frame.stack == below.push(Value::Array(array)).push(Value::Int(index)).push(
            Value::Double(value),
        ),
        array.index < vm.heap.arrays.len(),
    ensures
        stores_element(
            executed(floats, Instruction::Dastore, frame, vm),
            frame,
            vm,
            below,
            array.index as int,
            index as int,
            Value::Double(value),
            vm.heap.arrays[array.index as int].element_type == FieldTypeModel::Base(BaseType::Double),
        ),
{
    lemma_three_operands(
        frame,
        below,
        Value::Array(array),
        Value::Int(index),
        Value::Double(value),
    );
}

/// A store to an array of objects makes the element the very value that is on top of the stack.
/// The object must fit the type of the elements.
pub proof fn law_object_array_stores(
    floats: FloatModel,
    frame: FrameModel,
    vm: VmModel,
    below: Seq<Value>,
    array: ArrayRef,
    index: i32,
    value: ObjectRef,
)
    requires
        frame.stack == below.push(Value::Array(array)).push(Value::Int(index)).push(
            Value::Object(value),
        ),
        array.index < vm.heap.arrays.len(),
    ensures
        stores_element(
            executed(floats, Instruction::Aastore, frame, vm),
            frame,
            vm,
            below,
            array.index as int,
            index as int,
            Value::Object(value),
            vm.heap.arrays[array.index as int].element_type is Object && fits_type(
                Value::Object(value),
                vm.heap.arrays[array.index as int].element_type,
                vm.classes,
                vm.heap,
            ),
        ),
{
    lemma_three_operands(
        frame,
        below,
        Value::Array(array),
        Value::Int(index),
        Value::Object(value),
    );
}

proof fn lemma_three_operands(
    frame: FrameModel,
    below: Seq<Value>,
    first: Value,
    second: Value,
    third: Value,
)
    requires
        frame.stack == below.push(first).push(second).push(third),
    ensures
        frame.stack.drop_last() == below.push(first).push(second),
        frame.stack.drop_last().drop_last() == below.push(first),
        frame.stack.drop_last().drop_last().drop_last() == below,
{
    assert(frame.stack.drop_last() == below.push(first).push(second));
    assert(below.push(first).push(second).drop_last() == below.push(first));
    assert(below.push(first).drop_last() == below);
}

/// A store to an array needs an array, above it an integer, and above that a value of the kind
/// that the instruction stores. The machine has no way to go on where the array does not exist.
pub proof fn law_array_stores_need_operands(
    floats: FloatModel,
    frame: FrameModel,
    vm: VmModel,
    instruction: Instruction,
)
    requires
        instruction == Instruction::Bastore || instruction == Instruction::Castore
            || instruction == Instruction::Sastore || instruction == Instruction::Iastore
            || instruction == Instruction::Lastore || instruction == Instruction::Fastore
            || instruction == Instruction::Dastore || instruction == Instruction::Aastore,
    ensures
        ({
            let after = executed(floats, instruction, frame, vm);
            let height = frame.stack.len();
            let top = frame.stack[height - 1];
            let right_kind = match instruction {
                Instruction::Lastore => top is Long,
                Instruction::Fastore => top is Float,
                Instruction::Dastore => top is Double,
                Instruction::Aastore => top is Object,
                _ => top is Int,
            };
            let complete = height >= 3 && right_kind && frame.stack[height - 2] is Int
                && frame.stack[height - 3] is Array;
            &&& !complete ==> fails(after, frame, vm, VmErrorModel::ValidationException)
            &&& complete && frame.stack[height - 3]->Array_0.index >= vm.heap.arrays.len()
                ==> faults(after, frame, vm)
        }),
{
    match instruction {
        Instruction::Bastore => lemma_array_store_operands(frame, vm, ArrayKind::Byte),
        Instruction::Castore => lemma_array_store_operands(frame, vm, ArrayKind::Char),
        Instruction::Sastore => lemma_array_store_operands(frame, vm, ArrayKind::Short),
        Instruction::Iastore => lemma_array_store_operands(frame, vm, ArrayKind::Int),
        Instruction::Lastore => lemma_array_store_operands(frame, vm, ArrayKind::Long),
        Instruction::Fastore => lemma_array_store_operands(frame, vm, ArrayKind::Float),
        Instruction::Dastore => lemma_array_store_operands(frame, vm, ArrayKind::Double),
        Instruction::Aastore => lemma_array_store_operands(frame, vm, ArrayKind::Object),
        _ => {},
    }
}

proof fn lemma_array_store_operands(frame: FrameModel, vm: VmModel, kind: ArrayKind)
    ensures
        ({
            let after = next_step(frame.array_store(vm, kind));
            let height = frame.stack.len();
            let top = frame.stack[height - 1];
            let right_kind = match kind {
                ArrayKind::Long => top is Long,
                ArrayKind::Float => top is Float,
                ArrayKind::Double => top is Double,
                ArrayKind::Object => top is Object,
                _ => top is Int,
            };
            let complete = height >= 3 && right_kind && frame.stack[height - 2] is Int
                && frame.stack[height - 3] is Array;
            &&& !complete ==> fails(after, frame, vm, VmErrorModel::ValidationException)
            &&& complete && frame.stack[height - 3]->Array_0.index >= vm.heap.arrays.len()
                ==> faults(after, frame, vm)
        }),
{
    if frame.stack.len() >= 2 {
        assert(frame.stack.drop_last().last() == frame.stack[frame.stack.len() - 2]);
    }
    if frame.stack.len() >= 3 {
        assert(frame.stack.drop_last().drop_last().last() == frame.stack[frame.stack.len() - 3]);
    }
}

} // verus!
