//! References stay sound: every reference that a program can reach denotes an object of the class
//! that it says, or an array.

use crate::class::ClassAndMethod;
use crate::float::FloatModel;
use crate::heap::HeapModel;
use crate::instruction::{
    ArrayKind,
    ComputeOperation,
    DataOperation,
    HeapOperation,
    InvokeKind,
    NewArrayType,
    Operation,
};
use crate::laws::{heap_extends, law_call_extends, law_invoke_extends, law_run_extends};
use crate::semantics::{
    call_method,
    compute_effect,
    data_effect,
    heap_effect,
    initial_frame,
    invoke,
    prepared_call,
    run,
    step,
    Flow,
    FrameModel,
    VmModel,
};
use crate::value::{ObjectRef, Value};
use crate::vm_error::StopModel;
use vstd::prelude::*;

verus! {

/// A reference denotes an object of the class that it says, or an array.
pub open spec fn is_sound(value: Value, heap: HeapModel) -> bool {
    match value {
        Value::Object(object) => object.index < heap.objects.len()
            && heap.objects[object.index as int].class_id == object.class_id,
        Value::Array(array) => array.index < heap.arrays.len(),
        _ => true,
    }
}

/// All of some values are sound.
pub open spec fn all_sound(values: Seq<Value>, heap: HeapModel) -> bool {
    forall|i: int| 0 <= i < values.len() ==> is_sound(#[trigger] values[i], heap)
}

/// The values of all fields and elements are sound, and the length of each array is an integer of
/// the program.
pub open spec fn heap_is_sound(heap: HeapModel) -> bool {
    &&& forall|i: int|
        0 <= i < heap.objects.len() ==> all_sound((#[trigger] heap.objects[i]).fields, heap)
    &&& forall|i: int|
        0 <= i < heap.arrays.len() ==> all_sound((#[trigger] heap.arrays[i]).elements, heap)
            && heap.arrays[i].elements.len() <= i32::MAX
}

/// The values in the heap and those that were printed are sound.
pub open spec fn vm_is_sound(vm: VmModel) -> bool {
    heap_is_sound(vm.heap) && all_sound(vm.printed, vm.heap)
}

/// The locals of a frame and the values on its stack are sound.
pub open spec fn frame_is_sound(frame: FrameModel, heap: HeapModel) -> bool {
    all_sound(frame.locals, heap) && all_sound(frame.stack, heap)
}

/// The locals and the operands of some calls are sound.
pub open spec fn calls_are_sound(calls: Seq<FrameModel>, heap: HeapModel) -> bool {
    forall|i: int| 0 <= i < calls.len() ==> frame_is_sound(#[trigger] calls[i], heap)
}

/// The positions of all objects and arrays can be told apart, as in any heap that exists.
pub open spec fn heap_fits(heap: HeapModel) -> bool {
    heap.objects.len() <= usize::MAX && heap.arrays.len() <= usize::MAX
}

/// A receiver is sound.
pub open spec fn receiver_is_sound(receiver: Option<ObjectRef>, heap: HeapModel) -> bool {
    match receiver {
        Some(object) => is_sound(Value::Object(object), heap),
        None => true,
    }
}

/// A result is sound.
pub open spec fn result_is_sound(
    result: Result<Option<Value>, StopModel>,
    heap: HeapModel,
) -> bool {
    match result {
        Ok(Some(value)) => is_sound(value, heap),
        _ => true,
    }
}

proof fn lemma_sound_in_extension(values: Seq<Value>, before: HeapModel, after: HeapModel)
    requires
        all_sound(values, before),
        heap_extends(before, after),
    ensures
        all_sound(values, after),
{
    assert forall|i: int| 0 <= i < values.len() implies is_sound(#[trigger] values[i], after) by {
        assert(is_sound(values[i], before));
        match values[i] {
            Value::Object(object) => {
                assert(after.objects[object.index as int].class_id
                    == before.objects[object.index as int].class_id);
            },
            _ => {},
        }
    }
}

proof fn lemma_data_sound(operation: DataOperation, frame: FrameModel, heap: HeapModel)
    requires
        frame_is_sound(frame, heap),
        operation matches DataOperation::Push(value) ==> is_sound(value, heap),
    ensures
        frame_is_sound(data_effect(operation, frame).0, heap),
{
}

proof fn lemma_compute_sound(
    floats: FloatModel,
    operation: ComputeOperation,
    frame: FrameModel,
    heap: HeapModel,
)
    requires
        frame_is_sound(frame, heap),
    ensures
        frame_is_sound(compute_effect(floats, operation, frame).0, heap),
{
}

proof fn lemma_new_object_sound(frame: FrameModel, vm: VmModel, index: u16)
    requires
        frame_is_sound(frame, vm.heap),
        vm_is_sound(vm),
        heap_fits(frame.new_object(vm, index).1.heap),
    ensures
        frame_is_sound(frame.new_object(vm, index).0, frame.new_object(vm, index).1.heap),
        vm_is_sound(frame.new_object(vm, index).1),
{
    let after = frame.new_object(vm, index).1;
    assert(heap_extends(vm.heap, after.heap));
    lemma_sound_in_extension(frame.locals, vm.heap, after.heap);
    lemma_sound_in_extension(frame.stack, vm.heap, after.heap);
    lemma_sound_in_extension(vm.printed, vm.heap, after.heap);
    assert forall|i: int| 0 <= i < after.heap.objects.len() implies all_sound(
        (#[trigger] after.heap.objects[i]).fields,
        after.heap,
    ) by {
        if i < vm.heap.objects.len() {
            lemma_sound_in_extension(vm.heap.objects[i].fields, vm.heap, after.heap);
        }
    }
    assert forall|i: int| 0 <= i < after.heap.arrays.len() implies all_sound(
        (#[trigger] after.heap.arrays[i]).elements,
        after.heap,
    ) && after.heap.arrays[i].elements.len() <= i32::MAX by {
        lemma_sound_in_extension(vm.heap.arrays[i].elements, vm.heap, after.heap);
    }
}

proof fn lemma_new_array_heap_sound(vm: VmModel, after: VmModel)
    requires
        vm_is_sound(vm),
        heap_extends(vm.heap, after.heap),
        after.printed == vm.printed,
        after.heap.objects == vm.heap.objects,
        after.heap.arrays.len() == vm.heap.arrays.len() + 1,
        after.heap.arrays.drop_last() == vm.heap.arrays,
        all_sound(after.heap.arrays.last().elements, after.heap),
        after.heap.arrays.last().elements.len() <= i32::MAX,
    ensures
        vm_is_sound(after),
{
    lemma_sound_in_extension(vm.printed, vm.heap, after.heap);
    assert forall|i: int| 0 <= i < after.heap.objects.len() implies all_sound(
        (#[trigger] after.heap.objects[i]).fields,
        after.heap,
    ) by {
        lemma_sound_in_extension(vm.heap.objects[i].fields, vm.heap, after.heap);
    }
    assert forall|i: int| 0 <= i < after.heap.arrays.len() implies all_sound(
        (#[trigger] after.heap.arrays[i]).elements,
        after.heap,
    ) && after.heap.arrays[i].elements.len() <= i32::MAX by {
        if i < vm.heap.arrays.len() {
            assert(after.heap.arrays[i] == after.heap.arrays.drop_last()[i]);
            lemma_sound_in_extension(vm.heap.arrays[i].elements, vm.heap, after.heap);
        }
    }
}

proof fn lemma_new_array_sound(frame: FrameModel, vm: VmModel, array_type: NewArrayType)
    requires
        frame_is_sound(frame, vm.heap),
        vm_is_sound(vm),
        heap_fits(frame.new_array(vm, array_type).1.heap),
    ensures
        frame_is_sound(frame.new_array(vm, array_type).0, frame.new_array(vm, array_type).1.heap),
        vm_is_sound(frame.new_array(vm, array_type).1),
{
    let after = frame.new_array(vm, array_type).1;
    assert(heap_extends(vm.heap, after.heap));
    lemma_sound_in_extension(frame.locals, vm.heap, after.heap);
    lemma_sound_in_extension(frame.stack, vm.heap, after.heap);
    if frame.new_array(vm, array_type).2 is Ok {
        assert(after.heap.arrays.drop_last() == vm.heap.arrays);
        lemma_new_array_heap_sound(vm, after);
    }
}

proof fn lemma_new_object_array_sound(frame: FrameModel, vm: VmModel, index: u16)
    requires
        frame_is_sound(frame, vm.heap),
        vm_is_sound(vm),
        heap_fits(frame.new_object_array(vm, index).1.heap),
    ensures
        frame_is_sound(
            frame.new_object_array(vm, index).0,
            frame.new_object_array(vm, index).1.heap,
        ),
        vm_is_sound(frame.new_object_array(vm, index).1),
{
    let after = frame.new_object_array(vm, index).1;
    assert(heap_extends(vm.heap, after.heap));
    lemma_sound_in_extension(frame.locals, vm.heap, after.heap);
    lemma_sound_in_extension(frame.stack, vm.heap, after.heap);
    if frame.new_object_array(vm, index).2 is Ok {
        assert(after.heap.arrays.drop_last() == vm.heap.arrays);
        lemma_new_array_heap_sound(vm, after);
    }
}

proof fn lemma_with_field_sound(vm: VmModel, object: ObjectRef, position: usize, value: Value)
    requires
        vm_is_sound(vm),
        is_sound(value, vm.heap),
        vm.heap.has_field(object, position),
    ensures
        vm_is_sound(VmModel { heap: vm.heap.with_field(object, position, value), ..vm }),
{
    let after = vm.heap.with_field(object, position, value);
    assert(heap_extends(vm.heap, after));
    lemma_sound_in_extension(vm.printed, vm.heap, after);
    lemma_sound_in_extension(seq![value], vm.heap, after);
    assert(is_sound(seq![value][0], after));
    assert forall|i: int| 0 <= i < after.objects.len() implies all_sound(
        (#[trigger] after.objects[i]).fields,
        after,
    ) by {
        lemma_sound_in_extension(vm.heap.objects[i].fields, vm.heap, after);
    }
    assert forall|i: int| 0 <= i < after.arrays.len() implies all_sound(
        (#[trigger] after.arrays[i]).elements,
        after,
    ) && after.arrays[i].elements.len() <= i32::MAX by {
        lemma_sound_in_extension(vm.heap.arrays[i].elements, vm.heap, after);
    }
}

proof fn lemma_put_field_sound(frame: FrameModel, vm: VmModel, index: u16)
    requires
        frame_is_sound(frame, vm.heap),
        vm_is_sound(vm),
    ensures
        frame_is_sound(frame.put_field(vm, index).0, frame.put_field(vm, index).1.heap),
        vm_is_sound(frame.put_field(vm, index).1),
{
    let (rest, after, result) = frame.put_field(vm, index);
    assert(frame_is_sound(rest, vm.heap));
    if result is Ok {
        assert(heap_extends(vm.heap, after.heap));
        lemma_sound_in_extension(rest.locals, vm.heap, after.heap);
        lemma_sound_in_extension(rest.stack, vm.heap, after.heap);
        let position = frame.field(index)->Ok_0.0;
        let value = frame.stack.last();
        let object = frame.pop().0.pop_object().1->Ok_0;
        lemma_with_field_sound(vm, object, position, value);
    }
}

proof fn lemma_get_field_sound(frame: FrameModel, vm: VmModel, index: u16)
    requires
        frame_is_sound(frame, vm.heap),
        vm_is_sound(vm),
    ensures
        frame_is_sound(frame.get_field(vm, index).0, vm.heap),
{
}

proof fn lemma_array_reads_sound(frame: FrameModel, vm: VmModel, kind: ArrayKind)
    requires
        frame_is_sound(frame, vm.heap),
        vm_is_sound(vm),
    ensures
        frame_is_sound(frame.array_length(vm).0, vm.heap),
        frame_is_sound(frame.array_load(vm, kind).0, vm.heap),
{
}

proof fn lemma_with_element_sound(vm: VmModel, array: crate::value::ArrayRef, index: int, value: Value)
    requires
        vm_is_sound(vm),
        is_sound(value, vm.heap),
        vm.heap.has_array(array),
        0 <= index < vm.heap.array(array).elements.len(),
    ensures
        vm_is_sound(VmModel { heap: vm.heap.with_element(array, index, value), ..vm }),
{
    let after = vm.heap.with_element(array, index, value);
    assert(heap_extends(vm.heap, after));
    lemma_sound_in_extension(vm.printed, vm.heap, after);
    lemma_sound_in_extension(seq![value], vm.heap, after);
    assert(is_sound(seq![value][0], after));
    assert forall|i: int| 0 <= i < after.objects.len() implies all_sound(
        (#[trigger] after.objects[i]).fields,
        after,
    ) by {
        lemma_sound_in_extension(vm.heap.objects[i].fields, vm.heap, after);
    }
    assert forall|i: int| 0 <= i < after.arrays.len() implies all_sound(
        (#[trigger] after.arrays[i]).elements,
        after,
    ) && after.arrays[i].elements.len() <= i32::MAX by {
        lemma_sound_in_extension(vm.heap.arrays[i].elements, vm.heap, after);
    }
}

proof fn lemma_pop_element_sound(frame: FrameModel, heap: HeapModel, kind: ArrayKind)
    requires
        frame_is_sound(frame, heap),
    ensures
        frame_is_sound(frame.pop_element(kind).0, heap),
        frame.pop_element(kind).1 matches Ok(value) ==> is_sound(value, heap),
{
}

proof fn lemma_array_store_sound(frame: FrameModel, vm: VmModel, kind: ArrayKind)
    requires
        frame_is_sound(frame, vm.heap),
        vm_is_sound(vm),
    ensures
        frame_is_sound(frame.array_store(vm, kind).0, frame.array_store(vm, kind).1.heap),
        vm_is_sound(frame.array_store(vm, kind).1),
{
    lemma_pop_element_sound(frame, vm.heap, kind);
    let (popped, element) = frame.pop_element(kind);
    let (rest, after, result) = frame.array_store(vm, kind);
    assert(frame_is_sound(rest, vm.heap));
    if result is Ok {
        assert(heap_extends(vm.heap, after.heap));
        lemma_sound_in_extension(rest.locals, vm.heap, after.heap);
        lemma_sound_in_extension(rest.stack, vm.heap, after.heap);
        let index = popped.pop_int().1->Ok_0;
        let array = popped.pop_int().0.pop_array().1->Ok_0;
        lemma_with_element_sound(vm, array, index as int, element->Ok_0);
    }
}

#[verifier::spinoff_prover]
proof fn lemma_heap_sound(operation: HeapOperation, frame: FrameModel, vm: VmModel)
    requires
        frame_is_sound(frame, vm.heap),
        vm_is_sound(vm),
        heap_fits(heap_effect(operation, frame, vm).1.heap),
    ensures
        frame_is_sound(
            heap_effect(operation, frame, vm).0,
            heap_effect(operation, frame, vm).1.heap,
        ),
        vm_is_sound(heap_effect(operation, frame, vm).1),
{
    match operation {
        HeapOperation::New(index) => lemma_new_object_sound(frame, vm, index),
        HeapOperation::PutField(index) => lemma_put_field_sound(frame, vm, index),
        HeapOperation::GetField(index) => lemma_get_field_sound(frame, vm, index),
        HeapOperation::NewArray(array_type) => lemma_new_array_sound(frame, vm, array_type),
        HeapOperation::NewObjectArray(index) => lemma_new_object_array_sound(frame, vm, index),
        HeapOperation::ArrayLength => lemma_array_reads_sound(frame, vm, ArrayKind::Int),
        HeapOperation::ArrayLoad(kind) => lemma_array_reads_sound(frame, vm, kind),
        HeapOperation::ArrayStore(kind) => lemma_array_store_sound(frame, vm, kind),
    }
}

/// No operation but a push of an unsound value makes a value unsound.
pub proof fn law_step_sound(
    floats: FloatModel,
    operation: Operation,
    frame: FrameModel,
    vm: VmModel,
)
    requires
        frame_is_sound(frame, vm.heap),
        vm_is_sound(vm),
        operation matches Operation::Data(DataOperation::Push(value)) ==> is_sound(value, vm.heap),
        heap_fits(step(floats, operation, frame, vm).vm.heap),
    ensures
        ({
            let after = step(floats, operation, frame, vm);
            &&& frame_is_sound(after.frame, after.vm.heap)
            &&& vm_is_sound(after.vm)
            &&& after.flow matches Ok(Flow::Return(Some(value))) ==> is_sound(value, after.vm.heap)
        }),
{
    match operation {
        Operation::Data(operation) => lemma_data_sound(operation, frame, vm.heap),
        Operation::Compute(operation) => lemma_compute_sound(floats, operation, frame, vm.heap),
        Operation::Heap(operation) => lemma_heap_sound(operation, frame, vm),
        _ => {},
    }
}

/// A run that starts with sound references alone ends with sound references alone.
pub proof fn law_run_sound(floats: FloatModel, budget: nat, frame: FrameModel, vm: VmModel)
    requires
        frame_is_sound(frame, vm.heap),
        vm_is_sound(vm),
        heap_fits(run(floats, budget, frame, vm).vm.heap),
    ensures
        ({
            let ended = run(floats, budget, frame, vm);
            &&& frame_is_sound(ended.frame, ended.vm.heap)
            &&& vm_is_sound(ended.vm)
            &&& calls_are_sound(ended.calls, ended.vm.heap)
            &&& result_is_sound(ended.result, ended.vm.heap)
        }),
    decreases budget, 0nat,
{
    if budget > 0 {
        if let Some((instruction, next)) = frame.code.at(frame.pc as int) {
            let fetched = FrameModel { pc: next, ..frame };
            let operation = instruction.spec_operation();
            let after = step(floats, operation, fetched, vm);
            let rest = (budget - 1) as nat;
            match after.flow {
                Ok(Flow::Next) => {
                    law_run_extends(floats, rest, after.frame, after.vm);
                    law_step_sound(floats, operation, fetched, vm);
                    law_run_sound(floats, rest, after.frame, after.vm);
                },
                Ok(Flow::Invoke(kind, index)) => {
                    let called = call_method(floats, rest, after.frame, after.vm, kind, index);
                    law_call_extends(floats, rest, after.frame, after.vm, kind, index);
                    law_run_extends(floats, rest, called.frame, called.vm);
                    law_step_sound(floats, operation, fetched, vm);
                    lemma_call_sound(floats, rest, after.frame, after.vm, kind, index);
                    if called.result is Ok {
                        law_run_sound(floats, rest, called.frame, called.vm);
                    }
                },
                _ => law_step_sound(floats, operation, fetched, vm),
            }
        }
    }
}

/// A call of a method with a sound receiver and sound arguments leaves sound references alone
/// behind, and has a sound result.
pub proof fn law_invoke_sound(
    floats: FloatModel,
    budget: nat,
    vm: VmModel,
    class_and_method: ClassAndMethod,
    receiver: Option<ObjectRef>,
    arguments: Seq<Value>,
)
    requires
        vm_is_sound(vm),
        receiver_is_sound(receiver, vm.heap),
        all_sound(arguments, vm.heap),
        heap_fits(invoke(floats, budget, vm, class_and_method, receiver, arguments).vm.heap),
    ensures
        ({
            let ended = invoke(floats, budget, vm, class_and_method, receiver, arguments);
            &&& vm_is_sound(ended.vm)
            &&& calls_are_sound(ended.calls, ended.vm.heap)
            &&& result_is_sound(ended.result, ended.vm.heap)
        }),
    decreases budget, 1nat,
{
    if !class_and_method.method.flags.is_native {
        if let Ok(frame) = initial_frame(class_and_method, receiver, arguments) {
            assert(frame_is_sound(frame, vm.heap));
            law_run_sound(floats, budget, frame, vm);
        }
    }
}

proof fn lemma_call_sound(
    floats: FloatModel,
    budget: nat,
    frame: FrameModel,
    vm: VmModel,
    kind: InvokeKind,
    index: u16,
)
    requires
        frame_is_sound(frame, vm.heap),
        vm_is_sound(vm),
        heap_fits(call_method(floats, budget, frame, vm, kind, index).vm.heap),
    ensures
        ({
            let called = call_method(floats, budget, frame, vm, kind, index);
            &&& frame_is_sound(called.frame, called.vm.heap)
            &&& vm_is_sound(called.vm)
            &&& calls_are_sound(called.calls, called.vm.heap)
        }),
    decreases budget, 2nat,
{
    if let Ok(call) = prepared_call(frame, vm, kind, index) {
        let ended = invoke(
            floats,
            budget,
            vm,
            call.class_and_method,
            call.receiver,
            call.arguments,
        );
        law_invoke_sound(
            floats,
            budget,
            vm,
            call.class_and_method,
            call.receiver,
            call.arguments,
        );
        law_invoke_extends(
            floats,
            budget,
            vm,
            call.class_and_method,
            call.receiver,
            call.arguments,
        );
        let rest = FrameModel { stack: frame.stack.take(call.height as int), ..frame };
        assert(all_sound(rest.stack, vm.heap));
        lemma_sound_in_extension(rest.stack, vm.heap, ended.vm.heap);
        lemma_sound_in_extension(rest.locals, vm.heap, ended.vm.heap);
    }
}

/// In a sound state no array instruction finds a reference without an array, and the length of
/// an array is the integer that is pushed.
pub proof fn law_sound_arrays_exist(frame: FrameModel, vm: VmModel, kind: ArrayKind)
    requires
        frame_is_sound(frame, vm.heap),
        vm_is_sound(vm),
    ensures
        frame.array_length(vm).1 != Err::<(), _>(StopModel::Fault),
        frame.array_load(vm, kind).1 != Err::<(), _>(StopModel::Fault),
        frame.array_store(vm, kind).2 != Err::<(), _>(StopModel::Fault),
        frame.pop_array().1 matches Ok(array) ==> frame.array_length(vm).0.stack.last() is Int
            && frame.array_length(vm).0.stack.last()->Int_0 == vm.heap.array(array).elements.len(),
{
    lemma_pop_element_sound(frame, vm.heap, kind);
}

} // verus!
