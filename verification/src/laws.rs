//! What holds of every program: how runs relate to each other, and what they leave alone.

use crate::class::ClassAndMethod;
use crate::float::FloatModel;
use crate::heap::HeapModel;
use crate::instruction::{
    ArrayKind,
    ComputeOperation,
    DataOperation,
    HeapOperation,
    InvokeKind,
    NewArrayType,
    Operation,
};
use crate::semantics::{
    call_method,
    compute_effect,
    data_effect,
    ends,
    heap_effect,
    initial_frame,
    invoke,
    prepared_call,
    run,
    step,
    Flow,
    FrameModel,
    VmModel,
};
use crate::value::{ObjectRef, Value};
use crate::vm_error::StopModel;
use vstd::prelude::*;

verus! {

/// A heap holds at least what another does: the same objects, of the same classes and with the
/// same number of fields, and the same arrays, of the same type and length.
pub open spec fn heap_extends(before: HeapModel, after: HeapModel) -> bool {
    &&& before.objects.len() <= after.objects.len()
    &&& forall|i: int|
        0 <= i < before.objects.len() ==> (#[trigger] after.objects[i]).class_id
            == before.objects[i].class_id && after.objects[i].fields.len()
            == before.objects[i].fields.len()
    &&& before.arrays.len() <= after.arrays.len()
    &&& forall|i: int|
        0 <= i < before.arrays.len() ==> (#[trigger] after.arrays[i]).element_type
            == before.arrays[i].element_type && after.arrays[i].elements.len()
            == before.arrays[i].elements.len()
}

/// A machine is what another became: it has the same classes, and at least what the other had in
/// its heap and had printed.
pub open spec fn vm_extends(before: VmModel, after: VmModel) -> bool {
    &&& after.allocated == before.allocated
    &&& after.classes == before.classes
    &&& before.printed.is_prefix_of(after.printed)
    &&& heap_extends(before.heap, after.heap)
}

/// A frame is what another became: it is the call of the same method, with the same code and the
/// same number of locals.
pub open spec fn frame_continues(before: FrameModel, after: FrameModel) -> bool {
    &&& after.class_and_method == before.class_and_method
    &&& after.code == before.code
    &&& after.locals.len() == before.locals.len()
}

proof fn lemma_data_continues(operation: DataOperation, frame: FrameModel)
    ensures
        frame_continues(frame, data_effect(operation, frame).0),
{
}

proof fn lemma_compute_continues(
    floats: FloatModel,
    operation: ComputeOperation,
    frame: FrameModel,
)
    ensures
        frame_continues(frame, compute_effect(floats, operation, frame).0),
{
}

proof fn lemma_new_object_extends(frame: FrameModel, vm: VmModel, index: u16)
    ensures
        frame_continues(frame, frame.new_object(vm, index).0),
        vm_extends(vm, frame.new_object(vm, index).1),
{
}

proof fn lemma_put_field_extends(frame: FrameModel, vm: VmModel, index: u16)
    ensures
        frame_continues(frame, frame.put_field(vm, index).0),
        vm_extends(vm, frame.put_field(vm, index).1),
{
}

proof fn lemma_get_field_continues(frame: FrameModel, vm: VmModel, index: u16)
    ensures
        frame_continues(frame, frame.get_field(vm, index).0),
{
}

proof fn lemma_new_array_extends(frame: FrameModel, vm: VmModel, array_type: NewArrayType)
    ensures
        frame_continues(frame, frame.new_array(vm, array_type).0),
        vm_extends(vm, frame.new_array(vm, array_type).1),
{
}

proof fn lemma_new_object_array_extends(frame: FrameModel, vm: VmModel, index: u16)
    ensures
        frame_continues(frame, frame.new_object_array(vm, index).0),
        vm_extends(vm, frame.new_object_array(vm, index).1),
{
}

proof fn lemma_array_reads_continue(frame: FrameModel, vm: VmModel, kind: ArrayKind)
    ensures
        frame_continues(frame, frame.array_length(vm).0),
        frame_continues(frame, frame.array_load(vm, kind).0),
{
}

proof fn lemma_array_store_extends(frame: FrameModel, vm: VmModel, kind: ArrayKind)
    ensures
        frame_continues(frame, frame.array_store(vm, kind).0),
        vm_extends(vm, frame.array_store(vm, kind).1),
{
    assert(frame_continues(frame, frame.pop_element(kind).0));
}

#[verifier::spinoff_prover]
proof fn lemma_heap_continues(operation: HeapOperation, frame: FrameModel, vm: VmModel)
    ensures
        frame_continues(frame, heap_effect(operation, frame, vm).0),
        vm_extends(vm, heap_effect(operation, frame, vm).1),
{
    match operation {
        HeapOperation::New(index) => lemma_new_object_extends(frame, vm, index),
        HeapOperation::PutField(index) => lemma_put_field_extends(frame, vm, index),
        HeapOperation::GetField(index) => lemma_get_field_continues(frame, vm, index),
        HeapOperation::NewArray(array_type) => lemma_new_array_extends(frame, vm, array_type),
        HeapOperation::NewObjectArray(index) => lemma_new_object_array_extends(frame, vm, index),
        HeapOperation::ArrayLength => lemma_array_reads_continue(frame, vm, ArrayKind::Int),
        HeapOperation::ArrayLoad(kind) => lemma_array_reads_continue(frame, vm, kind),
        HeapOperation::ArrayStore(kind) => lemma_array_store_extends(frame, vm, kind),
    }
}

/// No operation changes the classes, shrinks the heap, takes back what was printed, or changes
/// the method, the code or the number of locals of its frame.
pub proof fn law_step_extends(
    floats: FloatModel,
    operation: Operation,
    frame: FrameModel,
    vm: VmModel,
)
    ensures
        frame_continues(frame, step(floats, operation, frame, vm).frame),
        vm_extends(vm, step(floats, operation, frame, vm).vm),
{
    match operation {
        Operation::Data(operation) => lemma_data_continues(operation, frame),
        Operation::Compute(operation) => lemma_compute_continues(floats, operation, frame),
        Operation::Heap(operation) => lemma_heap_continues(operation, frame, vm),
        _ => {},
    }
}

/// No run changes the classes, shrinks the heap, takes back what was printed, or changes the
/// method, the code or the number of locals of its frame, whether it ends with a result or not.
pub proof fn law_run_extends(floats: FloatModel, budget: nat, frame: FrameModel, vm: VmModel)
    ensures
        frame_continues(frame, run(floats, budget, frame, vm).frame),
        vm_extends(vm, run(floats, budget, frame, vm).vm),
    decreases budget, 0nat,
{
    if budget > 0 {
        if let Some((instruction, next)) = frame.code.at(frame.pc as int) {
            let fetched = FrameModel { pc: next, ..frame };
            let operation = instruction.spec_operation();
            let after = step(floats, operation, fetched, vm);
            let rest = (budget - 1) as nat;
            law_step_extends(floats, operation, fetched, vm);
            match after.flow {
                Ok(Flow::Next) => law_run_extends(floats, rest, after.frame, after.vm),
                Ok(Flow::Invoke(kind, index)) => {
                    law_call_extends(floats, rest, after.frame, after.vm, kind, index);
                    let called = call_method(floats, rest, after.frame, after.vm, kind, index);
                    law_run_extends(floats, rest, called.frame, called.vm);
                },
                _ => {},
            }
        }
    }
}

/// No call of a method changes the classes, shrinks the heap, or takes back what was printed.
pub proof fn law_invoke_extends(
    floats: FloatModel,
    budget: nat,
    vm: VmModel,
    class_and_method: ClassAndMethod,
    receiver: Option<ObjectRef>,
    arguments: Seq<Value>,
)
    ensures
        vm_extends(vm, invoke(floats, budget, vm, class_and_method, receiver, arguments).vm),
    decreases budget, 1nat,
{
    if let Ok(frame) = initial_frame(class_and_method, receiver, arguments) {
        law_run_extends(floats, budget, frame, vm);
    }
}

/// No call that an instruction makes changes the classes, shrinks the heap, takes back what was
/// printed, or changes the method, the code or the locals of the calling frame.
pub proof fn law_call_extends(
    floats: FloatModel,
    budget: nat,
    frame: FrameModel,
    vm: VmModel,
    kind: InvokeKind,
    index: u16,
)
    ensures
        frame_continues(frame, call_method(floats, budget, frame, vm, kind, index).frame),
        call_method(floats, budget, frame, vm, kind, index).frame.locals == frame.locals,
        call_method(floats, budget, frame, vm, kind, index).frame.pc == frame.pc,
        vm_extends(vm, call_method(floats, budget, frame, vm, kind, index).vm),
    decreases budget, 2nat,
{
    if let Ok(call) = prepared_call(frame, vm, kind, index) {
        law_invoke_extends(
            floats,
            budget,
            vm,
            call.class_and_method,
            call.receiver,
            call.arguments,
        );
    }
}

/// A run that has come to an end has no calls left on the stack: each call that it made has ended,
/// too.
pub proof fn law_ended_run_leaves_no_calls(
    floats: FloatModel,
    budget: nat,
    frame: FrameModel,
    vm: VmModel,
)
    requires
        ends(run(floats, budget, frame, vm).result),
    ensures
        run(floats, budget, frame, vm).calls == Seq::<FrameModel>::empty(),
    decreases budget,
{
    if let Some((instruction, next)) = frame.code.at(frame.pc as int) {
        let fetched = FrameModel { pc: next, ..frame };
        let after = step(floats, instruction.spec_operation(), fetched, vm);
        let rest = (budget - 1) as nat;
        match after.flow {
            Ok(Flow::Next) => law_ended_run_leaves_no_calls(floats, rest, after.frame, after.vm),
            Ok(Flow::Invoke(kind, index)) => {
                let called = call_method(floats, rest, after.frame, after.vm, kind, index);
                if called.result is Ok {
                    law_ended_run_leaves_no_calls(floats, rest, called.frame, called.vm);
                }
            },
            _ => {},
        }
    }
}

/// While the call of a method goes on, its frame is the first that the call has on the stack: it
/// is the frame that the call started with, in the state to which the run has brought it. Once
/// the call has ended it has no frame on the stack.
pub proof fn law_running_frame_is_on_stack(
    floats: FloatModel,
    budget: nat,
    vm: VmModel,
    class_and_method: ClassAndMethod,
    receiver: Option<ObjectRef>,
    arguments: Seq<Value>,
)
    requires
        !class_and_method.method.flags.is_native,
        initial_frame(class_and_method, receiver, arguments) is Ok,
    ensures
        ({
            let frame = initial_frame(class_and_method, receiver, arguments)->Ok_0;
            let called = invoke(floats, budget, vm, class_and_method, receiver, arguments);
            if ends(called.result) {
                called.calls == Seq::<FrameModel>::empty()
            } else {
                &&& called.calls.len() > 0
                &&& called.calls[0] == run(floats, budget, frame, vm).frame
                &&& called.calls.skip(1) == run(floats, budget, frame, vm).calls
                &&& frame_continues(frame, called.calls[0])
            }
        }),
{
    let frame = initial_frame(class_and_method, receiver, arguments)->Ok_0;
    law_run_extends(floats, budget, frame, vm);
    let ended = run(floats, budget, frame, vm);
    assert((seq![ended.frame] + ended.calls).skip(1) == ended.calls);
}

/// A run that a budget is enough for goes the same way with any larger budget.
pub proof fn law_larger_budget_same_run(
    floats: FloatModel,
    budget: nat,
    larger: nat,
    frame: FrameModel,
    vm: VmModel,
)
    requires
        budget <= larger,
        run(floats, budget, frame, vm).result != Err::<Option<Value>, _>(StopModel::OutOfBudget),
    ensures
        run(floats, larger, frame, vm) == run(floats, budget, frame, vm),
    decreases budget, 0nat,
{
    if let Some((instruction, next)) = frame.code.at(frame.pc as int) {
        let fetched = FrameModel { pc: next, ..frame };
        let after = step(floats, instruction.spec_operation(), fetched, vm);
        let rest = (budget - 1) as nat;
        let larger_rest = (larger - 1) as nat;
        match after.flow {
            Ok(Flow::Next) => law_larger_budget_same_run(
                floats,
                rest,
                larger_rest,
                after.frame,
                after.vm,
            ),
            Ok(Flow::Invoke(kind, index)) => {
                lemma_larger_budget_same_call(
                    floats,
                    rest,
                    larger_rest,
                    after.frame,
                    after.vm,
                    kind,
                    index,
                );
                let called = call_method(floats, rest, after.frame, after.vm, kind, index);
                if called.result is Ok {
                    law_larger_budget_same_run(floats, rest, larger_rest, called.frame, called.vm);
                }
            },
            _ => {},
        }
    }
}

/// A call that a budget is enough for goes the same way with any larger budget.
pub proof fn law_larger_budget_same_invocation(
    floats: FloatModel,
    budget: nat,
    larger: nat,
    vm: VmModel,
    class_and_method: ClassAndMethod,
    receiver: Option<ObjectRef>,
    arguments: Seq<Value>,
)
    requires
        budget <= larger,
        invoke(floats, budget, vm, class_and_method, receiver, arguments).result != Err::<
            Option<Value>,
            _,
        >(StopModel::OutOfBudget),
    ensures
        invoke(floats, larger, vm, class_and_method, receiver, arguments) == invoke(
            floats,
            budget,
            vm,
            class_and_method,
            receiver,
            arguments,
        ),
    decreases budget, 1nat,
{
    if !class_and_method.method.flags.is_native {
        if let Ok(frame) = initial_frame(class_and_method, receiver, arguments) {
            law_larger_budget_same_run(floats, budget, larger, frame, vm);
        }
    }
}

proof fn lemma_larger_budget_same_call(
    floats: FloatModel,
    budget: nat,
    larger: nat,
    frame: FrameModel,
    vm: VmModel,
    kind: InvokeKind,
    index: u16,
)
    requires
        budget <= larger,
        call_method(floats, budget, frame, vm, kind, index).result != Err::<(), _>(
            StopModel::OutOfBudget,
        ),
    ensures
        call_method(floats, larger, frame, vm, kind, index) == call_method(
            floats,
            budget,
            frame,
            vm,
            kind,
            index,
        ),
    decreases budget, 2nat,
{
    if let Ok(call) = prepared_call(frame, vm, kind, index) {
        law_larger_budget_same_invocation(
            floats,
            budget,
            larger,
            vm,
            call.class_and_method,
            call.receiver,
            call.arguments,
        );
    }
}

/// A run that ends within a budget also ends, in the same way, when it is not bounded.
pub proof fn law_bounded_run_ends(
    floats: FloatModel,
    budget: u64,
    frame: FrameModel,
    vm: VmModel,
)
    requires
        ends(run(floats, budget as nat, frame, vm).result),
    ensures
        ends(run(floats, u64::MAX as nat, frame, vm).result),
        run(floats, u64::MAX as nat, frame, vm) == run(floats, budget as nat, frame, vm),
{
    law_larger_budget_same_run(floats, budget as nat, u64::MAX as nat, frame, vm);
}

/// A call that ends within a budget also ends, in the same way, when it is not bounded.
pub proof fn law_bounded_invocation_ends(
    floats: FloatModel,
    budget: u64,
    vm: VmModel,
    class_and_method: ClassAndMethod,
    receiver: Option<ObjectRef>,
    arguments: Seq<Value>,
)
    requires
        ends(
            invoke(floats, budget as nat, vm, class_and_method, receiver, arguments).result,
        ),
    ensures
        ends(
            invoke(floats, u64::MAX as nat, vm, class_and_method, receiver, arguments).result,
        ),
        invoke(floats, u64::MAX as nat, vm, class_and_method, receiver, arguments) == invoke(
            floats,
            budget as nat,
            vm,
            class_and_method,
            receiver,
            arguments,
        ),
{
    law_larger_budget_same_invocation(
        floats,
        budget as nat,
        u64::MAX as nat,
        vm,
        class_and_method,
        receiver,
        arguments,
    );
}

} // verus!
