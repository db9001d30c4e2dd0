//! What holds of the objects of a machine: each has the fields of its class.

use crate::class::{Class, ClassAndMethod, ClassId, ClassRef};
use crate::class_laws::{
    class_is_consistent,
    classes_are_consistent,
    law_class_is_found_by_id,
    law_class_named_is_registered,
    law_field_is_in_instance,
};
use crate::class_loader::{class_named, class_with_id};
use crate::float::FloatModel;
use crate::instruction::{HeapOperation, InvokeKind, Operation};
use crate::laws::{law_step_extends, vm_extends};
use crate::semantics::{
    call_method,
    create_object,
    heap_effect,
    initial_frame,
    invoke,
    prepared_call,
    run,
    step,
    Flow,
    FrameModel,
    VmModel,
};
use crate::soundness::is_sound;
use crate::value::{ObjectRef, Value};
use crate::vm_error::StopModel;
use vstd::prelude::*;

verus! {

/// Every object belongs to a class of the machine and holds a value for each field of it.
pub open spec fn instances_are_complete(vm: VmModel) -> bool {
    forall|i: int|
        0 <= i < vm.heap.objects.len() ==> instance_is_complete(
            #[trigger] vm.heap.objects[i].class_id,
            vm.heap.objects[i].fields.len(),
            vm.classes,
        )
}

/// An object with a class identifier and a number of fields is an instance of one of the classes.
pub open spec fn instance_is_complete(id: ClassId, fields: nat, classes: Seq<ClassRef>) -> bool {
    class_with_id(classes, id) matches Some(class) && fields == class.num_total_fields
}

/// A class is another one, or has it above itself in the chain of superclasses.
pub open spec fn descends_from(class: Class, ancestor: Class) -> bool
    decreases class,
{
    ||| class == ancestor
    ||| class.superclass matches Some(superclass) && descends_from(*superclass, ancestor)
}

proof fn lemma_same_objects_stay_complete(before: VmModel, after: VmModel)
    requires
        instances_are_complete(before),
        vm_extends(before, after),
        after.heap.objects.len() == before.heap.objects.len(),
    ensures
        instances_are_complete(after),
{
    assert forall|i: int| 0 <= i < after.heap.objects.len() implies instance_is_complete(
        #[trigger] after.heap.objects[i].class_id,
        after.heap.objects[i].fields.len(),
        after.classes,
    ) by {
        assert(after.heap.objects[i].class_id == before.heap.objects[i].class_id);
    }
}

/// A new object has all the fields of its class, and no other object loses one.
pub proof fn law_new_object_is_complete(vm: VmModel, name: Seq<char>)
    requires
        classes_are_consistent(vm),
        instances_are_complete(vm),
    ensures
        classes_are_consistent(create_object(vm, name).0),
        instances_are_complete(create_object(vm, name).0),
{
    let after = create_object(vm, name).0;
    if let Some(class) = class_named(vm.classes, name) {
        law_class_named_is_registered(vm.classes, name);
        let k = choose|k: int| 0 <= k < vm.classes.len() && vm.classes[k] == class;
        law_class_is_found_by_id(vm, k);
        assert forall|i: int| 0 <= i < after.heap.objects.len() implies instance_is_complete(
            #[trigger] after.heap.objects[i].class_id,
            after.heap.objects[i].fields.len(),
            after.classes,
        ) by {
            if i < vm.heap.objects.len() {
                assert(after.heap.objects[i].class_id == vm.heap.objects[i].class_id);
            }
        }
    }
}

/// A class that is loaded under an identifier of its own takes no object its class.
pub proof fn law_loading_keeps_instances(before: VmModel, after: VmModel, class: ClassRef)
    requires
        classes_are_consistent(before),
        instances_are_complete(before),
        after.classes == before.classes.push(class),
        after.heap == before.heap,
        class.id == ClassId(before.classes.len() as u64),
        after.classes.len() <= usize::MAX,
    ensures
        instances_are_complete(after),
{
    assert forall|i: int| 0 <= i < after.heap.objects.len() implies instance_is_complete(
        #[trigger] after.heap.objects[i].class_id,
        after.heap.objects[i].fields.len(),
        after.classes,
    ) by {
        let id = before.heap.objects[i].class_id;
        lemma_class_with_id_is_registered(before.classes, id);
        let found = class_with_id(before.classes, id)->0;
        let k = choose|k: int| 0 <= k < before.classes.len() && before.classes[k] == found;
        assert(before.classes[k].id == ClassId(k as u64));
        assert(after.classes.drop_last() == before.classes);
    }
}

proof fn lemma_class_with_id_is_registered(classes: Seq<ClassRef>, id: ClassId)
    ensures
        class_with_id(classes, id) matches Some(class) ==> classes.contains(class) && class.id
            == id,
    decreases classes.len(),
{
    if classes.len() > 0 {
        lemma_class_with_id_is_registered(classes.drop_last(), id);
        if classes.last().id == id {
            assert(classes.contains(classes.last()));
        } else if let Some(class) = class_with_id(classes.drop_last(), id) {
            let i = choose|i: int|
                0 <= i < classes.drop_last().len() && classes.drop_last()[i] == class;
            assert(classes[i] == class);
        }
    }
}

#[verifier::spinoff_prover]
proof fn lemma_heap_effect_complete(operation: HeapOperation, frame: FrameModel, vm: VmModel)
    requires
        classes_are_consistent(vm),
        instances_are_complete(vm),
        vm_extends(vm, heap_effect(operation, frame, vm).1),
    ensures
        instances_are_complete(heap_effect(operation, frame, vm).1),
{
    let after = heap_effect(operation, frame, vm).1;
    match operation {
        HeapOperation::New(index) => {
            if let Some(name) = frame.class_and_method.class.constants.class_reference(index) {
                law_new_object_is_complete(vm, name);
            }
        },
        _ => lemma_same_objects_stay_complete(vm, after),
    }
}

/// No operation makes the classes of a machine inconsistent or an object incomplete.
pub proof fn law_step_keeps_instances(
    floats: FloatModel,
    operation: Operation,
    frame: FrameModel,
    vm: VmModel,
)
    requires
        classes_are_consistent(vm),
        instances_are_complete(vm),
    ensures
        classes_are_consistent(step(floats, operation, frame, vm).vm),
        instances_are_complete(step(floats, operation, frame, vm).vm),
{
    law_step_extends(floats, operation, frame, vm);
    if let Operation::Heap(operation) = operation {
        lemma_heap_effect_complete(operation, frame, vm);
    }
}

/// No run makes the classes of a machine inconsistent or an object incomplete.
pub proof fn law_run_keeps_instances(
    floats: FloatModel,
    budget: nat,
    frame: FrameModel,
    vm: VmModel,
)
    requires
        classes_are_consistent(vm),
        instances_are_complete(vm),
    ensures
        classes_are_consistent(run(floats, budget, frame, vm).vm),
        instances_are_complete(run(floats, budget, frame, vm).vm),
    decreases budget, 0nat,
{
    if budget > 0 {
        if let Some((instruction, next)) = frame.code.at(frame.pc as int) {
            let fetched = FrameModel { pc: next, ..frame };
            let operation = instruction.spec_operation();
            let after = step(floats, operation, fetched, vm);
            let rest = (budget - 1) as nat;
            law_step_keeps_instances(floats, operation, fetched, vm);
            match after.flow {
                Ok(Flow::Next) => law_run_keeps_instances(floats, rest, after.frame, after.vm),
                Ok(Flow::Invoke(kind, index)) => {
                    let called = call_method(floats, rest, after.frame, after.vm, kind, index);
                    lemma_call_keeps_instances(floats, rest, after.frame, after.vm, kind, index);
                    law_run_keeps_instances(floats, rest, called.frame, called.vm);
                },
                _ => {},
            }
        }
    }
}

/// No call of a method makes the classes of a machine inconsistent or an object incomplete.
pub proof fn law_invoke_keeps_instances(
    floats: FloatModel,
    budget: nat,
    vm: VmModel,
    class_and_method: ClassAndMethod,
    receiver: Option<ObjectRef>,
    arguments: Seq<Value>,
)
    requires
        classes_are_consistent(vm),
        instances_are_complete(vm),
    ensures
        classes_are_consistent(
            invoke(floats, budget, vm, class_and_method, receiver, arguments).vm,
        ),
        instances_are_complete(
            invoke(floats, budget, vm, class_and_method, receiver, arguments).vm,
        ),
    decreases budget, 1nat,
{
    if !class_and_method.method.flags.is_native {
        if let Ok(frame) = initial_frame(class_and_method, receiver, arguments) {
            law_run_keeps_instances(floats, budget, frame, vm);
        }
    }
}

proof fn lemma_call_keeps_instances(
    floats: FloatModel,
    budget: nat,
    frame: FrameModel,
    vm: VmModel,
    kind: InvokeKind,
    index: u16,
)
    requires
        classes_are_consistent(vm),
        instances_are_complete(vm),
    ensures
        classes_are_consistent(call_method(floats, budget, frame, vm, kind, index).vm),
        instances_are_complete(call_method(floats, budget, frame, vm, kind, index).vm),
    decreases budget, 2nat,
{
    if let Ok(call) = prepared_call(frame, vm, kind, index) {
        law_invoke_keeps_instances(
            floats,
            budget,
            vm,
            call.class_and_method,
            call.receiver,
            call.arguments,
        );
    }
}

/// An instance of a consistent class holds at least the values that an instance of a class above
/// it does.
pub proof fn law_descendant_has_fields_of_ancestor(class: &Class, ancestor: &Class)
    requires
        class_is_consistent(*class),
        descends_from(*class, *ancestor),
    ensures
        class_is_consistent(*ancestor),
        ancestor.num_total_fields <= class.num_total_fields,
    decreases class,
{
    if *class != *ancestor {
        if let Some(superclass) = class.superclass {
            law_descendant_has_fields_of_ancestor(&superclass, ancestor);
        }
    }
}

/// An object of the frame's class, or of a class that descends from it, has every field that a
/// constant of the frame's class names: reading or writing it may be refused, but does not fault.
pub proof fn law_own_fields_exist(frame: FrameModel, vm: VmModel, index: u16, object: ObjectRef)
    requires
        classes_are_consistent(vm),
        instances_are_complete(vm),
        is_sound(Value::Object(object), vm.heap),
        class_with_id(vm.classes, object.class_id) matches Some(class) && descends_from(
            *class,
            *frame.class_and_method.class,
        ),
    ensures
        frame.stack.len() > 0 && frame.stack.last() == Value::Object(object) ==> frame.get_field(
            vm,
            index,
        ).1 != Err::<(), _>(StopModel::Fault),
        frame.stack.len() > 1 && frame.stack[frame.stack.len() - 2] == Value::Object(object)
            ==> frame.put_field(vm, index).2 != Err::<(), _>(StopModel::Fault),
{
    let class = class_with_id(vm.classes, object.class_id)->0;
    lemma_class_with_id_is_registered(vm.classes, object.class_id);
    let k = choose|k: int| 0 <= k < vm.classes.len() && vm.classes[k] == class;
    assert(class_is_consistent(*vm.classes[k]));
    law_descendant_has_fields_of_ancestor(&class, &frame.class_and_method.class);
    assert(instance_is_complete(
        vm.heap.objects[object.index as int].class_id,
        vm.heap.objects[object.index as int].fields.len(),
        vm.classes,
    ));
    if let Some(reference) = frame.class_and_method.class.constants.field_reference(index) {
        law_field_is_in_instance(
            &frame.class_and_method.class,
            reference.class_name,
            reference.name,
        );
    }
    if frame.stack.len() > 1 {
        assert(frame.pop().0.stack.last() == frame.stack[frame.stack.len() - 2]);
    }
}

} // verus!
