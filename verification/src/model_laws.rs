//! What the models of the machine's data hold.

use crate::call_frame::CallFrame;
use crate::heap::{HeapModel, ObjectAllocator};
use crate::stack::Stack;
use crate::vm::Vm;
use crate::vm_error::{
    error_result,
    invalid,
    lift_error,
    stop_result,
    Stop,
    StopModel,
    VmError,
    VmErrorModel,
};
use vstd::prelude::*;

verus! {

/// The model of an error is the error of the same name, with the same texts.
pub proof fn law_error_models(error: VmError)
    ensures
        error is ValidationException <==> error@ is ValidationException,
        error is NullPointerException <==> error@ is NullPointerException,
        error is NotImplemented <==> error@ is NotImplemented,
        error is ArithmeticException <==> error@ is ArithmeticException,
        error is ArrayIndexOutOfBoundsException <==> error@ is ArrayIndexOutOfBoundsException,
        error matches VmError::ClassNotFoundException(name) ==> error@
            == VmErrorModel::ClassNotFoundException(name@),
        error matches VmError::FieldNotFoundException(class, field) ==> error@
            == VmErrorModel::FieldNotFoundException(class@, field@),
        error matches VmError::MethodNotFoundException(class, method, type_descriptor) ==> error@
            == VmErrorModel::MethodNotFoundException(class@, method@, type_descriptor@),
{
}

/// The model of a stop is the stop of the same name, with the model of its error.
pub proof fn law_stop_models(stop: Stop)
    ensures
        stop is Fault <==> stop@ is Fault,
        stop is OutOfBudget <==> stop@ is OutOfBudget,
        stop is Error <==> stop@ is Error,
        stop matches Stop::Error(error) ==> stop@ == StopModel::Error(error@),
{
}

/// In results, the model takes the place of the error alone.
pub proof fn law_result_models<T>(
    stopped: Result<T, Stop>,
    failed: Result<T, VmError>,
    modelled: Result<T, VmErrorModel>,
)
    ensures
        stopped matches Ok(value) ==> stop_result(stopped) == Ok::<T, StopModel>(value),
        stopped matches Err(stop) ==> stop_result(stopped) == Err::<T, StopModel>(stop@),
        failed matches Ok(value) ==> error_result(failed) == Ok::<T, VmErrorModel>(value),
        failed matches Err(error) ==> error_result(failed) == Err::<T, VmErrorModel>(error@),
        modelled matches Ok(value) ==> lift_error(modelled) == Ok::<T, StopModel>(value),
        modelled matches Err(error) ==> lift_error(modelled) == Err::<T, StopModel>(
            StopModel::Error(error),
        ),
        invalid::<T>() == Err::<T, StopModel>(
            StopModel::Error(VmErrorModel::ValidationException),
        ),
{
}

/// The model of a frame holds all that the frame does.
pub proof fn law_frame_model(frame: &CallFrame)
    ensures
        frame@.class_and_method == frame.class_and_method,
        frame@.code == *frame.code,
        frame@.pc == frame.pc,
        frame@.locals == frame.locals@,
        frame@.stack == frame.stack@,
{
}

/// The model of a stack holds the models of its frames, in their order.
pub proof fn law_stack_model(stack: &Stack, i: int)
    ensures
        stack@.len() == stack.frames@.len(),
        0 <= i < stack.frames@.len() ==> stack@[i] == stack.frames@[i]@,
{
}

/// The model of a heap holds the class and the fields of each object, and the type and the
/// elements of each array, in their order.
pub proof fn law_heap_model(heap: &ObjectAllocator, i: int)
    ensures
        heap@.objects.len() == heap.objects@.len(),
        0 <= i < heap.objects@.len() ==> heap@.objects[i].class_id == heap.objects@[i].class_id
            && heap@.objects[i].fields == heap.objects@[i].fields@,
        heap@.arrays.len() == heap.arrays@.len(),
        0 <= i < heap.arrays@.len() ==> heap@.arrays[i].element_type
            == heap.arrays@[i].element_type@ && heap@.arrays[i].elements
            == heap.arrays@[i].elements@,
        HeapModel::empty().objects.len() == 0,
        HeapModel::empty().arrays.len() == 0,
{
}

/// The model of a machine holds its classes, its heap, and what it printed.
pub proof fn law_vm_model(vm: &Vm)
    ensures
        vm@.allocated == vm.class_allocator.classes@,
        vm@.classes == vm.class_loader.classes@,
        vm@.heap == vm.object_allocator@,
        vm@.printed == vm.printed@,
{
}

} // verus!
