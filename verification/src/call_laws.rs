//! How methods are selected, called and run.

use crate::class::{ClassAndMethod, ClassId, ClassRef};
use crate::class_file::ClassFileMethod;
use crate::class_loader::{class_named, class_with_id};
use crate::float::FloatModel;
use crate::instruction::InvokeKind;
use crate::operand_laws::executed;
use crate::semantics::{
    call_method,
    declared_method,
    ends,
    identified_class,
    inherited_method,
    initial_frame,
    invoke,
    named_method,
    native_call,
    prepared_call,
    receiver_and_arguments,
    run,
    virtual_method,
    Flow,
    FrameModel,
    VmModel,
};
use crate::text::decimal;
use crate::value::{fits_type, ObjectRef, Value};
use crate::vm_error::{StopModel, VmErrorModel};
use vstd::prelude::*;

verus! {

/// A result is the error of code that does not have the shape that an instruction asks for.
pub open spec fn is_validation_error<T>(result: Result<T, StopModel>) -> bool {
    result matches Err(StopModel::Error(VmErrorModel::ValidationException))
}

/// A method that a class itself declares is found with that class. If a class has none, the error
/// names the class and what was looked for.
pub proof fn law_declared_methods(
    class: ClassRef,
    name: Seq<char>,
    type_descriptor: Seq<char>,
)
    ensures
        match class.method(name, type_descriptor) {
            Some(method) => declared_method(class, name, type_descriptor) matches Ok(found)
                && found.class == class && found.method == method,
            None => declared_method(class, name, type_descriptor) == Err::<ClassAndMethod, _>(
                StopModel::Error(
                    VmErrorModel::MethodNotFoundException(class.name@, name, type_descriptor),
                ),
            ),
        },
{
}

/// A method is looked for in a class first, then in its superclass. Without a superclass the error
/// names the class and what was looked for; with one that does not declare the method, the
/// machine has no way to go on.
pub proof fn law_inherited_methods(
    class: ClassRef,
    name: Seq<char>,
    type_descriptor: Seq<char>,
)
    ensures
        class.method(name, type_descriptor) matches Some(method) ==> (inherited_method(
            class,
            name,
            type_descriptor,
        ) matches Ok(found) && found.class == class && found.method == method),
        class.method(name, type_descriptor) is None && class.superclass is None
            ==> inherited_method(class, name, type_descriptor) == Err::<ClassAndMethod, _>(
            StopModel::Error(
                VmErrorModel::MethodNotFoundException(class.name@, name, type_descriptor),
            ),
        ),
        class.method(name, type_descriptor) is None ==> (class.superclass matches Some(superclass)
            ==> match superclass.method(name, type_descriptor) {
            Some(method) => inherited_method(class, name, type_descriptor) matches Ok(found)
                && found.class == superclass && found.method == method,
            None => inherited_method(class, name, type_descriptor) == Err::<ClassAndMethod, _>(
                StopModel::Fault,
            ),
        }),
{
}

/// The class of an identifier is found, or the error gives the identifier in decimal notation.
pub proof fn law_identified_class(vm: VmModel, id: ClassId)
    ensures
        match class_with_id(vm.classes, id) {
            Some(class) => identified_class(vm, id) == Ok::<_, VmErrorModel>(class),
            None => identified_class(vm, id) == Err::<ClassRef, _>(
                VmErrorModel::ClassNotFoundException(decimal(id.0 as nat)),
            ),
        },
{
}

/// A virtual call needs a receiver, and goes to the method that the class of the receiver finds
/// under the name and the type descriptor.
pub proof fn law_virtual_methods(
    vm: VmModel,
    receiver: Option<ObjectRef>,
    method: ClassFileMethod,
)
    ensures
        receiver is None ==> is_validation_error(virtual_method(vm, receiver, method)),
        receiver matches Some(object) ==> match class_with_id(vm.classes, object.class_id) {
            None => virtual_method(vm, receiver, method) == Err::<ClassAndMethod, _>(
                StopModel::Error(
                    VmErrorModel::ClassNotFoundException(decimal(object.class_id.0 as nat)),
                ),
            ),
            Some(class) => virtual_method(vm, receiver, method) == inherited_method(
                class,
                method.name@,
                method.type_descriptor@,
            ),
        },
{
}

/// The method that a constant names is looked for in the class that the constant names: a virtual
/// one also in the superclass, others in the class alone.
pub proof fn law_named_methods(frame: FrameModel, vm: VmModel, kind: InvokeKind, index: u16)
    ensures
        match frame.class_and_method.class.constants.method_reference(index) {
            None => is_validation_error(named_method(frame, vm, kind, index)),
            Some(reference) => match class_named(vm.classes, reference.class_name) {
                None => named_method(frame, vm, kind, index) == Err::<ClassAndMethod, _>(
                    StopModel::Error(
                        VmErrorModel::ClassNotFoundException(reference.class_name),
                    ),
                ),
                Some(class) => {
                    &&& kind == InvokeKind::Virtual ==> named_method(frame, vm, kind, index)
                        == inherited_method(class, reference.name, reference.type_descriptor)
                    &&& kind != InvokeKind::Virtual ==> named_method(frame, vm, kind, index)
                        == declared_method(class, reference.name, reference.type_descriptor)
                },
            },
        },
{
}

/// The arguments of a call are the topmost values of the caller's stack, as many as the method has
/// parameters and in the order in which they were pushed. The receiver of a method that is not
/// static is the object just below them. The height is that of the stack without all these.
pub proof fn law_operands_of_a_call(frame: FrameModel, method: ClassFileMethod)
    ensures
        ({
            let found = receiver_and_arguments(frame, method);
            let count = method.parameters@.len();
            let top = frame.stack.len();
            if method.flags.is_static {
                if top < count {
                    is_validation_error(found)
                } else {
                    &&& found matches Ok((receiver, arguments, height))
                    &&& receiver is None
                    &&& height == top - count
                    &&& arguments.len() == count
                    &&& forall|i: int|
                        0 <= i < count ==> #[trigger] arguments[i] == frame.stack[top - count + i]
                }
            } else {
                if top < count + 1 || frame.stack[top - count - 1] !is Object {
                    is_validation_error(found)
                } else {
                    &&& found matches Ok((receiver, arguments, height))
                    &&& receiver matches Some(object)
                    &&& frame.stack[top - count - 1] == Value::Object(object)
                    &&& height == top - count - 1
                    &&& arguments.len() == count
                    &&& forall|i: int|
                        0 <= i < count ==> #[trigger] arguments[i] == frame.stack[top - count + i]
                }
            }
        }),
{
}

/// A call is made with the operands that the named method asks for. A virtual call goes to the
/// method that the class of the receiver has; other calls go to the named method.
pub proof fn law_prepared_calls(frame: FrameModel, vm: VmModel, kind: InvokeKind, index: u16)
    ensures
        match named_method(frame, vm, kind, index) {
            Err(stop) => prepared_call(frame, vm, kind, index) matches Err(other) && other == stop,
            Ok(named) => match receiver_and_arguments(frame, *named.method) {
                Err(_) => is_validation_error(prepared_call(frame, vm, kind, index)),
                Ok((receiver, arguments, height)) => if kind == InvokeKind::Virtual {
                    match virtual_method(vm, receiver, *named.method) {
                        Err(stop) => prepared_call(frame, vm, kind, index) matches Err(other)
                            && other == stop,
                        Ok(selected) => {
                            &&& prepared_call(frame, vm, kind, index) matches Ok(call)
                            &&& call.class_and_method == selected
                            &&& call.receiver == receiver
                            &&& call.arguments == arguments
                            &&& call.height == height
                        },
                    }
                } else {
                    &&& prepared_call(frame, vm, kind, index) matches Ok(call)
                    &&& call.class_and_method == named
                    &&& call.receiver == receiver
                    &&& call.arguments == arguments
                    &&& call.height == height
                },
            },
        },
{
    if let Ok(named) = named_method(frame, vm, kind, index) {
        lemma_operand_error(frame, &named.method);
    }
}

proof fn lemma_operand_error(frame: FrameModel, method: &ClassFileMethod)
    ensures
        receiver_and_arguments(frame, *method) is Err ==> is_validation_error(
            receiver_and_arguments(frame, *method),
        ),
{
}

/// A call starts with the receiver, if there is one, as its first local, with the arguments as the
/// locals after it, and with locals that are not initialized up to the number that the method
/// asks for. It starts at the first address of the code, with an empty operand stack. A static
/// method must not have a receiver, others need one; native methods have no frame, and one without
/// code leaves the machine without a way to go on.
pub proof fn law_start_of_a_call(
    class_and_method: ClassAndMethod,
    receiver: Option<ObjectRef>,
    arguments: Seq<Value>,
)
    ensures
        ({
            let started = initial_frame(class_and_method, receiver, arguments);
            let method = class_and_method.method;
            if method.flags.is_static && receiver is Some {
                is_validation_error(started)
            } else if !method.flags.is_static && receiver is None {
                started == Err::<FrameModel, _>(
                    StopModel::Error(VmErrorModel::NullPointerException),
                )
            } else if method.flags.is_native {
                started == Err::<FrameModel, _>(StopModel::Error(VmErrorModel::NotImplemented))
            } else if method.code is None {
                started == Err::<FrameModel, _>(StopModel::Fault)
            } else {
                let code = method.code->0;
                let first: int = if receiver is Some {
                    1
                } else {
                    0
                };
                &&& started matches Ok(frame)
                &&& frame.class_and_method == class_and_method
                &&& frame.code == *code.code
                &&& frame.pc == 0
                &&& frame.stack.len() == 0
                &&& frame.locals.len() == if first + arguments.len() < code.max_locals {
                    code.max_locals as int
                } else {
                    first + arguments.len()
                }
                &&& receiver matches Some(object) ==> frame.locals[0] == Value::Object(object)
                &&& forall|i: int|
                    0 <= i < arguments.len() ==> frame.locals[first + i] == #[trigger] arguments[i]
                &&& forall|i: int|
                    first + arguments.len() <= i < frame.locals.len()
                        ==> #[trigger] frame.locals[i] == Value::Uninitialized
            }
        }),
{
}

/// The locals that a called method starts with are the operands of the call, as they lie on the
/// stack of the caller: the object that it is called on and the values above it.
pub proof fn law_callee_gets_operands(
    frame: FrameModel,
    vm: VmModel,
    kind: InvokeKind,
    index: u16,
)
    requires
        prepared_call(frame, vm, kind, index) is Ok,
    ensures
        ({
            let call = prepared_call(frame, vm, kind, index)->Ok_0;
            let named = named_method(frame, vm, kind, index)->Ok_0;
            let operands = frame.stack.len() - call.height;
            &&& named_method(frame, vm, kind, index) is Ok
            &&& operands == named.method.parameters@.len() + if named.method.flags.is_static {
                0int
            } else {
                1int
            }
            &&& initial_frame(
                call.class_and_method,
                call.receiver,
                call.arguments,
            ) matches Ok(callee) ==> {
                &&& callee.locals.len() >= operands
                &&& forall|i: int|
                    0 <= i < operands ==> #[trigger] callee.locals[i] == frame.stack[call.height
                        + i]
            }
        }),
{
    let call = prepared_call(frame, vm, kind, index)->Ok_0;
    let named = named_method(frame, vm, kind, index)->Ok_0;
    if let Ok(callee) = initial_frame(call.class_and_method, call.receiver, call.arguments) {
        let operands = frame.stack.len() - call.height;
        law_start_of_a_call(call.class_and_method, call.receiver, call.arguments);
        assert forall|i: int| 0 <= i < operands implies #[trigger] callee.locals[i]
            == frame.stack[call.height + i] by {
            if call.receiver is Some {
                if i > 0 {
                    assert(callee.locals[1 + (i - 1)] == call.arguments[i - 1]);
                }
            } else {
                assert(callee.locals[0 + i] == call.arguments[i]);
            }
        }
    }
}

/// The one native method is that of the name `tempPrint`, in a class whose name begins with
/// `rjvm/`: it prints its first argument, and needs one. All other native methods are missing.
pub proof fn law_native_calls(
    vm: VmModel,
    class_and_method: ClassAndMethod,
    arguments: Seq<Value>,
)
    ensures
        ({
            let (after, result) = native_call(vm, class_and_method, arguments);
            let class_name = class_and_method.class.name@;
            let prints = class_name.len() >= 5 && class_name.take(5) == seq![
                'r',
                'j',
                'v',
                'm',
                '/',
            ] && class_and_method.method.name@ == seq![
                't',
                'e',
                'm',
                'p',
                'P',
                'r',
                'i',
                'n',
                't',
            ];
            if !prints {
                after == vm && result == Err::<Option<Value>, _>(VmErrorModel::NotImplemented)
            } else if arguments.len() == 0 {
                after == vm && result == Err::<Option<Value>, _>(
                    VmErrorModel::ValidationException,
                )
            } else {
                &&& result == Ok::<_, VmErrorModel>(None::<Value>)
                &&& after.allocated == vm.allocated
                &&& after.classes == vm.classes
                &&& after.heap == vm.heap
                &&& after.printed.len() == vm.printed.len() + 1
                &&& after.printed.last() == arguments[0]
                &&& forall|i: int|
                    0 <= i < vm.printed.len() ==> #[trigger] after.printed[i] == vm.printed[i]
            }
        }),
{
    reveal_strlit("rjvm/");
    reveal_strlit("tempPrint");
    let prefix = seq!['r', 'j', 'v', 'm', '/'];
    let print = seq!['t', 'e', 'm', 'p', 'P', 'r', 'i', 'n', 't'];
    let class_name = class_and_method.class.name@;
    assert(crate::semantics::runtime_prefix() == prefix);
    assert(crate::semantics::print_name() == print);
    if class_name.len() >= 5 {
        assert(class_name.take(5) == class_name.subrange(0, 5));
    }
}

/// Which ends there are: a result, and an error of the program. Faults and used up budgets are
/// none.
pub proof fn law_ends(value: Option<Value>, error: VmErrorModel)
    ensures
        ends(Ok(value)),
        ends(Err(StopModel::Error(error))),
        !ends(Err(StopModel::Fault)),
        !ends(Err(StopModel::OutOfBudget)),
{
}

/// The call of a method is the run of its first frame, and the call of a native method is what
/// that does. What keeps a frame from being made is what the call ends with, and changes nothing.
pub proof fn law_invocations(
    floats: FloatModel,
    budget: nat,
    vm: VmModel,
    class_and_method: ClassAndMethod,
    receiver: Option<ObjectRef>,
    arguments: Seq<Value>,
)
    ensures
        ({
            let called = invoke(floats, budget, vm, class_and_method, receiver, arguments);
            if class_and_method.method.flags.is_native {
                &&& called.vm == native_call(vm, class_and_method, arguments).0
                &&& called.calls.len() == 0
                &&& native_call(vm, class_and_method, arguments).1 matches Ok(value)
                    ==> called.result == Ok::<_, StopModel>(value)
                &&& native_call(vm, class_and_method, arguments).1 matches Err(error)
                    ==> called.result == Err::<Option<Value>, _>(StopModel::Error(error))
            } else {
                match initial_frame(class_and_method, receiver, arguments) {
                    Err(stop) => {
                        &&& called.vm == vm
                        &&& called.calls.len() == 0
                        &&& called.result == Err::<Option<Value>, _>(stop)
                    },
                    Ok(frame) => {
                        &&& called.vm == run(floats, budget, frame, vm).vm
                        &&& called.result == run(floats, budget, frame, vm).result
                    },
                }
            }
        }),
{
}

/// The call that an instruction makes takes the operands off the stack of its frame, and pushes
/// the result of the called method, if there is one. The result must be of the type of the called
/// method. What keeps the method from having a result ends the calling method, too. Nothing else
/// of the frame changes.
pub proof fn law_calls_of_instructions(
    floats: FloatModel,
    budget: nat,
    frame: FrameModel,
    vm: VmModel,
    kind: InvokeKind,
    index: u16,
)
    ensures
        ({
            let called = call_method(floats, budget, frame, vm, kind, index);
            match prepared_call(frame, vm, kind, index) {
                Err(stop) => {
                    &&& called.result == Err::<(), _>(stop)
                    &&& called.frame == frame
                    &&& called.vm == vm
                    &&& called.calls.len() == 0
                },
                Ok(call) => {
                    let method = call.class_and_method.method;
                    let ended = invoke(
                        floats,
                        budget,
                        vm,
                        call.class_and_method,
                        call.receiver,
                        call.arguments,
                    );
                    let rest = frame.stack.take(call.height as int);
                    &&& called.vm == ended.vm
                    &&& called.frame.class_and_method == frame.class_and_method
                    &&& called.frame.code == frame.code
                    &&& called.frame.pc == frame.pc
                    &&& called.frame.locals == frame.locals
                    &&& match (ended.result, method.return_type) {
                        (Err(stop), _) => {
                            &&& called.result == Err::<(), _>(stop)
                            &&& called.frame.stack == rest
                            &&& called.calls == ended.calls
                        },
                        (Ok(None), None) => {
                            &&& called.result is Ok
                            &&& called.frame.stack == rest
                            &&& called.calls.len() == 0
                        },
                        (Ok(Some(value)), Some(result_type)) => {
                            &&& called.calls.len() == 0
                            &&& if fits_type(
                                value,
                                result_type@,
                                ended.vm.classes,
                                ended.vm.heap,
                            ) {
                                called.result is Ok && called.frame.stack == rest.push(value)
                            } else {
                                is_validation_error(called.result) && called.frame.stack == rest
                            }
                        },
                        _ => {
                            &&& is_validation_error(called.result)
                            &&& called.frame.stack == rest
                            &&& called.calls.len() == 0
                        },
                    }
                },
            }
        }),
{
}

/// A run without a budget does nothing. Where no instruction was decoded the code is refused.
pub proof fn law_run_without_instruction(
    floats: FloatModel,
    budget: nat,
    frame: FrameModel,
    vm: VmModel,
)
    ensures
        ({
            let stopped = run(floats, 0, frame, vm);
            &&& stopped.frame == frame
            &&& stopped.vm == vm
            &&& stopped.calls.len() == 0
            &&& stopped.result == Err::<Option<Value>, _>(StopModel::OutOfBudget)
        }),
        frame.pc >= frame.code.instructions@.len() || frame.code.instructions@[frame.pc as int] is None
            ==> {
            let refused = run(floats, budget + 1, frame, vm);
            &&& refused.frame == frame
            &&& refused.vm == vm
            &&& refused.calls.len() == 0
            &&& is_validation_error(refused.result)
        },
{
}

/// A run executes the instruction at the address of its frame, with the address after it as that
/// of the frame. It ends with that instruction if it returns or is refused, and otherwise goes on
/// from the state that the instruction, or the call that it makes, leaves behind, with one unit
/// of the budget less.
pub proof fn law_run_goes_step_by_step(
    floats: FloatModel,
    budget: nat,
    frame: FrameModel,
    vm: VmModel,
)
    requires
        frame.pc < frame.code.instructions@.len(),
        frame.code.instructions@[frame.pc as int] is Some,
    ensures
        ({
            let (instruction, next) = frame.code.instructions@[frame.pc as int]->0;
            let after = executed(floats, instruction, FrameModel { pc: next, ..frame }, vm);
            let whole = run(floats, budget + 1, frame, vm);
            match after.flow {
                Ok(Flow::Next) => whole == run(floats, budget, after.frame, after.vm),
                Ok(Flow::Return(value)) => {
                    &&& whole.result == Ok::<_, StopModel>(value)
                    &&& whole.frame == after.frame
                    &&& whole.vm == after.vm
                    &&& whole.calls.len() == 0
                },
                Err(stop) => {
                    &&& whole.result == Err::<Option<Value>, _>(stop)
                    &&& whole.frame == after.frame
                    &&& whole.vm == after.vm
                    &&& whole.calls.len() == 0
                },
                Ok(Flow::Invoke(kind, index)) => {
                    let called = call_method(
                        floats,
                        budget,
                        after.frame,
                        after.vm,
                        kind,
                        index,
                    );
                    match called.result {
                        Ok(_) => whole == run(floats, budget, called.frame, called.vm),
                        Err(stop) => {
                            &&& whole.result == Err::<Option<Value>, _>(stop)
                            &&& whole.frame == called.frame
                            &&& whole.vm == called.vm
                            &&& whole.calls == called.calls
                        },
                    }
                },
            }
        }),
{
}

} // verus!
