//! The machine.

use crate::call_frame::CallFrame;
use crate::class::{ClassAndMethod, ClassId, ClassRef};
use crate::class_file::ClassFile;
use crate::class_laws::{classes_are_consistent, law_loading_keeps_consistency};
use crate::class_loader::{
    class_named,
    classes_named,
    fields_fit,
    is_class_of,
    superclass_of,
    ClassAllocator,
    ClassLoader,
};
use crate::float::{DoubleMath, FloatUnit, SingleMath};
use crate::heap::{HeapModel, ObjectAllocator};
use crate::instance_laws::{
    instances_are_complete,
    law_loading_keeps_instances,
    law_new_object_is_complete,
};
use crate::laws::law_ended_run_leaves_no_calls;
use crate::semantics::{ends, FrameModel, VmModel};
use crate::soundness::vm_is_sound;
use crate::stack::Stack;
use crate::text::starts_with;
use crate::value::{ObjectRef, Value};
use crate::vm_error::{error_result, lift_error, stop_result, Stop, VmError, VmErrorModel};
use vstd::prelude::*;

verus! {

/// The machine: the classes that are loaded, the objects and arrays that exist, and what was
/// printed.
#[derive(Debug)]
pub struct Vm {
    pub class_allocator: ClassAllocator,
    pub class_loader: ClassLoader,
    pub object_allocator: ObjectAllocator,
    pub printed: Vec<Value>,
}

/// How much a machine holds.
#[derive(Clone, Copy, Debug, PartialEq, Eq, Structural)]
pub struct DebugStats {
    /// The number of classes that were created.
    pub classes: usize,
    /// The number of objects.
    pub objects: usize,
    /// The number of arrays.
    pub arrays: usize,
}

impl View for Vm {
    type V = VmModel;

    open spec fn view(&self) -> VmModel {
        VmModel {
            allocated: self.class_allocator.classes@,
            classes: self.class_loader.classes@,
            heap: self.object_allocator@,
            printed: self.printed@,
        }
    }
}

impl Default for Vm {
    fn default() -> (vm: Self)
        ensures
            vm@ == (VmModel {
                allocated: Seq::empty(),
                classes: Seq::empty(),
                heap: HeapModel::empty(),
                printed: Seq::empty(),
            }),
    {
        Vm::new()
    }
}

impl Vm {
    /// A machine without classes and objects.
    pub fn new() -> (vm: Vm)
        ensures
            vm@ == (VmModel {
                allocated: Seq::empty(),
                classes: Seq::empty(),
                heap: HeapModel::empty(),
                printed: Seq::empty(),
            }),
            classes_are_consistent(vm@),
            instances_are_complete(vm@),
            vm_is_sound(vm@),
    {
        Vm {
            class_allocator: ClassAllocator::new(),
            class_loader: ClassLoader::new(),
            object_allocator: ObjectAllocator::new(),
            printed: Vec::new(),
        }
    }

    /// Loads a class, unless its class file names a class that is not loaded.
    pub fn load_class(&mut self, class_file: ClassFile) -> (result: Result<(), VmError>)
        requires
            fields_fit(class_file, old(self)@.classes),
        ensures
            match superclass_of(class_file, old(self)@.classes) {
                Err(error) => final(self)@ == old(self)@ && error_result(result) == Err::<(), _>(
                    error,
                ),
                Ok(superclass) => match classes_named(
                    class_file.interfaces@,
                    old(self)@.classes,
                ) {
                    Err(error) => final(self)@ == old(self)@ && error_result(result) == Err::<
                        (),
                        _,
                    >(error),
                    Ok(interfaces) => {
                        let class = final(self)@.classes.last();
                        &&& result is Ok
                        &&& is_class_of(
                            *class,
                            class_file,
                            ClassId(old(self)@.allocated.len() as u64),
                            superclass,
                            interfaces,
                        )
                        &&& final(self)@ == (VmModel {
                            allocated: old(self)@.allocated.push(class),
                            classes: old(self)@.classes.push(class),
                            ..old(self)@
                        })
                    },
                },
            },
            classes_are_consistent(old(self)@) ==> classes_are_consistent(final(self)@),
            classes_are_consistent(old(self)@) && instances_are_complete(old(self)@)
                ==> instances_are_complete(final(self)@),
    {
        let ghost file = class_file;
        let class = self.class_allocator.allocate(class_file, &self.class_loader)?;
        let ghost created = class;
        self.class_loader.register_class(class);
        proof {
            if classes_are_consistent(old(self)@) {
                assert(self.class_loader.classes.len() <= usize::MAX);
                law_loading_keeps_consistency(
                    old(self)@,
                    self@,
                    file,
                    superclass_of(file, old(self)@.classes)->Ok_0,
                    classes_named(file.interfaces@, old(self)@.classes)->Ok_0,
                    created,
                );
                if instances_are_complete(old(self)@) {
                    law_loading_keeps_instances(old(self)@, self@, created);
                }
            }
        }
        Ok(())
    }

    /// Finds the class of a name.
    pub fn find_class(&self, class_name: &str) -> (class: Option<ClassRef>)
        ensures
            class == class_named(self@.classes, class_name@),
    {
        self.class_loader.find_class_by_name(&class_name.to_owned())
    }

    /// The class of a name.
    pub fn get_class(&self, class_name: &str) -> (result: Result<ClassRef, VmError>)
        ensures
            error_result(result) == (match class_named(self@.classes, class_name@) {
                Some(class) => Ok::<ClassRef, VmErrorModel>(class),
                None => Err(VmErrorModel::ClassNotFoundException(class_name@)),
            }),
    {
        match self.find_class(class_name) {
            Some(class) => Ok(class),
            None => Err(VmError::ClassNotFoundException(class_name.to_owned())),
        }
    }

    /// The class of an identifier.
    pub fn get_class_by_id(&self, class_id: ClassId) -> (result: Result<ClassRef, VmError>)
        ensures
            error_result(result) == crate::semantics::identified_class(self@, class_id),
    {
        match self.class_loader.find_class_by_id(class_id) {
            Some(class) => Ok(class),
            None => Err(VmError::ClassNotFoundException(class_id.to_text())),
        }
    }

    /// Finds a method that the class of a name itself declares.
    pub fn find_class_method(
        &self,
        class_name: &str,
        method_name: &str,
        method_type_descriptor: &str,
    ) -> (found: Option<ClassAndMethod>)
        ensures
            found == (match class_named(self@.classes, class_name@) {
                Some(class) => match class.method(method_name@, method_type_descriptor@) {
                    Some(method) => Some(ClassAndMethod { class, method }),
                    None => None,
                },
                None => None,
            }),
    {
        match self.find_class(class_name) {
            Some(class) => match class.find_method(
                &method_name.to_owned(),
                &method_type_descriptor.to_owned(),
            ) {
                Some(method) => Some(ClassAndMethod { class, method }),
                None => None,
            },
            None => None,
        }
    }

    /// A stack without calls.
    pub fn allocate_stack(&self) -> (stack: Stack)
        ensures
            stack@ == Seq::<FrameModel>::empty(),
    {
        Stack::new()
    }

    /// Calls a native method. The only one there is prints its first argument.
    fn invoke_native(&mut self, class_and_method: &ClassAndMethod, args: &Vec<Value>) -> (result:
        Result<Option<Value>, VmError>)
        ensures
            final(self)@ == crate::semantics::native_call(old(self)@, *class_and_method, args@).0,
            error_result(result) == crate::semantics::native_call(
                old(self)@,
                *class_and_method,
                args@,
            ).1,
    {
        if starts_with(&class_and_method.class.name, "rjvm/") && class_and_method.method.name
            == "tempPrint".to_owned() {
            if args.len() == 0 {
                return Err(VmError::ValidationException);
            }
            self.printed.push(args[0]);
            Ok(None)
        } else {
            Err(VmError::NotImplemented)
        }
    }

    /// Calls a method, within a budget: each instruction takes one unit of it from those that
    /// follow and from the calls that it makes. The frame of the call is on the stack until the
    /// call has come to an end, and is run there.
    pub fn invoke_bounded<S: Fn(SingleMath) -> u32, D: Fn(DoubleMath) -> u64>(
        &mut self,
        stack: &mut Stack,
        class_and_method: ClassAndMethod,
        object: Option<ObjectRef>,
        args: Vec<Value>,
        floats: &FloatUnit<S, D>,
        budget: u64,
    ) -> (result: Result<Option<Value>, Stop>)
        requires
            floats.is_functional(),
        ensures
            ({
                let effect = crate::semantics::invoke(
                    floats.model(),
                    budget as nat,
                    old(self)@,
                    class_and_method,
                    object,
                    args@,
                );
                &&& final(self)@ == effect.vm
                &&& final(stack)@ == old(stack)@ + effect.calls
                &&& stop_result(result) == effect.result
            }),
        decreases budget, 1int,
    {
        if class_and_method.method.is_native() {
            return match self.invoke_native(&class_and_method, &args) {
                Ok(value) => Ok(value),
                Err(error) => Err(Stop::Error(error)),
            };
        }
        if class_and_method.is_static() == object.is_none()
            && class_and_method.method.code.is_none() {
            return Err(Stop::Fault);
        }
        match stack.add_frame(class_and_method, object, args) {
            Err(error) => Err(Stop::Error(error)),
            Ok(position) => {
                let ghost started = stack@[position as int];
                let ghost machine = self@;
                let result = CallFrame::execute_bounded(position, self, stack, floats, budget);
                proof {
                    let ended = crate::semantics::run(
                        floats.model(),
                        budget as nat,
                        started,
                        machine,
                    );
                    if ends(ended.result) {
                        law_ended_run_leaves_no_calls(
                            floats.model(),
                            budget as nat,
                            started,
                            machine,
                        );
                        assert(stack@ == old(stack)@.push(ended.frame));
                    } else {
                        assert(stack@ == old(stack)@ + (seq![ended.frame] + ended.calls));
                    }
                }
                match result {
                    Err(Stop::Fault) => Err(Stop::Fault),
                    Err(Stop::OutOfBudget) => Err(Stop::OutOfBudget),
                    _ => match stack.pop_frame() {
                        Ok(_) => {
                            assert(stack@ == old(stack)@);
                            result
                        },
                        Err(error) => Err(Stop::Error(error)),
                    },
                }
            },
        }
    }

    /// Calls a method.
    pub fn invoke<S: Fn(SingleMath) -> u32, D: Fn(DoubleMath) -> u64>(
        &mut self,
        stack: &mut Stack,
        class_and_method: ClassAndMethod,
        object: Option<ObjectRef>,
        args: Vec<Value>,
        floats: &FloatUnit<S, D>,
    ) -> (result: Result<Option<Value>, VmError>)
        requires
            floats.is_functional(),
            crate::semantics::ends(
                crate::semantics::invoke(
                    floats.model(),
                    u64::MAX as nat,
                    old(self)@,
                    class_and_method,
                    object,
                    args@,
                ).result,
            ),
        ensures
            ({
                let effect = crate::semantics::invoke(
                    floats.model(),
                    u64::MAX as nat,
                    old(self)@,
                    class_and_method,
                    object,
                    args@,
                );
                &&& final(self)@ == effect.vm
                &&& lift_error(error_result(result)) == effect.result
            }),
            final(stack)@ == old(stack)@,
    {
        match self.invoke_bounded(stack, class_and_method, object, args, floats, u64::MAX) {
            Ok(value) => Ok(value),
            Err(Stop::Error(error)) => Err(error),
            Err(_) => vstd::pervasive::unreached(),
        }
    }

    /// Creates an object of the class of a name. Its fields are not initialized.
    pub fn new_object(&mut self, class_name: &str) -> (result: Result<ObjectRef, VmError>)
        ensures
            final(self)@ == crate::semantics::create_object(old(self)@, class_name@).0,
            error_result(result) == crate::semantics::create_object(old(self)@, class_name@).1,
            classes_are_consistent(old(self)@) && instances_are_complete(old(self)@)
                ==> classes_are_consistent(final(self)@) && instances_are_complete(final(self)@),
    {
        proof {
            if classes_are_consistent(self@) && instances_are_complete(self@) {
                law_new_object_is_complete(self@, class_name@);
            }
        }
        let class = self.get_class(class_name)?;
        let instance = self.object_allocator.allocate(&class);
        Ok(instance)
    }

    /// Counts the classes, the objects and the arrays of the machine.
    pub fn debug_stats(&self) -> (stats: DebugStats)
        ensures
            stats.classes == self@.allocated.len(),
            stats.objects == self@.heap.objects.len(),
            stats.arrays == self@.heap.arrays.len(),
    {
        DebugStats {
            classes: self.class_allocator.classes.len(),
            objects: self.object_allocator.objects.len(),
            arrays: self.object_allocator.arrays.len(),
        }
    }
}

} // verus!
