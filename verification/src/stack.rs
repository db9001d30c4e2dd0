//! The stack of active calls.

use crate::call_frame::CallFrame;
use crate::class::ClassAndMethod;
use crate::semantics::{initial_frame, FrameModel};
use crate::value::{ObjectRef, Value};
use crate::vm_error::{error_result, StopModel, VmError, VmErrorModel};
use vstd::prelude::*;

verus! {

/// The frames of the active calls, the outermost first. A call is run in its frame on the stack.
#[derive(Debug)]
pub struct Stack {
    pub frames: Vec<CallFrame>,
}

impl View for Stack {
    type V = Seq<FrameModel>;

    open spec fn view(&self) -> Seq<FrameModel> {
        self.frames@.map_values(|frame: CallFrame| frame@)
    }
}

impl Default for Stack {
    fn default() -> (stack: Self)
        ensures
            stack@ == Seq::<FrameModel>::empty(),
    {
        Stack::new()
    }
}

impl Stack {
    /// A stack without calls.
    pub fn new() -> (stack: Stack)
        ensures
            stack@ == Seq::<FrameModel>::empty(),
    {
        Stack { frames: Vec::new() }
    }

    /// Starts a call of a method, and gives the position of its frame on the stack. A static
    /// method must not have a receiver, another method needs one. Native methods have no frames.
    pub fn add_frame(
        &mut self,
        class_and_method: ClassAndMethod,
        receiver: Option<ObjectRef>,
        args: Vec<Value>,
    ) -> (result: Result<usize, VmError>)
        requires
            initial_frame(class_and_method, receiver, args@) != Err::<FrameModel, StopModel>(
                StopModel::Fault,
            ),
        ensures
            match initial_frame(class_and_method, receiver, args@) {
                Ok(frame) => {
                    &&& result matches Ok(position)
                    &&& position == old(self)@.len()
                    &&& final(self)@ == old(self)@.push(frame)
                },
                Err(stop) => {
                    &&& result matches Err(error)
                    &&& stop == StopModel::Error(error@)
                    &&& final(self)@ == old(self)@
                },
            },
    {
        if class_and_method.is_static() {
            if receiver.is_some() {
                return Err(VmError::ValidationException);
            }
        } else if receiver.is_none() {
            return Err(VmError::NullPointerException);
        }
        if class_and_method.is_native() {
            return Err(VmError::NotImplemented);
        }
        let max_locals: usize = class_and_method.method.code.as_ref().unwrap().max_locals as usize;
        let mut locals: Vec<Value> = Vec::new();
        if let Some(object) = receiver {
            locals.push(Value::Object(object));
        }
        let ghost arguments = args@;
        let mut args = args;
        locals.append(&mut args);
        let ghost given = locals@;
        while locals.len() < max_locals
            invariant
                given.len() <= locals@.len(),
                given.len() < locals@.len() ==> locals@.len() <= max_locals,
                locals@ == given + Seq::new(
                    (locals@.len() - given.len()) as nat,
                    |i: int| Value::Uninitialized,
                ),
            decreases max_locals - locals@.len(),
        {
            locals.push(Value::Uninitialized);
        }
        assert(locals@ == crate::semantics::initial_locals(
            receiver,
            arguments,
            max_locals as nat,
        ));
        let new_frame = CallFrame::new(class_and_method, locals);
        let position: usize = self.frames.len();
        self.frames.push(new_frame);
        Ok(position)
    }

    /// The frame at a position, to be changed where it is.
    pub(crate) fn frame_mut(&mut self, position: usize) -> (frame: &mut CallFrame)
        requires
            position < old(self)@.len(),
        ensures
            frame@ == old(self)@[position as int],
            final(self)@ == old(self)@.update(position as int, final(frame)@),
    {
        &mut self.frames[position]
    }

    /// Ends the topmost call.
    pub fn pop_frame(&mut self) -> (result: Result<(), VmError>)
        ensures
            old(self)@.len() == 0 ==> final(self)@ == old(self)@ && error_result(result) == Err::<
                (),
                _,
            >(VmErrorModel::ValidationException),
            old(self)@.len() > 0 ==> final(self)@ == old(self)@.drop_last() && result is Ok,
    {
        match self.frames.pop() {
            Some(_) => Ok(()),
            None => Err(VmError::ValidationException),
        }
    }
}

} // verus!
