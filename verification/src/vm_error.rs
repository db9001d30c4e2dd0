//! What can go wrong while the machine runs.

use vstd::prelude::*;

verus! {

/// The errors a running program can raise.
#[derive(Debug, PartialEq, Eq)]
pub enum VmError {
    /// The code or its operands do not have the shape that an instruction asks for.
    ValidationException,
    /// An instance method was called without a receiver.
    NullPointerException,
    /// The machine does not offer this feature.
    NotImplemented,
    /// An integer division by zero.
    ArithmeticException,
    /// An array was accessed outside its bounds.
    ArrayIndexOutOfBoundsException,
    /// No class has this name, or this identifier.
    ClassNotFoundException(String),
    /// The class and the field that was looked for in it.
    FieldNotFoundException(String, String),
    /// The class, the method and the type descriptor that was looked for in it.
    MethodNotFoundException(String, String, String),
}

/// The mathematical counterpart of [`VmError`].
pub enum VmErrorModel {
    ValidationException,
    NullPointerException,
    NotImplemented,
    ArithmeticException,
    ArrayIndexOutOfBoundsException,
    ClassNotFoundException(Seq<char>),
    FieldNotFoundException(Seq<char>, Seq<char>),
    MethodNotFoundException(Seq<char>, Seq<char>, Seq<char>),
}

impl View for VmError {
    type V = VmErrorModel;

    open spec fn view(&self) -> VmErrorModel {
        match *self {
            VmError::ValidationException => VmErrorModel::ValidationException,
            VmError::NullPointerException => VmErrorModel::NullPointerException,
            VmError::NotImplemented => VmErrorModel::NotImplemented,
            VmError::ArithmeticException => VmErrorModel::ArithmeticException,
            VmError::ArrayIndexOutOfBoundsException => VmErrorModel::ArrayIndexOutOfBoundsException,
            VmError::ClassNotFoundException(name) => VmErrorModel::ClassNotFoundException(name@),
            VmError::FieldNotFoundException(class, field) => VmErrorModel::FieldNotFoundException(
                class@,
                field@,
            ),
            VmError::MethodNotFoundException(
                class,
                method,
                descriptor,
            ) => VmErrorModel::MethodNotFoundException(class@, method@, descriptor@),
        }
    }
}

/// Why a run ended without a result.
#[derive(Debug, PartialEq, Eq)]
pub enum Stop {
    /// The program raised an error.
    Error(VmError),
    /// The program reached a point at which the machine has no way to go on.
    Fault,
    /// The run used up the budget that it was given.
    OutOfBudget,
}

/// The mathematical counterpart of [`Stop`].
pub enum StopModel {
    Error(VmErrorModel),
    Fault,
    OutOfBudget,
}

impl View for Stop {
    type V = StopModel;

    open spec fn view(&self) -> StopModel {
        match *self {
            Stop::Error(error) => StopModel::Error(error@),
            Stop::Fault => StopModel::Fault,
            Stop::OutOfBudget => StopModel::OutOfBudget,
        }
    }
}

/// A result with its [`Stop`] replaced by the model of it.
pub open spec fn stop_result<T>(result: Result<T, Stop>) -> Result<T, StopModel> {
    match result {
        Ok(value) => Ok(value),
        Err(stop) => Err(stop@),
    }
}

/// A result with its [`VmError`] replaced by the model of it.
pub open spec fn error_result<T>(result: Result<T, VmError>) -> Result<T, VmErrorModel> {
    match result {
        Ok(value) => Ok(value),
        Err(error) => Err(error@),
    }
}

/// A run's result, where an error of the program is the only reason to stop.
pub open spec fn lift_error<T>(result: Result<T, VmErrorModel>) -> Result<T, StopModel> {
    match result {
        Ok(value) => Ok(value),
        Err(error) => Err(StopModel::Error(error)),
    }
}

/// The code or its operands do not fit the instruction.
pub open spec fn invalid<T>() -> Result<T, StopModel> {
    Err(StopModel::Error(VmErrorModel::ValidationException))
}

/// Stops with a [`VmError::ValidationException`].
pub fn validation_stop() -> (stop: Stop)
    ensures
        stop@ == StopModel::Error(VmErrorModel::ValidationException),
{
    Stop::Error(VmError::ValidationException)
}

} // verus!
