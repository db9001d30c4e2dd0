//! A small machine for Java bytecode, with its semantics.
//!
//! [`semantics`] says what programs mean; [`call_frame`], [`stack`] and [`vm`] execute them
//! accordingly. What the instructions do is also stated without it, in terms of the values that go
//! in and come out: in [`arithmetic_laws`], [`operand_laws`], [`heap_laws`], [`call_laws`] and
//! [`lookup_laws`], with [`model_laws`] for the data. [`laws`], [`soundness`],
//! [`instruction_laws`], [`class_laws`] and [`instance_laws`] say what holds of every program.

pub mod arithmetic_laws;
pub mod call_frame;
pub mod call_laws;
pub mod class;
pub mod class_file;
pub mod class_laws;
pub mod class_loader;
pub mod field_type;
pub mod float;
pub mod heap;
pub mod heap_laws;
pub mod instance_laws;
pub mod instruction;
pub mod instruction_laws;
pub mod laws;
pub mod lookup_laws;
pub mod model_laws;
pub mod numeric;
pub mod operand_laws;
pub mod semantics;
pub mod soundness;
pub mod stack;
pub mod text;
pub mod value;
pub mod vm;
pub mod vm_error;
