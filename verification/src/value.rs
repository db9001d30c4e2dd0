//! The values that a program computes with.

use crate::class::{is_subclass, ClassId, ClassRef};
use crate::class_loader::{class_named, class_with_id, ClassLoader};
use crate::field_type::{BaseType, FieldType, FieldTypeModel};
use crate::heap::{HeapModel, ObjectAllocator};
use crate::instruction::ValueKind;
use vstd::prelude::*;

verus! {

/// A reference to an object of the heap, with the class of the object.
#[derive(Clone, Copy, Debug, PartialEq, Eq, Structural)]
pub struct ObjectRef {
    pub class_id: ClassId,
    pub index: usize,
}

/// A reference to an array of the heap.
#[derive(Clone, Copy, Debug, PartialEq, Eq, Structural)]
pub struct ArrayRef {
    pub index: usize,
}

/// A value of a local variable, of the operand stack, of a field or of an array element.
/// Floating-point numbers are held as their bits.
#[derive(Clone, Copy, Debug, PartialEq, Eq, Structural)]
pub enum Value {
    Uninitialized,
    Int(i32),
    Long(i64),
    Float(u32),
    Double(u64),
    Object(ObjectRef),
    Null,
    Array(ArrayRef),
}

/// Whether a value is of a kind.
pub open spec fn is_of_kind(value: Value, kind: ValueKind) -> bool {
    match kind {
        ValueKind::Reference => value is Object || value is Array,
        ValueKind::Int => value is Int,
        ValueKind::Long => value is Long,
        ValueKind::Float => value is Float,
        ValueKind::Double => value is Double,
    }
}

/// Whether a value can be held where a type is expected. Integers stand for all the types of at
/// most 32 bits. An object fits its own class, and the classes and interfaces above it. No
/// object and no array is also what any object or array type admits.
pub open spec fn fits_type(
    value: Value,
    expected: FieldTypeModel,
    classes: Seq<ClassRef>,
    heap: HeapModel,
) -> bool {
    match value {
        Value::Uninitialized => false,
        Value::Int(_) => {
            ||| expected == FieldTypeModel::Base(BaseType::Int)
            ||| expected == FieldTypeModel::Base(BaseType::Byte)
            ||| expected == FieldTypeModel::Base(BaseType::Char)
            ||| expected == FieldTypeModel::Base(BaseType::Short)
            ||| expected == FieldTypeModel::Base(BaseType::Boolean)
        },
        Value::Long(_) => expected == FieldTypeModel::Base(BaseType::Long),
        Value::Float(_) => expected == FieldTypeModel::Base(BaseType::Float),
        Value::Double(_) => expected == FieldTypeModel::Base(BaseType::Double),
        Value::Null => expected !is Base,
        Value::Object(object) => match expected {
            FieldTypeModel::Object(name) => match class_with_id(classes, object.class_id) {
                Some(class) => class_named(classes, name) is Some && is_subclass(*class, name),
                None => false,
            },
            _ => false,
        },
        Value::Array(array) => match expected {
            FieldTypeModel::Array(element_type) => heap.has_array(array)
                && heap.array(array).element_type == *element_type,
            _ => false,
        },
    }
}

impl Value {
    /// Whether the value is of a kind.
    pub fn has_kind(&self, kind: ValueKind) -> (has: bool)
        ensures
            has == is_of_kind(*self, kind),
    {
        match (kind, *self) {
            (ValueKind::Reference, Value::Object(_)) => true,
            (ValueKind::Reference, Value::Array(_)) => true,
            (ValueKind::Int, Value::Int(_)) => true,
            (ValueKind::Long, Value::Long(_)) => true,
            (ValueKind::Float, Value::Float(_)) => true,
            (ValueKind::Double, Value::Double(_)) => true,
            _ => false,
        }
    }

    /// Whether the value can be held where a type is expected.
    pub fn matches_type(
        &self,
        expected_type: &FieldType,
        class_loader: &ClassLoader,
        heap: &ObjectAllocator,
    ) -> (matches: bool)
        ensures
            matches == fits_type(*self, expected_type@, class_loader.classes@, heap@),
    {
        match *self {
            Value::Uninitialized => false,
            Value::Int(_) => match expected_type {
                FieldType::Base(base) => match *base {
                    BaseType::Int => true,
                    BaseType::Byte => true,
                    BaseType::Char => true,
                    BaseType::Short => true,
                    BaseType::Boolean => true,
                    _ => false,
                },
                _ => false,
            },
            Value::Long(_) => match expected_type {
                FieldType::Base(base) => *base == BaseType::Long,
                _ => false,
            },
            Value::Float(_) => match expected_type {
                FieldType::Base(base) => *base == BaseType::Float,
                _ => false,
            },
            Value::Double(_) => match expected_type {
                FieldType::Base(base) => *base == BaseType::Double,
                _ => false,
            },
            Value::Null => match expected_type {
                FieldType::Base(_) => false,
                _ => true,
            },
            Value::Object(object) => match expected_type {
                FieldType::Object(name) => match class_loader.find_class_by_id(object.class_id) {
                    Some(class) => class_loader.find_class_by_name(name).is_some()
                        && class.is_subclass_of(name),
                    None => false,
                },
                _ => false,
            },
            Value::Array(array) => match expected_type {
                FieldType::Array(element_type) => heap.has_array(array) && heap.get_array(
                    array,
                ).element_type.same_type(element_type),
                _ => false,
            },
        }
    }
}

} // verus!
