//! Types of fields, array elements and method results.

use vstd::prelude::*;

verus! {

/// The primitive types of the class-file format.
#[derive(Clone, Copy, Debug, PartialEq, Eq, Structural)]
pub enum BaseType {
    Byte,
    Char,
    Double,
    Float,
    Int,
    Long,
    Short,
    Boolean,
}

/// The type of a field, of a method result or of the elements of an array.
#[derive(Debug, PartialEq, Eq)]
pub enum FieldType {
    Base(BaseType),
    Object(String),
    Array(Box<FieldType>),
}

/// The mathematical counterpart of [`FieldType`]: class names are character sequences.
pub enum FieldTypeModel {
    Base(BaseType),
    Object(Seq<char>),
    Array(Box<FieldTypeModel>),
}

/// The model of a field type.
pub open spec fn field_type_model(field_type: FieldType) -> FieldTypeModel
    decreases field_type,
{
    match field_type {
        FieldType::Base(base) => FieldTypeModel::Base(base),
        FieldType::Object(name) => FieldTypeModel::Object(name@),
        FieldType::Array(element) => FieldTypeModel::Array(Box::new(field_type_model(*element))),
    }
}

impl View for FieldType {
    type V = FieldTypeModel;

    open spec fn view(&self) -> FieldTypeModel {
        field_type_model(*self)
    }
}

impl FieldType {
    /// Whether two field types denote the same type.
    pub fn same_type(&self, other: &FieldType) -> (same: bool)
        ensures
            same == (self@ == other@),
        decreases self,
    {
        match (self, other) {
            (FieldType::Base(left), FieldType::Base(right)) => *left == *right,
            (FieldType::Object(left), FieldType::Object(right)) => *left == *right,
            (FieldType::Array(left), FieldType::Array(right)) => left.same_type(right),
            _ => false,
        }
    }
}

} // verus!
