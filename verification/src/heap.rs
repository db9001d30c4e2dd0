//! The objects and arrays that a program creates.

use crate::class::{Class, ClassId};
use crate::field_type::{FieldType, FieldTypeModel};
use crate::value::{ArrayRef, ObjectRef, Value};
use vstd::prelude::*;

verus! {

/// An object: its class, and the values of its fields.
#[derive(Debug)]
pub struct ObjectValue {
    pub class_id: ClassId,
    pub fields: Vec<Value>,
}

/// An array: the type of its elements, and the elements.
#[derive(Debug)]
pub struct ArrayValue {
    pub element_type: FieldType,
    pub elements: Vec<Value>,
}

/// Creates and holds the objects and the arrays of a program. References to them are positions
/// in the order of creation.
#[derive(Debug)]
pub struct ObjectAllocator {
    pub objects: Vec<ObjectValue>,
    pub arrays: Vec<ArrayValue>,
}

/// The mathematical counterpart of [`ObjectValue`].
#[verifier::ext_equal]
pub struct ObjectModel {
    pub class_id: ClassId,
    pub fields: Seq<Value>,
}

/// The mathematical counterpart of [`ArrayValue`].
#[verifier::ext_equal]
pub struct ArrayModel {
    pub element_type: FieldTypeModel,
    pub elements: Seq<Value>,
}

/// The mathematical counterpart of [`ObjectAllocator`].
#[verifier::ext_equal]
pub struct HeapModel {
    pub objects: Seq<ObjectModel>,
    pub arrays: Seq<ArrayModel>,
}

impl View for ObjectValue {
    type V = ObjectModel;

    open spec fn view(&self) -> ObjectModel {
        ObjectModel { class_id: self.class_id, fields: self.fields@ }
    }
}

impl View for ArrayValue {
    type V = ArrayModel;

    open spec fn view(&self) -> ArrayModel {
        ArrayModel { element_type: self.element_type@, elements: self.elements@ }
    }
}

impl View for ObjectAllocator {
    type V = HeapModel;

    open spec fn view(&self) -> HeapModel {
        HeapModel {
            objects: self.objects@.map_values(|object: ObjectValue| object@),
            arrays: self.arrays@.map_values(|array: ArrayValue| array@),
        }
    }
}

impl HeapModel {
    /// The heap without objects and arrays.
    pub open spec fn empty() -> HeapModel {
        HeapModel { objects: Seq::empty(), arrays: Seq::empty() }
    }

    /// The reference that the next object of a class gets.
    pub open spec fn next_object(self, class: Class) -> ObjectRef {
        ObjectRef { class_id: class.id, index: self.objects.len() as usize }
    }

    /// The heap with a new object of a class, whose fields are not initialized.
    pub open spec fn with_object(self, class: Class) -> HeapModel {
        HeapModel {
            objects: self.objects.push(
                ObjectModel {
                    class_id: class.id,
                    fields: Seq::new(class.num_total_fields as nat, |i: int| Value::Uninitialized),
                },
            ),
            ..self
        }
    }

    /// Whether an object has a field at a position.
    pub open spec fn has_field(self, object: ObjectRef, index: usize) -> bool {
        object.index < self.objects.len() && index < self.objects[object.index as int].fields.len()
    }

    /// The value of a field.
    pub open spec fn field(self, object: ObjectRef, index: usize) -> Value {
        self.objects[object.index as int].fields[index as int]
    }

    /// The heap with another value in a field.
    pub open spec fn with_field(self, object: ObjectRef, index: usize, value: Value) -> HeapModel {
        let changed = self.objects[object.index as int];
        HeapModel {
            objects: self.objects.update(
                object.index as int,
                ObjectModel { fields: changed.fields.update(index as int, value), ..changed },
            ),
            ..self
        }
    }

    /// The reference that the next array gets.
    pub open spec fn next_array(self) -> ArrayRef {
        ArrayRef { index: self.arrays.len() as usize }
    }

    /// The heap with a new array, all of whose elements have the same value.
    pub open spec fn with_array(
        self,
        element_type: FieldTypeModel,
        value: Value,
        length: nat,
    ) -> HeapModel {
        HeapModel {
            arrays: self.arrays.push(
                ArrayModel { element_type, elements: Seq::new(length, |i: int| value) },
            ),
            ..self
        }
    }

    /// Whether the heap holds an array.
    pub open spec fn has_array(self, array: ArrayRef) -> bool {
        array.index < self.arrays.len()
    }

    /// An array of the heap.
    pub open spec fn array(self, array: ArrayRef) -> ArrayModel {
        self.arrays[array.index as int]
    }

    /// The heap with another value in an array element.
    pub open spec fn with_element(self, array: ArrayRef, index: int, value: Value) -> HeapModel {
        let changed = self.arrays[array.index as int];
        HeapModel {
            arrays: self.arrays.update(
                array.index as int,
                ArrayModel { elements: changed.elements.update(index, value), ..changed },
            ),
            ..self
        }
    }
}

impl ObjectAllocator {
    /// A heap without objects and arrays.
    pub fn new() -> (heap: ObjectAllocator)
        ensures
            heap@ == HeapModel::empty(),
    {
        ObjectAllocator { objects: Vec::new(), arrays: Vec::new() }
    }

    /// Creates an object of a class. Its fields are not initialized.
    pub fn allocate(&mut self, class: &Class) -> (object: ObjectRef)
        ensures
            object == old(self)@.next_object(*class),
            final(self)@ == old(self)@.with_object(*class),
    {
        let object = ObjectRef { class_id: class.id, index: self.objects.len() };
        let fields: Vec<Value> = vec![Value::Uninitialized; class.num_total_fields];
        assert(fields@ == Seq::new(class.num_total_fields as nat, |i: int| Value::Uninitialized));
        self.objects.push(ObjectValue { class_id: class.id, fields });
        object
    }

    /// Whether an object has a field at a position.
    pub fn has_field(&self, object: ObjectRef, index: usize) -> (has: bool)
        ensures
            has == self@.has_field(object, index),
    {
        object.index < self.objects.len() && index < self.objects[object.index].fields.len()
    }

    /// The value of a field.
    pub fn get_field(&self, object: ObjectRef, index: usize) -> (value: Value)
        requires
            self@.has_field(object, index),
        ensures
            value == self@.field(object, index),
    {
        self.objects[object.index].fields[index]
    }

    /// Gives a field a value.
    pub fn set_field(&mut self, object: ObjectRef, index: usize, value: Value)
        requires
            old(self)@.has_field(object, index),
        ensures
            final(self)@ == old(self)@.with_field(object, index, value),
    {
        self.objects[object.index].fields[index] = value;
    }

    /// Creates an array, all of whose elements have the same value.
    pub fn allocate_array(&mut self, element_type: FieldType, value: Value, length: usize) -> (array:
        ArrayRef)
        ensures
            array == old(self)@.next_array(),
            final(self)@ == old(self)@.with_array(element_type@, value, length as nat),
    {
        let array = ArrayRef { index: self.arrays.len() };
        let elements: Vec<Value> = vec![value; length];
        assert(elements@ == Seq::new(length as nat, |i: int| value));
        self.arrays.push(ArrayValue { element_type, elements });
        array
    }

    /// Whether the heap holds an array.
    pub fn has_array(&self, array: ArrayRef) -> (has: bool)
        ensures
            has == self@.has_array(array),
    {
        array.index < self.arrays.len()
    }

    /// An array of the heap.
    pub fn get_array(&self, array: ArrayRef) -> (value: &ArrayValue)
        requires
            self@.has_array(array),
        ensures
            value@ == self@.array(array),
    {
        &self.arrays[array.index]
    }

    /// Gives an array element a value.
    pub fn set_element(&mut self, array: ArrayRef, index: usize, value: Value)
        requires
            old(self)@.has_array(array),
            index < old(self)@.array(array).elements.len(),
        ensures
            final(self)@ == old(self)@.with_element(array, index as int, value),
    {
        self.arrays[array.index].elements[index] = value;
    }
}

} // verus!
