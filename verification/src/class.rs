//! Loaded classes and the lookup of their members.

use crate::class_file::{ClassFileField, ClassFileMethod, ConstantPool};
use crate::field_type::FieldType;
use crate::text::{decimal, decimal_text};
use std::rc::Rc;
use vstd::prelude::*;

verus! {

/// Identifies a loaded class.
#[derive(Clone, Copy, Debug, PartialEq, Eq, Hash, Structural)]
pub struct ClassId(pub u64);

impl ClassId {
    /// The identifier in decimal notation.
    pub fn to_text(&self) -> (text: String)
        ensures
            text@ == decimal(self.0 as nat),
    {
        decimal_text(self.0)
    }
}

/// A shared loaded class.
pub type ClassRef = Rc<Class>;

/// A field of the instances of a class: the declaration, and the position of its value among
/// all the values that an instance holds.
#[derive(Debug)]
pub struct InstanceField {
    pub index: usize,
    pub field: Rc<ClassFileField>,
}

/// A loaded class: its superclass and its interfaces are loaded classes too.
#[derive(Debug)]
pub struct Class {
    pub id: ClassId,
    pub name: String,
    pub constants: ConstantPool,
    pub superclass: Option<ClassRef>,
    pub interfaces: Vec<ClassRef>,
    pub fields: Vec<InstanceField>,
    pub methods: Vec<Rc<ClassFileMethod>>,
    /// The number of values that an instance holds, those of the superclasses included.
    pub num_total_fields: usize,
}

/// The first of some methods that has a name and a type descriptor.
pub open spec fn first_method(
    methods: Seq<Rc<ClassFileMethod>>,
    name: Seq<char>,
    type_descriptor: Seq<char>,
) -> Option<Rc<ClassFileMethod>>
    decreases methods.len(),
{
    if methods.len() == 0 {
        None
    } else if methods[0].name@ == name && methods[0].type_descriptor@ == type_descriptor {
        Some(methods[0])
    } else {
        first_method(methods.skip(1), name, type_descriptor)
    }
}

/// The first of some fields that has a name.
pub open spec fn first_field(fields: Seq<InstanceField>, name: Seq<char>) -> Option<
    (usize, Rc<ClassFileField>),
>
    decreases fields.len(),
{
    if fields.len() == 0 {
        None
    } else if fields[0].field.name@ == name {
        Some((fields[0].index, fields[0].field))
    } else {
        first_field(fields.skip(1), name)
    }
}

/// The field that a class inherits from, or itself is, the class of a name.
pub open spec fn class_field(class: Class, class_name: Seq<char>, field_name: Seq<char>) -> Option<
    (usize, Rc<ClassFileField>),
>
    decreases class,
{
    if class.name@ == class_name {
        first_field(class.fields@, field_name)
    } else {
        match class.superclass {
            Some(superclass) => class_field(*superclass, class_name, field_name),
            None => None,
        }
    }
}

/// Whether a class has a name, or inherits from a class or implements an interface that does.
pub open spec fn is_subclass(class: Class, name: Seq<char>) -> bool
    decreases class,
{
    ||| class.name@ == name
    ||| match class.superclass {
        Some(superclass) => is_subclass(*superclass, name),
        None => false,
    }
    ||| exists|i: int|
        0 <= i < class.interfaces@.len() && is_subclass(*#[trigger] class.interfaces@[i], name)
}

impl Class {
    /// The method that the class itself declares under a name and a type descriptor.
    pub open spec fn method(&self, name: Seq<char>, type_descriptor: Seq<char>) -> Option<
        Rc<ClassFileMethod>,
    > {
        first_method(self.methods@, name, type_descriptor)
    }

    /// Looks for a method among those that the class itself declares.
    pub fn find_method(&self, name: &String, type_descriptor: &String) -> (method: Option<
        Rc<ClassFileMethod>,
    >)
        ensures
            method == self.method(name@, type_descriptor@),
    {
        let mut i: usize = 0;
        assert(self.methods@.skip(0) == self.methods@);
        while i < self.methods.len()
            invariant
                i <= self.methods@.len(),
                first_method(self.methods@, name@, type_descriptor@) == first_method(
                    self.methods@.skip(i as int),
                    name@,
                    type_descriptor@,
                ),
            decreases self.methods@.len() - i,
        {
            assert(self.methods@.skip(i as int)[0] == self.methods@[i as int]);
            assert(self.methods@.skip(i as int).skip(1) == self.methods@.skip(i + 1));
            if self.methods[i].name == *name && self.methods[i].type_descriptor == *type_descriptor {
                return Some(self.methods[i].clone());
            }
            i += 1;
        }
        None
    }

    /// Looks for a field by the name of the class that declares it and by its own name, in the
    /// class itself and in its superclasses. Gives its position in an instance, too.
    pub fn find_field(&self, class_name: &String, field_name: &String) -> (field: Option<
        (usize, Rc<ClassFileField>),
    >)
        ensures
            field == class_field(*self, class_name@, field_name@),
        decreases self,
    {
        if self.name == *class_name {
            let mut i: usize = 0;
            assert(self.fields@.skip(0) == self.fields@);
            while i < self.fields.len()
                invariant
                    i <= self.fields@.len(),
                    self.name@ == class_name@,
                    first_field(self.fields@, field_name@) == first_field(
                        self.fields@.skip(i as int),
                        field_name@,
                    ),
                decreases self.fields@.len() - i,
            {
                assert(self.fields@.skip(i as int)[0] == self.fields@[i as int]);
                assert(self.fields@.skip(i as int).skip(1) == self.fields@.skip(i + 1));
                if self.fields[i].field.name == *field_name {
                    return Some((self.fields[i].index, self.fields[i].field.clone()));
                }
                i += 1;
            }
            None
        } else {
            match &self.superclass {
                Some(superclass) => superclass.find_field(class_name, field_name),
                None => None,
            }
        }
    }

    /// Whether the class has a name, or inherits from a class or implements an interface that
    /// does.
    pub fn is_subclass_of(&self, name: &String) -> (subclass: bool)
        ensures
            subclass == is_subclass(*self, name@),
        decreases self,
    {
        if self.name == *name {
            return true;
        }
        if let Some(superclass) = &self.superclass {
            if superclass.is_subclass_of(name) {
                return true;
            }
        }
        let mut i: usize = 0;
        while i < self.interfaces.len()
            invariant
                i <= self.interfaces@.len(),
                forall|j: int| 0 <= j < i ==> !is_subclass(*#[trigger] self.interfaces@[j], name@),
            decreases self.interfaces@.len() - i,
        {
            if self.interfaces[i].is_subclass_of(name) {
                return true;
            }
            i += 1;
        }
        false
    }
}

/// A method together with the class that declares it.
#[derive(Debug)]
pub struct ClassAndMethod {
    pub class: ClassRef,
    pub method: Rc<ClassFileMethod>,
}

impl Clone for ClassAndMethod {
    fn clone(&self) -> (copy: Self)
        ensures
            copy == *self,
    {
        ClassAndMethod { class: self.class.clone(), method: self.method.clone() }
    }
}

impl ClassAndMethod {
    /// Whether the method is called without a receiver.
    pub fn is_static(&self) -> (is_static: bool)
        ensures
            is_static == self.method.flags.is_static,
    {
        self.method.flags.is_static
    }

    /// Whether the method is implemented outside of the class file.
    pub fn is_native(&self) -> (native: bool)
        ensures
            native == self.method.flags.is_native,
    {
        self.method.is_native()
    }

    /// The number of arguments of a call, the receiver not included.
    pub fn num_arguments(&self) -> (arguments: usize)
        ensures
            arguments == self.method.parameters@.len(),
    {
        self.method.parameters.len()
    }

    /// Whether the method has no result.
    pub fn is_void(&self) -> (void: bool)
        ensures
            void == (self.method.result_type() is None),
    {
        self.method.return_type.is_none()
    }

    /// Whether the results of the method have exactly this type.
    pub fn returns_type(&self, expected_type: &FieldType) -> (same: bool)
        ensures
            same == (self.method.result_type() == Some(expected_type@)),
    {
        match &self.method.return_type {
            Some(field_type) => field_type.same_type(expected_type),
            None => false,
        }
    }
}

} // verus!
