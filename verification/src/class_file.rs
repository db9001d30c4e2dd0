//! Class files, in the form in which the machine loads them.

use crate::field_type::{FieldType, FieldTypeModel};
use crate::instruction::DecodedCode;
use std::rc::Rc;
use vstd::prelude::*;

verus! {

/// A constant of a class. Floating-point numbers are held as their bits.
#[derive(Debug)]
pub enum ConstantPoolEntry {
    Utf8(String),
    Integer(i32),
    Float(u32),
    Long(i64),
    Double(u64),
    /// The index of the name of a class.
    ClassReference(u16),
    /// The indices of a class, and of the name and type of its field.
    FieldReference(u16, u16),
    /// The indices of a class, and of the name and type of its method.
    MethodReference(u16, u16),
    /// The indices of a name and of a type descriptor.
    NameAndTypeDescriptor(u16, u16),
    /// A constant of a kind that no instruction of the machine reads.
    Other,
}

/// The constants of a class by their index. Not every index holds a constant.
#[derive(Debug)]
pub struct ConstantPool {
    pub entries: Vec<Option<ConstantPoolEntry>>,
}

impl ConstantPool {
    /// The constant at an index.
    pub open spec fn at(&self, index: u16) -> Option<ConstantPoolEntry> {
        if index < self.entries@.len() {
            self.entries@[index as int]
        } else {
            None
        }
    }

    /// Looks up the constant at an index.
    pub fn get(&self, index: u16) -> (entry: Option<&ConstantPoolEntry>)
        ensures
            match entry {
                Some(found) => self.at(index) == Some(*found),
                None => self.at(index) is None,
            },
    {
        let position: usize = index as usize;
        if position < self.entries.len() {
            self.entries[position].as_ref()
        } else {
            None
        }
    }

    /// The text at an index.
    pub open spec fn utf8(&self, index: u16) -> Option<Seq<char>> {
        match self.at(index) {
            Some(ConstantPoolEntry::Utf8(text)) => Some(text@),
            _ => None,
        }
    }

    /// The name of the class that the constant at an index refers to.
    pub open spec fn class_reference(&self, index: u16) -> Option<Seq<char>> {
        match self.at(index) {
            Some(ConstantPoolEntry::ClassReference(name)) => self.utf8(name),
            _ => None,
        }
    }

    /// The name and the type descriptor at an index.
    pub open spec fn name_and_type(&self, index: u16) -> Option<(Seq<char>, Seq<char>)> {
        match self.at(index) {
            Some(ConstantPoolEntry::NameAndTypeDescriptor(name, descriptor)) => match (
                self.utf8(name),
                self.utf8(descriptor),
            ) {
                (Some(name), Some(descriptor)) => Some((name, descriptor)),
                _ => None,
            },
            _ => None,
        }
    }

    /// A member of a class, from the indices of the class and of the member's name and type.
    pub open spec fn member(&self, class: u16, name_and_type: u16) -> Option<MemberModel> {
        match (self.class_reference(class), self.name_and_type(name_and_type)) {
            (Some(class_name), Some((name, type_descriptor))) => Some(
                MemberModel { class_name, name, type_descriptor },
            ),
            _ => None,
        }
    }

    /// The method that the constant at an index refers to.
    pub open spec fn method_reference(&self, index: u16) -> Option<MemberModel> {
        match self.at(index) {
            Some(ConstantPoolEntry::MethodReference(class, name_and_type)) => self.member(
                class,
                name_and_type,
            ),
            _ => None,
        }
    }

    /// The field that the constant at an index refers to.
    pub open spec fn field_reference(&self, index: u16) -> Option<MemberModel> {
        match self.at(index) {
            Some(ConstantPoolEntry::FieldReference(class, name_and_type)) => self.member(
                class,
                name_and_type,
            ),
            _ => None,
        }
    }
}

/// A field or a method by name: the class it is looked for in, its name and its type.
pub struct MemberModel {
    pub class_name: Seq<char>,
    pub name: Seq<char>,
    pub type_descriptor: Seq<char>,
}

/// A field that a class declares.
#[derive(Debug)]
pub struct ClassFileField {
    pub name: String,
    pub type_descriptor: FieldType,
}

/// The access flags of a method that the machine reads.
#[derive(Clone, Copy, Debug, PartialEq, Eq, Structural)]
pub struct MethodFlags {
    pub is_static: bool,
    pub is_native: bool,
}

/// The code of a method, with the sizes that it asks for.
#[derive(Debug)]
pub struct ClassFileMethodCode {
    pub max_stack: u16,
    pub max_locals: u16,
    pub code: Rc<DecodedCode>,
}

/// A method that a class declares. The type descriptor is the text that identifies the method
/// together with its name; the types in it are listed besides.
#[derive(Debug)]
pub struct ClassFileMethod {
    pub flags: MethodFlags,
    pub name: String,
    pub type_descriptor: String,
    pub parameters: Vec<FieldType>,
    pub return_type: Option<FieldType>,
    pub code: Option<ClassFileMethodCode>,
}

impl ClassFileMethod {
    /// Whether the method is implemented outside of the class file.
    pub fn is_native(&self) -> (native: bool)
        ensures
            native == self.flags.is_native,
    {
        self.flags.is_native
    }

    /// The type of the results of the method, unless it has none.
    pub open spec fn result_type(&self) -> Option<FieldTypeModel> {
        match self.return_type {
            Some(field_type) => Some(field_type@),
            None => None,
        }
    }
}

/// A class as it is read from a file: classes are referred to by name.
#[derive(Debug)]
pub struct ClassFile {
    pub name: String,
    pub superclass: Option<String>,
    pub interfaces: Vec<String>,
    pub constants: ConstantPool,
    pub fields: Vec<Rc<ClassFileField>>,
    pub methods: Vec<Rc<ClassFileMethod>>,
}

} // verus!
