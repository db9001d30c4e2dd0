//! What is found where: constants, code, classes, members and types.

use crate::class::{
    class_field,
    first_field,
    first_method,
    is_subclass,
    Class,
    ClassId,
    ClassRef,
    InstanceField,
};
use crate::class_file::{ClassFile, ClassFileMethod, ConstantPool, ConstantPoolEntry, MemberModel};
use crate::class_loader::{
    class_named,
    class_with_id,
    classes_named,
    fields_fit,
    is_class_of,
    superclass_of,
};
use crate::field_type::{BaseType, FieldType, FieldTypeModel};
use crate::heap::HeapModel;
use crate::instruction::{DecodedCode, Instruction};
use crate::text::decimal;
use crate::value::{fits_type, Value};
use crate::vm_error::VmErrorModel;
use std::rc::Rc;
use vstd::prelude::*;

verus! {

/// The pool holds this constant at an index.
pub open spec fn holds(constants: &ConstantPool, index: u16, entry: ConstantPoolEntry) -> bool {
    index < constants.entries@.len() && constants.entries@[index as int] == Some(entry)
}

/// The pool holds this text at an index.
pub open spec fn holds_text(constants: &ConstantPool, index: u16, text: Seq<char>) -> bool {
    index < constants.entries@.len() && (constants.entries@[index as int] matches Some(
        ConstantPoolEntry::Utf8(held),
    ) && held@ == text)
}

/// A constant is what the pool holds at its index.
pub proof fn law_constant_is_held(constants: &ConstantPool, index: u16, entry: ConstantPoolEntry)
    ensures
        constants.at(index) == Some(entry) <==> holds(constants, index, entry),
        constants.at(index) is None <==> index >= constants.entries@.len()
            || constants.entries@[index as int] is None,
{
}

/// A constant names a class exactly if it refers to a text, which is the name.
pub proof fn law_class_constants(constants: &ConstantPool, index: u16, name: Seq<char>)
    ensures
        constants.utf8(index) == Some(name) <==> holds_text(constants, index, name),
        constants.class_reference(index) == Some(name) <==> exists|text: u16|
            holds(constants, index, ConstantPoolEntry::ClassReference(text)) && #[trigger] holds_text(
                constants,
                text,
                name,
            ),
{
    if let Some(ConstantPoolEntry::ClassReference(text)) = constants.at(index) {
        assert(holds(constants, index, ConstantPoolEntry::ClassReference(text)));
        if constants.utf8(text) == Some(name) {
            assert(holds_text(constants, text, name));
        }
    }
}

/// The constants at two indices name a class, and a member by its name and its type descriptor.
pub open spec fn names_member(
    constants: &ConstantPool,
    class: u16,
    name_and_type: u16,
    member: MemberModel,
) -> bool {
    exists|class_text: u16, name_text: u16, type_text: u16|
        {
            &&& holds(constants, class, ConstantPoolEntry::ClassReference(class_text))
            &&& holds(
                constants,
                name_and_type,
                ConstantPoolEntry::NameAndTypeDescriptor(name_text, type_text),
            )
            &&& #[trigger] holds_text(constants, class_text, member.class_name)
            &&& #[trigger] holds_text(constants, name_text, member.name)
            &&& #[trigger] holds_text(constants, type_text, member.type_descriptor)
        }
}

proof fn lemma_member(
    constants: &ConstantPool,
    class: u16,
    name_and_type: u16,
    member: MemberModel,
)
    ensures
        constants.member(class, name_and_type) == Some(member) <==> names_member(
            constants,
            class,
            name_and_type,
            member,
        ),
{
    if constants.member(class, name_and_type) == Some(member) {
        let class_text = constants.at(class)->0->ClassReference_0;
        let name_text = constants.at(name_and_type)->0->NameAndTypeDescriptor_0;
        let type_text = constants.at(name_and_type)->0->NameAndTypeDescriptor_1;
        assert(holds(constants, class, ConstantPoolEntry::ClassReference(class_text)));
        assert(holds_text(constants, class_text, member.class_name));
        assert(holds_text(constants, name_text, member.name));
        assert(holds_text(constants, type_text, member.type_descriptor));
    }
}

/// A constant refers to a method, or to a field, exactly if it is a reference of that sort, and
/// the two constants that it refers to give the class, the name and the type descriptor.
pub proof fn law_member_constants(
    constants: &ConstantPool,
    index: u16,
    class: u16,
    name_and_type: u16,
    member: MemberModel,
)
    ensures
        holds(constants, index, ConstantPoolEntry::MethodReference(class, name_and_type)) ==> (
        constants.method_reference(index) == Some(member) <==> names_member(
            constants,
            class,
            name_and_type,
            member,
        )),
        holds(constants, index, ConstantPoolEntry::FieldReference(class, name_and_type)) ==> (
        constants.field_reference(index) == Some(member) <==> names_member(
            constants,
            class,
            name_and_type,
            member,
        )),
        constants.method_reference(index) is Some ==> index < constants.entries@.len()
            && constants.entries@[index as int] is Some
            && constants.entries@[index as int]->0 is MethodReference,
        constants.field_reference(index) is Some ==> index < constants.entries@.len()
            && constants.entries@[index as int] is Some
            && constants.entries@[index as int]->0 is FieldReference,
{
    lemma_member(constants, class, name_and_type, member);
}

/// The instruction at an address is the one that was decoded there.
pub proof fn law_code_is_held(code: &DecodedCode, address: int, decoded: (Instruction, usize))
    ensures
        code.at(address) == Some(decoded) <==> 0 <= address < code.instructions@.len()
            && code.instructions@[address] == Some(decoded),
        code.at(address) is None <==> !(0 <= address < code.instructions@.len())
            || code.instructions@[address] is None,
{
}

/// The class of a name is the one with that name after which no other with that name was
/// registered.
pub proof fn law_class_of_a_name(classes: Seq<ClassRef>, name: Seq<char>, i: int)
    requires
        0 <= i < classes.len(),
        classes[i].name@ == name,
        forall|j: int| i < j < classes.len() ==> (#[trigger] classes[j]).name@ != name,
    ensures
        class_named(classes, name) == Some(classes[i]),
    decreases classes.len(),
{
    if i < classes.len() - 1 {
        assert forall|j: int| i < j < classes.len() - 1 implies (
        #[trigger] classes.drop_last()[j]).name@ != name by {
            assert(classes[j].name@ != name);
        }
        law_class_of_a_name(classes.drop_last(), name, i);
    }
}

/// A name that no class has is the name of no class.
pub proof fn law_no_class_of_a_name(classes: Seq<ClassRef>, name: Seq<char>)
    requires
        forall|j: int| 0 <= j < classes.len() ==> (#[trigger] classes[j]).name@ != name,
    ensures
        class_named(classes, name) is None,
    decreases classes.len(),
{
    if classes.len() > 0 {
        assert forall|j: int| 0 <= j < classes.len() - 1 implies (
        #[trigger] classes.drop_last()[j]).name@ != name by {
            assert(classes[j].name@ != name);
        }
        law_no_class_of_a_name(classes.drop_last(), name);
    }
}

/// The class of an identifier is the one with that identifier after which no other with that
/// identifier was registered.
pub proof fn law_class_of_an_identifier(classes: Seq<ClassRef>, id: ClassId, i: int)
    requires
        0 <= i < classes.len(),
        classes[i].id == id,
        forall|j: int| i < j < classes.len() ==> (#[trigger] classes[j]).id != id,
    ensures
        class_with_id(classes, id) == Some(classes[i]),
    decreases classes.len(),
{
    if i < classes.len() - 1 {
        assert forall|j: int| i < j < classes.len() - 1 implies (
        #[trigger] classes.drop_last()[j]).id != id by {
            assert(classes[j].id != id);
        }
        law_class_of_an_identifier(classes.drop_last(), id, i);
    }
}

/// An identifier that no class has is the identifier of no class.
pub proof fn law_no_class_of_an_identifier(classes: Seq<ClassRef>, id: ClassId)
    requires
        forall|j: int| 0 <= j < classes.len() ==> (#[trigger] classes[j]).id != id,
    ensures
        class_with_id(classes, id) is None,
    decreases classes.len(),
{
    if classes.len() > 0 {
        assert forall|j: int| 0 <= j < classes.len() - 1 implies (
        #[trigger] classes.drop_last()[j]).id != id by {
            assert(classes[j].id != id);
        }
        law_no_class_of_an_identifier(classes.drop_last(), id);
    }
}

/// The superclass of a class file is the class of the name that it gives, and there is none if it
/// gives no name. A name without a class is an error.
pub proof fn law_superclass_of_a_file(file: ClassFile, classes: Seq<ClassRef>)
    ensures
        file.superclass is None ==> superclass_of(file, classes) == Ok::<_, VmErrorModel>(
            None::<ClassRef>,
        ),
        file.superclass matches Some(name) ==> match class_named(classes, name@) {
            Some(class) => superclass_of(file, classes) == Ok::<_, VmErrorModel>(Some(class)),
            None => superclass_of(file, classes) == Err::<Option<ClassRef>, _>(
                VmErrorModel::ClassNotFoundException(name@),
            ),
        },
{
}

/// The classes of some names are found one by one, in the order of the names.
pub proof fn law_classes_of_names(names: Seq<String>, classes: Seq<ClassRef>)
    ensures
        classes_named(names, classes) matches Ok(found) ==> {
            &&& found.len() == names.len()
            &&& forall|i: int|
                0 <= i < names.len() ==> class_named(classes, (#[trigger] names[i])@) == Some(
                    found[i],
                )
        },
        (forall|i: int|
            0 <= i < names.len() ==> class_named(classes, (#[trigger] names[i])@) is Some)
            ==> classes_named(names, classes) is Ok,
    decreases names.len(),
{
    if names.len() > 0 {
        let rest = names.drop_last();
        law_classes_of_names(rest, classes);
        if let Ok(found) = classes_named(names, classes) {
            assert forall|i: int| 0 <= i < names.len() implies class_named(
                classes,
                (#[trigger] names[i])@,
            ) == Some(found[i]) by {
                if i < names.len() - 1 {
                    assert(rest[i] == names[i]);
                }
            }
        }
        if forall|i: int|
            0 <= i < names.len() ==> class_named(classes, (#[trigger] names[i])@) is Some {
            assert forall|i: int| 0 <= i < rest.len() implies class_named(
                classes,
                (#[trigger] rest[i])@,
            ) is Some by {
                assert(rest[i] == names[i]);
            }
            assert(class_named(classes, names[names.len() - 1]@) is Some);
        }
    }
}

/// If a class is missing, the error gives the first of the names without a class.
pub proof fn law_first_missing_name(names: Seq<String>, classes: Seq<ClassRef>, i: int)
    requires
        0 <= i < names.len(),
        class_named(classes, names[i]@) is None,
        forall|j: int| 0 <= j < i ==> class_named(classes, (#[trigger] names[j])@) is Some,
    ensures
        classes_named(names, classes) == Err::<Seq<ClassRef>, _>(
            VmErrorModel::ClassNotFoundException(names[i]@),
        ),
    decreases names.len(),
{
    let rest = names.drop_last();
    if i < names.len() - 1 {
        assert(rest[i] == names[i]);
        assert forall|j: int| 0 <= j < i implies class_named(
            classes,
            (#[trigger] rest[j])@,
        ) is Some by {
            assert(rest[j] == names[j]);
        }
        law_first_missing_name(rest, classes, i);
    } else {
        assert forall|j: int| 0 <= j < rest.len() implies class_named(
            classes,
            (#[trigger] rest[j])@,
        ) is Some by {
            assert(rest[j] == names[j]);
        }
        law_classes_of_names(rest, classes);
    }
}

/// A class that is made of a class file has the name, the constants and the methods of the file,
/// the identifier, the superclass and the interfaces that were given, and the fields of the file
/// in their order. The values of the fields of an instance follow those of the superclass, one
/// after the other, and an instance holds no others.
pub proof fn law_class_of_a_file(
    class: Class,
    file: ClassFile,
    id: ClassId,
    superclass: Option<ClassRef>,
    interfaces: Seq<ClassRef>,
    i: int,
)
    requires
        is_class_of(class, file, id, superclass, interfaces),
    ensures
        class.id == id,
        class.name@ == file.name@,
        class.constants == file.constants,
        class.methods@ == file.methods@,
        class.superclass == superclass,
        class.interfaces@ == interfaces,
        class.fields@.len() == file.fields@.len(),
        0 <= i < file.fields@.len() ==> {
            &&& class.fields@[i].field == file.fields@[i]
            &&& superclass is None ==> class.fields@[i].index == i
            &&& superclass matches Some(above) ==> class.fields@[i].index
                == above.num_total_fields + i
        },
        superclass is None ==> class.num_total_fields == file.fields@.len(),
        superclass matches Some(above) ==> class.num_total_fields == above.num_total_fields
            + file.fields@.len(),
{
}

/// The fields of a class can be numbered if their number, with those of the superclass, can be
/// written in a machine word.
pub proof fn law_fields_fit(file: ClassFile, classes: Seq<ClassRef>)
    ensures
        file.superclass is None ==> fields_fit(file, classes),
        file.superclass matches Some(name) ==> match class_named(classes, name@) {
            None => fields_fit(file, classes),
            Some(above) => fields_fit(file, classes) <==> above.num_total_fields
                + file.fields@.len() <= usize::MAX,
        },
{
    assert(file.fields.len() == file.fields@.len());
}

/// The method that is found among some is the first with that name and that type descriptor.
pub proof fn law_first_method(
    methods: Seq<Rc<ClassFileMethod>>,
    name: Seq<char>,
    type_descriptor: Seq<char>,
    i: int,
)
    requires
        0 <= i < methods.len(),
        methods[i].name@ == name,
        methods[i].type_descriptor@ == type_descriptor,
        forall|j: int|
            0 <= j < i ==> !((#[trigger] methods[j]).name@ == name && methods[j].type_descriptor@
                == type_descriptor),
    ensures
        first_method(methods, name, type_descriptor) == Some(methods[i]),
    decreases methods.len(),
{
    if i > 0 {
        assert(!(methods[0].name@ == name && methods[0].type_descriptor@ == type_descriptor));
        let rest = methods.skip(1);
        assert forall|j: int| 0 <= j < i - 1 implies !((#[trigger] rest[j]).name@ == name
            && rest[j].type_descriptor@ == type_descriptor) by {
            assert(rest[j] == methods[j + 1]);
        }
        law_first_method(rest, name, type_descriptor, i - 1);
    }
}

/// No method is found if none has that name and that type descriptor.
pub proof fn law_no_method(
    methods: Seq<Rc<ClassFileMethod>>,
    name: Seq<char>,
    type_descriptor: Seq<char>,
)
    requires
        forall|j: int|
            0 <= j < methods.len() ==> !((#[trigger] methods[j]).name@ == name
                && methods[j].type_descriptor@ == type_descriptor),
    ensures
        first_method(methods, name, type_descriptor) is None,
    decreases methods.len(),
{
    if methods.len() > 0 {
        let rest = methods.skip(1);
        assert(!(methods[0].name@ == name && methods[0].type_descriptor@ == type_descriptor));
        assert forall|j: int| 0 <= j < rest.len() implies !((#[trigger] rest[j]).name@ == name
            && rest[j].type_descriptor@ == type_descriptor) by {
            assert(rest[j] == methods[j + 1]);
        }
        law_no_method(rest, name, type_descriptor);
    }
}

/// The methods of a class are looked for among all that it declares.
pub proof fn law_class_method(class: Class, name: Seq<char>, type_descriptor: Seq<char>)
    ensures
        class.method(name, type_descriptor) == first_method(
            class.methods@,
            name,
            type_descriptor,
        ),
{
}

/// The field that is found among some is the first with that name, with its position.
pub proof fn law_first_field(fields: Seq<InstanceField>, name: Seq<char>, i: int)
    requires
        0 <= i < fields.len(),
        fields[i].field.name@ == name,
        forall|j: int| 0 <= j < i ==> (#[trigger] fields[j]).field.name@ != name,
    ensures
        first_field(fields, name) == Some((fields[i].index, fields[i].field)),
    decreases fields.len(),
{
    if i > 0 {
        assert(fields[0].field.name@ != name);
        let rest = fields.skip(1);
        assert forall|j: int| 0 <= j < i - 1 implies (#[trigger] rest[j]).field.name@ != name by {
            assert(rest[j] == fields[j + 1]);
        }
        law_first_field(rest, name, i - 1);
    }
}

/// No field is found if none has that name.
pub proof fn law_no_field(fields: Seq<InstanceField>, name: Seq<char>)
    requires
        forall|j: int| 0 <= j < fields.len() ==> (#[trigger] fields[j]).field.name@ != name,
    ensures
        first_field(fields, name) is None,
    decreases fields.len(),
{
    if fields.len() > 0 {
        let rest = fields.skip(1);
        assert(fields[0].field.name@ != name);
        assert forall|j: int| 0 <= j < rest.len() implies (#[trigger] rest[j]).field.name@
            != name by {
            assert(rest[j] == fields[j + 1]);
        }
        law_no_field(rest, name);
    }
}

/// The class that is this number of superclasses above a class.
pub open spec fn ancestor(class: Class, n: nat) -> Option<Class>
    decreases n,
{
    if n == 0 {
        Some(class)
    } else {
        match class.superclass {
            Some(superclass) => ancestor(*superclass, (n - 1) as nat),
            None => None,
        }
    }
}

/// A field is looked for in the nearest class of the given name in the chain of superclasses, the
/// class itself included, and there alone.
pub proof fn law_field_of_named_class(
    class: &Class,
    class_name: Seq<char>,
    field_name: Seq<char>,
    n: nat,
)
    requires
        ancestor(*class, n) is Some,
        forall|m: nat|
            m < n ==> #[trigger] ancestor(*class, m) is Some && ancestor(*class, m)->0.name@
                != class_name,
    ensures
        ancestor(*class, n)->0.name@ == class_name ==> class_field(*class, class_name, field_name)
            == first_field(ancestor(*class, n)->0.fields@, field_name),
        ancestor(*class, n)->0.name@ != class_name && ancestor(*class, n)->0.superclass is None
            ==> class_field(*class, class_name, field_name) is None,
    decreases n,
{
    if n > 0 {
        assert(ancestor(*class, 0) is Some);
        assert(ancestor(*class, 0)->0 == *class);
        let superclass = class.superclass->0;
        assert forall|m: nat| m < n - 1 implies #[trigger] ancestor(*superclass, m) is Some
            && ancestor(*superclass, m)->0.name@ != class_name by {
            assert(ancestor(*class, m + 1) == ancestor(*superclass, m));
        }
        law_field_of_named_class(&superclass, class_name, field_name, (n - 1) as nat);
    }
}

/// The class at the end of a path that leads from a class upwards: to the superclass by a step of
/// -1, and to an interface by the step of its position.
pub open spec fn class_above(class: Class, path: Seq<int>) -> Option<Class>
    decreases path.len(),
{
    if path.len() == 0 {
        Some(class)
    } else if path[0] == -1 {
        match class.superclass {
            Some(superclass) => class_above(*superclass, path.skip(1)),
            None => None,
        }
    } else if 0 <= path[0] < class.interfaces@.len() {
        class_above(*class.interfaces@[path[0]], path.skip(1))
    } else {
        None
    }
}

/// A class is a subclass of every class and interface that a path upwards leads to.
pub proof fn law_path_makes_subclass(class: &Class, path: Seq<int>)
    requires
        class_above(*class, path) is Some,
    ensures
        is_subclass(*class, class_above(*class, path)->0.name@),
    decreases path.len(),
{
    if path.len() > 0 {
        if path[0] == -1 {
            let superclass = class.superclass->0;
            law_path_makes_subclass(&superclass, path.skip(1));
        } else {
            law_path_makes_subclass(&class.interfaces@[path[0]], path.skip(1));
        }
    }
}

/// The superclass of a class is a subclass of the class of a name.
spec fn inherits_from(class: &Class, name: Seq<char>) -> bool {
    class.superclass matches Some(superclass) && is_subclass(*superclass, name)
}

/// To everything that a class is a subclass of, a path leads.
pub proof fn law_subclass_has_path(class: &Class, name: Seq<char>)
    requires
        is_subclass(*class, name),
    ensures
        exists|path: Seq<int>| #[trigger]
            class_above(*class, path) is Some && class_above(*class, path)->0.name@ == name,
    decreases class,
{
    if class.name@ == name {
        assert(class_above(*class, Seq::empty()) is Some);
    } else if inherits_from(class, name) {
        let superclass = class.superclass->0;
        law_subclass_has_path(&superclass, name);
        let path = choose|path: Seq<int>| #[trigger]
            class_above(*superclass, path) is Some && class_above(*superclass, path)->0.name@
                == name;
        let longer = seq![-1int] + path;
        assert(longer.skip(1) == path);
        assert(class_above(*class, longer) is Some);
    } else {
        let i = choose|i: int|
            0 <= i < class.interfaces@.len() && is_subclass(
                *#[trigger] class.interfaces@[i],
                name,
            );
        assert(decreases_to!(class => class.interfaces@[i]));
        law_subclass_has_path(&class.interfaces@[i], name);
        let path = choose|path: Seq<int>| #[trigger]
            class_above(*class.interfaces@[i], path) is Some && class_above(
                *class.interfaces@[i],
                path,
            )->0.name@ == name;
        let longer = seq![i] + path;
        assert(longer.skip(1) == path);
        assert(class_above(*class, longer) is Some);
    }
}

/// What each type admits: a type of at most 32 bits an integer, each wider one the numbers of its
/// kind, a class the absence of an object and the objects whose class is, or is above which, the
/// loaded class of that name is, and an array type the absence of an array and the arrays with
/// elements of exactly that type.
pub proof fn law_what_types_admit(
    value: Value,
    expected: FieldTypeModel,
    classes: Seq<ClassRef>,
    heap: HeapModel,
)
    ensures
        match expected {
            FieldTypeModel::Base(BaseType::Byte) => fits_type(value, expected, classes, heap)
                == value is Int,
            FieldTypeModel::Base(BaseType::Char) => fits_type(value, expected, classes, heap)
                == value is Int,
            FieldTypeModel::Base(BaseType::Int) => fits_type(value, expected, classes, heap)
                == value is Int,
            FieldTypeModel::Base(BaseType::Short) => fits_type(value, expected, classes, heap)
                == value is Int,
            FieldTypeModel::Base(BaseType::Boolean) => fits_type(value, expected, classes, heap)
                == value is Int,
            FieldTypeModel::Base(BaseType::Long) => fits_type(value, expected, classes, heap)
                == value is Long,
            FieldTypeModel::Base(BaseType::Float) => fits_type(value, expected, classes, heap)
                == value is Float,
            FieldTypeModel::Base(BaseType::Double) => fits_type(value, expected, classes, heap)
                == value is Double,
            FieldTypeModel::Object(name) => fits_type(value, expected, classes, heap) == (value
                == Value::Null || (value matches Value::Object(object) && class_with_id(
                classes,
                object.class_id,
            ) is Some && class_named(classes, name) is Some && is_subclass(
                *class_with_id(classes, object.class_id)->0,
                name,
            ))),
            FieldTypeModel::Array(element_type) => fits_type(value, expected, classes, heap) == (
            value == Value::Null || (value matches Value::Array(array) && array.index
                < heap.arrays.len() && heap.arrays[array.index as int].element_type
                == *element_type)),
        },
{
}

/// Types are told apart by what they are made of.
pub proof fn law_type_models(one: FieldType, two: FieldType)
    ensures
        match (one, two) {
            (FieldType::Base(left), FieldType::Base(right)) => one@ == two@ <==> left == right,
            (FieldType::Object(left), FieldType::Object(right)) => one@ == two@ <==> left@
                == right@,
            (FieldType::Array(left), FieldType::Array(right)) => one@ == two@ <==> left@ == right@,
            _ => one@ != two@,
        },
        one matches FieldType::Base(base) ==> one@ == FieldTypeModel::Base(base),
        one matches FieldType::Object(name) ==> one@ == FieldTypeModel::Object(name@),
        one matches FieldType::Array(element) ==> one@ == FieldTypeModel::Array(
            Box::new(element@),
        ),
{
}

/// The number that a sequence of decimal digits denotes.
pub open spec fn denoted(digits: Seq<char>) -> int
    decreases digits.len(),
{
    if digits.len() == 0 {
        0
    } else {
        10 * denoted(digits.drop_last()) + (digits.last() as int - '0' as int)
    }
}

/// Decimal notation consists of digits, denotes the number, and does not begin with a zero but
/// for the number zero.
pub proof fn law_decimal_notation(n: nat)
    ensures
        denoted(decimal(n)) == n,
        decimal(n).len() > 0,
        forall|i: int| 0 <= i < decimal(n).len() ==> '0' <= #[trigger] decimal(n)[i] <= '9',
        n > 0 ==> decimal(n)[0] != '0',
    decreases n,
{
    if n < 10 {
        assert(decimal(n).drop_last() == Seq::<char>::empty());
        assert(denoted(decimal(n).drop_last()) == 0);
    } else {
        law_decimal_notation(n / 10);
        assert(decimal(n).drop_last() == decimal(n / 10));
    }
}

} // verus!
