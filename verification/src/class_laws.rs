//! What holds of loaded classes.

use crate::class::{class_field, first_field, is_subclass, Class, ClassId, ClassRef, InstanceField};
use crate::class_file::ClassFile;
use crate::class_loader::{class_named, class_with_id, classes_named, is_class_of, superclass_of};
use crate::field_type::FieldTypeModel;
use crate::semantics::{create_object, VmModel};
use crate::value::Value;
use vstd::prelude::*;

verus! {

/// The values of a class's own fields, and those of its superclasses, have their positions among
/// the values that an instance holds.
pub open spec fn class_is_consistent(class: Class) -> bool
    decreases class,
{
    &&& forall|i: int|
        0 <= i < class.fields@.len() ==> (#[trigger] class.fields@[i]).index
            < class.num_total_fields
    &&& match class.superclass {
        Some(superclass) => superclass.num_total_fields <= class.num_total_fields
            && class_is_consistent(*superclass),
        None => true,
    }
}

/// The classes of a machine are those that it created, their identifiers are their positions,
/// and each of them is consistent.
pub open spec fn classes_are_consistent(vm: VmModel) -> bool {
    &&& vm.classes == vm.allocated
    &&& vm.classes.len() <= usize::MAX
    &&& forall|i: int|
        0 <= i < vm.classes.len() ==> (#[trigger] vm.classes[i]).id == ClassId(i as u64)
            && class_is_consistent(*vm.classes[i])
}

/// A class that was just registered is found by its name and by its identifier, and no other
/// name or identifier gives another class than before.
pub proof fn law_registered_class_is_found(
    classes: Seq<ClassRef>,
    class: ClassRef,
    name: Seq<char>,
    id: ClassId,
)
    ensures
        class_named(classes.push(class), class.name@) == Some(class),
        class_with_id(classes.push(class), class.id) == Some(class),
        name != class.name@ ==> class_named(classes.push(class), name) == class_named(
            classes,
            name,
        ),
        id != class.id ==> class_with_id(classes.push(class), id) == class_with_id(classes, id),
{
    assert(classes.push(class).drop_last() == classes);
}

/// A class that is found by a name is one of the classes, and has that name.
pub proof fn law_class_named_is_registered(classes: Seq<ClassRef>, name: Seq<char>)
    ensures
        class_named(classes, name) matches Some(class) ==> classes.contains(class) && class.name@
            == name,
        class_named(classes, name) is None ==> forall|i: int|
            0 <= i < classes.len() ==> (#[trigger] classes[i]).name@ != name,
    decreases classes.len(),
{
    if classes.len() > 0 {
        law_class_named_is_registered(classes.drop_last(), name);
        if classes.last().name@ == name {
            assert(classes.contains(classes.last()));
        } else {
            if let Some(class) = class_named(classes.drop_last(), name) {
                let i = choose|i: int|
                    0 <= i < classes.drop_last().len() && classes.drop_last()[i] == class;
                assert(classes[i] == class);
            } else {
                assert forall|i: int| 0 <= i < classes.len() implies (
                #[trigger] classes[i]).name@ != name by {
                    if i < classes.len() - 1 {
                        assert(classes.drop_last()[i] == classes[i]);
                    }
                }
            }
        }
    }
}

/// In a machine with consistent classes every class is found by its identifier.
pub proof fn law_class_is_found_by_id(vm: VmModel, i: int)
    requires
        classes_are_consistent(vm),
        0 <= i < vm.classes.len(),
    ensures
        class_with_id(vm.classes, vm.classes[i].id) == Some(vm.classes[i]),
{
    lemma_class_is_found_by_id(vm.classes, i);
}

proof fn lemma_class_is_found_by_id(classes: Seq<ClassRef>, i: int)
    requires
        classes.len() <= usize::MAX,
        forall|j: int| 0 <= j < classes.len() ==> (#[trigger] classes[j]).id == ClassId(j as u64),
        0 <= i < classes.len(),
    ensures
        class_with_id(classes, classes[i].id) == Some(classes[i]),
    decreases classes.len(),
{
    if i < classes.len() - 1 {
        assert(classes[i].id != classes.last().id);
        assert(classes.drop_last()[i] == classes[i]);
        lemma_class_is_found_by_id(classes.drop_last(), i);
    }
}

/// Loading a class keeps the classes of a machine consistent.
pub proof fn law_loading_keeps_consistency(
    before: VmModel,
    after: VmModel,
    file: ClassFile,
    superclass: Option<ClassRef>,
    interfaces: Seq<ClassRef>,
    class: ClassRef,
)
    requires
        classes_are_consistent(before),
        superclass_of(file, before.classes) == Ok::<_, crate::vm_error::VmErrorModel>(superclass),
        classes_named(file.interfaces@, before.classes) == Ok::<_, crate::vm_error::VmErrorModel>(
            interfaces,
        ),
        is_class_of(
            *class,
            file,
            ClassId(before.allocated.len() as u64),
            superclass,
            interfaces,
        ),
        after == (VmModel {
            allocated: before.allocated.push(class),
            classes: before.classes.push(class),
            ..before
        }),
        after.classes.len() <= usize::MAX,
    ensures
        classes_are_consistent(after),
{
    if let Some(name) = file.superclass {
        law_class_named_is_registered(before.classes, name@);
        let i = choose|i: int|
            0 <= i < before.classes.len() && before.classes[i] == superclass->0;
        assert(class_is_consistent(*before.classes[i]));
    }
    assert(class_is_consistent(*class));
    assert forall|i: int| 0 <= i < after.classes.len() implies (#[trigger] after.classes[i]).id
        == ClassId(i as u64) && class_is_consistent(*after.classes[i]) by {
        if i < before.classes.len() {
            assert(after.classes[i] == before.classes[i]);
        }
    }
}

proof fn lemma_first_field_is_field(fields: Seq<InstanceField>, name: Seq<char>)
    ensures
        first_field(fields, name) matches Some((position, _)) ==> exists|i: int|
            0 <= i < fields.len() && (#[trigger] fields[i]).index == position,
    decreases fields.len(),
{
    if fields.len() > 0 {
        lemma_first_field_is_field(fields.skip(1), name);
        if fields[0].field.name@ != name {
            if let Some((position, _)) = first_field(fields.skip(1), name) {
                let i = choose|i: int|
                    0 <= i < fields.skip(1).len() && (#[trigger] fields.skip(1)[i]).index
                        == position;
                assert(fields[i + 1].index == position);
            }
        }
    }
}

/// A field that a consistent class finds has its place in every instance of the class.
pub proof fn law_field_is_in_instance(class: &Class, class_name: Seq<char>, field_name: Seq<char>)
    requires
        class_is_consistent(*class),
    ensures
        class_field(*class, class_name, field_name) matches Some((position, _)) ==> position
            < class.num_total_fields,
    decreases class,
{
    if class.name@ == class_name {
        lemma_first_field_is_field(class.fields@, field_name);
    } else if let Some(superclass) = class.superclass {
        law_field_is_in_instance(&superclass, class_name, field_name);
    }
}

/// A new object has all the fields that its class finds, and fits the type of its class and of
/// every loaded class and interface above it.
pub proof fn law_new_object_fits_its_class(
    vm: VmModel,
    name: Seq<char>,
    class_name: Seq<char>,
    field_name: Seq<char>,
    above: Seq<char>,
)
    requires
        classes_are_consistent(vm),
        class_named(vm.classes, name) is Some,
        vm.heap.objects.len() < usize::MAX,
    ensures
        ({
            let class = class_named(vm.classes, name)->0;
            let (after, result) = create_object(vm, name);
            &&& result matches Ok(object)
            &&& after.fits(Value::Object(object), FieldTypeModel::Object(name))
            &&& class_named(vm.classes, above) is Some && is_subclass(*class, above) ==> after.fits(
                Value::Object(object),
                FieldTypeModel::Object(above),
            )
            &&& class_field(*class, class_name, field_name) matches Some((position, _))
                ==> after.heap.has_field(object, position)
        }),
{
    let class = class_named(vm.classes, name)->0;
    law_class_named_is_registered(vm.classes, name);
    let i = choose|i: int| 0 <= i < vm.classes.len() && vm.classes[i] == class;
    law_class_is_found_by_id(vm, i);
    law_field_is_in_instance(&class, class_name, field_name);
}

/// A class is a subclass of itself, of whatever its superclass is one of, and of whatever one of
/// its interfaces is one of.
pub proof fn law_subclass(class: Class, name: Seq<char>, i: int)
    ensures
        is_subclass(class, class.name@),
        class.superclass matches Some(superclass) && is_subclass(*superclass, name) ==> is_subclass(
            class,
            name,
        ),
        0 <= i < class.interfaces@.len() && is_subclass(*class.interfaces@[i], name)
            ==> is_subclass(class, name),
{
}

} // verus!
