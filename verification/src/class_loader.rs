//! Creating classes from class files, and finding them again.

use crate::class::{Class, ClassId, ClassRef, InstanceField};
use crate::class_file::ClassFile;
use crate::vm_error::{error_result, VmError, VmErrorModel};
use std::rc::Rc;
use vstd::prelude::*;

verus! {

/// The class that was registered last under a name.
pub open spec fn class_named(classes: Seq<ClassRef>, name: Seq<char>) -> Option<ClassRef>
    decreases classes.len(),
{
    if classes.len() == 0 {
        None
    } else if classes.last().name@ == name {
        Some(classes.last())
    } else {
        class_named(classes.drop_last(), name)
    }
}

/// The class that was registered last under an identifier.
pub open spec fn class_with_id(classes: Seq<ClassRef>, id: ClassId) -> Option<ClassRef>
    decreases classes.len(),
{
    if classes.len() == 0 {
        None
    } else if classes.last().id == id {
        Some(classes.last())
    } else {
        class_with_id(classes.drop_last(), id)
    }
}

/// The superclass that a class file names.
pub open spec fn superclass_of(file: ClassFile, classes: Seq<ClassRef>) -> Result<
    Option<ClassRef>,
    VmErrorModel,
> {
    match file.superclass {
        None => Ok(None),
        Some(name) => match class_named(classes, name@) {
            Some(class) => Ok(Some(class)),
            None => Err(VmErrorModel::ClassNotFoundException(name@)),
        },
    }
}

/// The classes of some names, or the first name without a class.
pub open spec fn classes_named(names: Seq<String>, classes: Seq<ClassRef>) -> Result<
    Seq<ClassRef>,
    VmErrorModel,
>
    decreases names.len(),
{
    if names.len() == 0 {
        Ok(Seq::empty())
    } else {
        match classes_named(names.drop_last(), classes) {
            Err(error) => Err(error),
            Ok(found) => match class_named(classes, names.last()@) {
                Some(class) => Ok(found.push(class)),
                None => Err(VmErrorModel::ClassNotFoundException(names.last()@)),
            },
        }
    }
}

/// The number of values that an instance has from its superclass.
pub open spec fn inherited_fields(superclass: Option<ClassRef>) -> int {
    match superclass {
        Some(class) => class.num_total_fields as int,
        None => 0,
    }
}

/// The values of an instance of the class can be numbered.
pub open spec fn fields_fit(file: ClassFile, classes: Seq<ClassRef>) -> bool {
    match superclass_of(file, classes) {
        Ok(superclass) => inherited_fields(superclass) + file.fields@.len() <= usize::MAX,
        Err(_) => true,
    }
}

/// A class is what a class file says, with the classes that the file names. The values of its
/// own fields follow those of the superclass, in the order of the declarations.
pub open spec fn is_class_of(
    class: Class,
    file: ClassFile,
    id: ClassId,
    superclass: Option<ClassRef>,
    interfaces: Seq<ClassRef>,
) -> bool {
    &&& class.id == id
    &&& class.name == file.name
    &&& class.constants == file.constants
    &&& class.methods == file.methods
    &&& class.superclass == superclass
    &&& class.interfaces@ == interfaces
    &&& class.fields@.len() == file.fields@.len()
    &&& forall|i: int|
        0 <= i < file.fields@.len() ==> (#[trigger] class.fields@[i]).field == file.fields@[i]
            && class.fields@[i].index == inherited_fields(superclass) + i
    &&& class.num_total_fields == inherited_fields(superclass) + file.fields@.len()
}

/// Finds loaded classes.
#[derive(Debug)]
pub struct ClassLoader {
    pub classes: Vec<ClassRef>,
}

impl ClassLoader {
    /// A loader without classes.
    pub fn new() -> (loader: ClassLoader)
        ensures
            loader.classes@ == Seq::<ClassRef>::empty(),
    {
        ClassLoader { classes: Vec::new() }
    }

    /// Registers a class.
    pub fn register_class(&mut self, class: ClassRef)
        ensures
            final(self).classes@ == old(self).classes@.push(class),
    {
        self.classes.push(class);
    }

    /// Finds the class of a name.
    pub fn find_class_by_name(&self, name: &String) -> (class: Option<ClassRef>)
        ensures
            class == class_named(self.classes@, name@),
    {
        let mut n: usize = self.classes.len();
        assert(self.classes@.take(n as int) == self.classes@);
        while n > 0
            invariant
                n <= self.classes@.len(),
                class_named(self.classes@, name@) == class_named(
                    self.classes@.take(n as int),
                    name@,
                ),
            decreases n,
        {
            assert(self.classes@.take(n as int).last() == self.classes@[n - 1]);
            assert(self.classes@.take(n as int).drop_last() == self.classes@.take(n - 1));
            n -= 1;
            if self.classes[n].name == *name {
                return Some(self.classes[n].clone());
            }
        }
        None
    }

    /// Finds the class of an identifier.
    pub fn find_class_by_id(&self, id: ClassId) -> (class: Option<ClassRef>)
        ensures
            class == class_with_id(self.classes@, id),
    {
        let mut n: usize = self.classes.len();
        assert(self.classes@.take(n as int) == self.classes@);
        while n > 0
            invariant
                n <= self.classes@.len(),
                class_with_id(self.classes@, id) == class_with_id(self.classes@.take(n as int), id),
            decreases n,
        {
            assert(self.classes@.take(n as int).last() == self.classes@[n - 1]);
            assert(self.classes@.take(n as int).drop_last() == self.classes@.take(n - 1));
            n -= 1;
            if self.classes[n].id == id {
                return Some(self.classes[n].clone());
            }
        }
        None
    }

    /// Finds the superclass that a class file names.
    fn find_superclass(&self, file: &ClassFile) -> (superclass: Result<Option<ClassRef>, VmError>)
        ensures
            error_result(superclass) == superclass_of(*file, self.classes@),
    {
        match &file.superclass {
            None => Ok(None),
            Some(name) => match self.find_class_by_name(name) {
                Some(class) => Ok(Some(class)),
                None => Err(VmError::ClassNotFoundException(name.clone())),
            },
        }
    }

    /// Finds the classes of some names.
    fn find_classes(&self, names: &Vec<String>) -> (classes: Result<Vec<ClassRef>, VmError>)
        ensures
            match classes {
                Ok(found) => classes_named(names@, self.classes@) == Ok::<_, VmErrorModel>(found@),
                Err(error) => classes_named(names@, self.classes@) == Err::<
                    Seq<ClassRef>,
                    _,
                >(error@),
            },
    {
        let mut found: Vec<ClassRef> = Vec::new();
        let mut i: usize = 0;
        while i < names.len()
            invariant
                i <= names@.len(),
                classes_named(names@.take(i as int), self.classes@) == Ok::<_, VmErrorModel>(found@),
            decreases names@.len() - i,
        {
            assert(names@.take(i + 1).drop_last() == names@.take(i as int));
            assert(names@.take(i + 1).last() == names@[i as int]);
            match self.find_class_by_name(&names[i]) {
                Some(class) => found.push(class),
                None => {
                    let error = VmError::ClassNotFoundException(names[i].clone());
                    proof {
                        lemma_first_missing_class(names@, self.classes@, i + 1);
                    }
                    return Err(error);
                },
            }
            i += 1;
        }
        assert(names@.take(i as int) == names@);
        Ok(found)
    }
}

/// A missing class among the first names is missing among all of them.
proof fn lemma_first_missing_class(names: Seq<String>, classes: Seq<ClassRef>, n: int)
    requires
        0 <= n <= names.len(),
        classes_named(names.take(n), classes) is Err,
    ensures
        classes_named(names, classes) == classes_named(names.take(n), classes),
    decreases names.len() - n,
{
    if n == names.len() {
        assert(names.take(n) == names);
    } else {
        assert(names.take(n + 1).drop_last() == names.take(n));
        lemma_first_missing_class(names, classes, n + 1);
    }
}

/// Creates classes and numbers them.
#[derive(Debug)]
pub struct ClassAllocator {
    pub classes: Vec<ClassRef>,
}

impl ClassAllocator {
    /// An allocator that has created no class.
    pub fn new() -> (allocator: ClassAllocator)
        ensures
            allocator.classes@ == Seq::<ClassRef>::empty(),
    {
        ClassAllocator { classes: Vec::new() }
    }

    /// Creates the class of a class file, unless the file names a class that is not loaded.
    pub fn allocate(&mut self, class_file: ClassFile, class_loader: &ClassLoader) -> (result:
        Result<ClassRef, VmError>)
        requires
            fields_fit(class_file, class_loader.classes@),
        ensures
            match superclass_of(class_file, class_loader.classes@) {
                Err(error) => error_result(result) == Err::<ClassRef, _>(error)
                    && final(self).classes@ == old(self).classes@,
                Ok(superclass) => match classes_named(
                    class_file.interfaces@,
                    class_loader.classes@,
                ) {
                    Err(error) => error_result(result) == Err::<ClassRef, _>(error)
                        && final(self).classes@ == old(self).classes@,
                    Ok(interfaces) => {
                        &&& result matches Ok(class)
                        &&& is_class_of(
                            *class,
                            class_file,
                            ClassId(old(self).classes@.len() as u64),
                            superclass,
                            interfaces,
                        )
                        &&& final(self).classes@ == old(self).classes@.push(class)
                    },
                },
            },
    {
        let id = ClassId(self.classes.len() as u64);
        let superclass = class_loader.find_superclass(&class_file)?;
        let interfaces = class_loader.find_classes(&class_file.interfaces)?;
        let inherited: usize = match &superclass {
            Some(class) => class.num_total_fields,
            None => 0,
        };
        let mut fields: Vec<InstanceField> = Vec::new();
        let mut i: usize = 0;
        while i < class_file.fields.len()
            invariant
                i <= class_file.fields@.len(),
                inherited + class_file.fields@.len() <= usize::MAX,
                fields@.len() == i,
                forall|j: int|
                    0 <= j < i ==> (#[trigger] fields@[j]).field == class_file.fields@[j]
                        && fields@[j].index == inherited + j,
            decreases class_file.fields@.len() - i,
        {
            fields.push(InstanceField { index: inherited + i, field: class_file.fields[i].clone() });
            i += 1;
        }
        let class = Rc::new(
            Class {
                id,
                name: class_file.name,
                constants: class_file.constants,
                superclass,
                interfaces,
                fields,
                methods: class_file.methods,
                num_total_fields: inherited + i,
            },
        );
        self.classes.push(class.clone());
        Ok(class)
    }
}

} // verus!
