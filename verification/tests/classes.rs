use rjvm::class::ClassId;
use rjvm::class_file::{ClassFile, ClassFileField, ClassFileMethod, ConstantPool, MethodFlags};
use rjvm::field_type::{BaseType, FieldType};
use rjvm::value::Value;
use rjvm::vm::Vm;
use rjvm::vm_error::VmError;
use std::rc::Rc;

fn class_file(
    name: &str,
    superclass: Option<&str>,
    interfaces: &[&str],
    fields: &[&str],
    methods: &[&str],
) -> ClassFile {
    ClassFile {
        name: name.to_string(),
        superclass: superclass.map(|name| name.to_string()),
        interfaces: interfaces.iter().map(|name| name.to_string()).collect(),
        constants: ConstantPool { entries: vec![] },
        fields: fields
            .iter()
            .map(|name| {
                Rc::new(ClassFileField {
                    name: name.to_string(),
                    type_descriptor: FieldType::Base(BaseType::Int),
                })
            })
            .collect(),
        methods: methods
            .iter()
            .map(|name| {
                Rc::new(ClassFileMethod {
                    flags: MethodFlags { is_static: true, is_native: true },
                    name: name.to_string(),
                    type_descriptor: "()V".to_string(),
                    parameters: vec![],
                    return_type: None,
                    code: None,
                })
            })
            .collect(),
    }
}

fn not_found(name: &str) -> VmError {
    VmError::ClassNotFoundException(name.to_string())
}

#[test]
fn class_ids_print_in_decimal() {
    assert_eq!(ClassId(0).to_text(), "0");
    assert_eq!(ClassId(10203).to_text(), "10203");
    assert_eq!(ClassId(18446744073709551615).to_text(), "18446744073709551615");
}

#[test]
fn loaded_classes_are_found() {
    let mut vm = Vm::new();
    assert!(vm.find_class("A").is_none());
    vm.load_class(class_file("A", None, &[], &[], &["f"])).unwrap();
    vm.load_class(class_file("B", Some("A"), &[], &[], &[])).unwrap();
    let a = vm.find_class("A").unwrap();
    let b = vm.get_class("B").unwrap();
    assert_eq!(a.name, "A");
    assert_eq!(b.superclass.as_ref().unwrap().name, "A");
    assert_ne!(a.id, b.id);
    assert_eq!(vm.get_class_by_id(a.id).unwrap().name, "A");
    assert_eq!(vm.get_class_by_id(b.id).unwrap().name, "B");
    assert_eq!(vm.get_class("C").err(), Some(not_found("C")));
    assert_eq!(vm.get_class_by_id(ClassId(1234)).err(), Some(not_found("1234")));
}

#[test]
fn missing_superclasses_and_interfaces_are_refused() {
    let mut vm = Vm::new();
    vm.load_class(class_file("A", None, &[], &[], &[])).unwrap();
    let refused = vm.load_class(class_file("B", Some("X"), &["Y"], &[], &[]));
    assert_eq!(refused, Err(not_found("X")));
    let refused = vm.load_class(class_file("B", Some("A"), &["A", "Y", "Z"], &[], &[]));
    assert_eq!(refused, Err(not_found("Y")));
    assert!(vm.find_class("B").is_none());
    assert_eq!(vm.debug_stats().classes, 1);
}

#[test]
fn a_class_replaces_one_of_the_same_name() {
    let mut vm = Vm::new();
    vm.load_class(class_file("A", None, &[], &["x"], &[])).unwrap();
    let first = vm.get_class("A").unwrap();
    vm.load_class(class_file("A", None, &[], &[], &[])).unwrap();
    let second = vm.get_class("A").unwrap();
    assert_ne!(first.id, second.id);
    assert_eq!(second.num_total_fields, 0);
    assert_eq!(vm.get_class_by_id(first.id).unwrap().num_total_fields, 1);
}

#[test]
fn fields_follow_those_of_the_superclass() {
    let mut vm = Vm::new();
    vm.load_class(class_file("A", None, &[], &["x", "y"], &[])).unwrap();
    vm.load_class(class_file("B", Some("A"), &[], &["x", "z"], &[])).unwrap();
    let b = vm.get_class("B").unwrap();
    let position = |class: &str, field: &str| {
        b.find_field(&class.to_string(), &field.to_string()).map(|found| found.0)
    };
    assert_eq!(position("A", "x"), Some(0));
    assert_eq!(position("A", "y"), Some(1));
    assert_eq!(position("B", "x"), Some(2));
    assert_eq!(position("B", "z"), Some(3));
    assert_eq!(position("B", "y"), None);
    assert_eq!(position("C", "x"), None);
    assert_eq!(b.num_total_fields, 4);
    let object = vm.new_object("B").unwrap();
    assert_eq!(vm.object_allocator.objects[object.index].fields, vec![Value::Uninitialized; 4]);
    assert_eq!(vm.new_object("C"), Err(not_found("C")));
}

#[test]
fn methods_are_found_in_the_class_itself() {
    let mut vm = Vm::new();
    vm.load_class(class_file("A", None, &[], &[], &["f", "g"])).unwrap();
    vm.load_class(class_file("B", Some("A"), &[], &[], &["h"])).unwrap();
    let found = vm.find_class_method("A", "g", "()V").unwrap();
    assert_eq!(found.method.name, "g");
    assert_eq!(found.class.name, "A");
    assert!(vm.find_class_method("A", "g", "()I").is_none());
    assert!(vm.find_class_method("B", "g", "()V").is_none());
    assert!(vm.find_class_method("C", "g", "()V").is_none());
}

#[test]
fn subclasses_and_interfaces() {
    let mut vm = Vm::new();
    vm.load_class(class_file("I", None, &[], &[], &[])).unwrap();
    vm.load_class(class_file("J", None, &["I"], &[], &[])).unwrap();
    vm.load_class(class_file("A", None, &["J"], &[], &[])).unwrap();
    vm.load_class(class_file("B", Some("A"), &[], &[], &[])).unwrap();
    vm.load_class(class_file("C", Some("B"), &[], &[], &[])).unwrap();
    let c = vm.get_class("C").unwrap();
    for above in ["C", "B", "A", "J", "I"] {
        assert!(c.is_subclass_of(&above.to_string()));
    }
    let a = vm.get_class("A").unwrap();
    assert!(!a.is_subclass_of(&"B".to_string()));
    assert!(!c.is_subclass_of(&"D".to_string()));
}

#[test]
fn values_match_types() {
    let mut vm = Vm::new();
    vm.load_class(class_file("A", None, &[], &[], &[])).unwrap();
    vm.load_class(class_file("B", Some("A"), &[], &[], &[])).unwrap();
    let a = Value::Object(vm.new_object("A").unwrap());
    let b = Value::Object(vm.new_object("B").unwrap());
    let array = Value::Array(vm.object_allocator.allocate_array(
        FieldType::Base(BaseType::Char),
        Value::Int(0),
        2,
    ));
    let fits = |value: Value, expected: FieldType| {
        value.matches_type(&expected, &vm.class_loader, &vm.object_allocator)
    };
    let bases = [
        BaseType::Byte,
        BaseType::Char,
        BaseType::Double,
        BaseType::Float,
        BaseType::Int,
        BaseType::Long,
        BaseType::Short,
        BaseType::Boolean,
    ];
    let matching = |value: Value| -> Vec<BaseType> {
        bases.iter().copied().filter(|base| fits(value, FieldType::Base(*base))).collect()
    };
    assert_eq!(
        matching(Value::Int(1)),
        vec![BaseType::Byte, BaseType::Char, BaseType::Int, BaseType::Short, BaseType::Boolean]
    );
    assert_eq!(matching(Value::Long(1)), vec![BaseType::Long]);
    assert_eq!(matching(Value::Float(1)), vec![BaseType::Float]);
    assert_eq!(matching(Value::Double(1)), vec![BaseType::Double]);
    for value in [Value::Uninitialized, Value::Null, a, array] {
        assert_eq!(matching(value), vec![]);
    }
    let object = |name: &str| FieldType::Object(name.to_string());
    assert!(fits(a, object("A")));
    assert!(fits(b, object("A")));
    assert!(!fits(a, object("B")));
    assert!(!fits(a, object("X")));
    assert!(fits(Value::Null, object("X")));
    assert!(!fits(Value::Uninitialized, object("A")));
    let array_of = |base: BaseType| FieldType::Array(Box::new(FieldType::Base(base)));
    assert!(fits(array, array_of(BaseType::Char)));
    assert!(!fits(array, array_of(BaseType::Int)));
    assert!(!fits(array, object("A")));
    assert!(fits(Value::Null, array_of(BaseType::Int)));
    assert!(!fits(Value::Int(1), array_of(BaseType::Int)));
}
