use rjvm::field_type::{BaseType, FieldType};
use rjvm::float::{
    is_double_division_returning_nan, is_single_division_returning_nan, DOUBLE_ONE, DOUBLE_ZERO,
    SINGLE_ONE, SINGLE_TWO, SINGLE_ZERO,
};
use rjvm::heap::ObjectAllocator;
use rjvm::numeric::{compare, int_math, long_math, Comparison, IntegerOp};
use rjvm::text::starts_with;
use rjvm::value::Value;
use rjvm::vm_error::{Stop, VmError};

#[test]
fn quotient_and_remainder_make_up_the_dividend() {
    for a in [i32::MIN, -7, -1, 0, 1, 7, i32::MAX] {
        for b in [i32::MIN, -3, 2, 5, i32::MAX] {
            let q = int_math(IntegerOp::Div, a, b).unwrap();
            let r = int_math(IntegerOp::Rem, a, b).unwrap();
            assert_eq!(i64::from(q) * i64::from(b) + i64::from(r), i64::from(a));
            assert!(r == 0 || (r < 0) == (a < 0));
            let q = long_math(IntegerOp::Div, i64::from(a), i64::from(b)).unwrap();
            assert_eq!(q, i64::from(a) / i64::from(b));
        }
    }
    assert_eq!(
        long_math(IntegerOp::Rem, 5, 0),
        Err(Stop::Error(VmError::ArithmeticException))
    );
    assert_eq!(int_math(IntegerOp::Div, i32::MIN, -1), Err(Stop::Fault));
    assert_eq!(long_math(IntegerOp::Div, i64::MIN, -1), Err(Stop::Fault));
}

#[test]
fn comparisons() {
    assert!(compare(Comparison::Less, -1, 0));
    assert!(!compare(Comparison::Less, 0, 0));
    assert!(compare(Comparison::LessOrEqual, 0, 0));
    assert!(compare(Comparison::Greater, 1, 0));
    assert!(compare(Comparison::GreaterOrEqual, 0, 0));
    assert!(compare(Comparison::Equal, 3, 3));
    assert!(compare(Comparison::NotEqual, 3, 4));
}

#[test]
fn float_constants() {
    assert_eq!(SINGLE_ZERO, 0f32.to_bits());
    assert_eq!(SINGLE_ONE, 1f32.to_bits());
    assert_eq!(SINGLE_TWO, 2f32.to_bits());
    assert_eq!(DOUBLE_ZERO, 0f64.to_bits());
    assert_eq!(DOUBLE_ONE, 1f64.to_bits());
}

#[test]
fn divisions_that_give_no_number() {
    let numbers = [
        0.0,
        -0.0,
        1.0,
        -2.5,
        f64::MIN_POSITIVE,
        f64::MAX,
        f64::INFINITY,
        f64::NEG_INFINITY,
        f64::NAN,
        -f64::NAN,
    ];
    for a in numbers {
        for b in numbers {
            assert_eq!(
                is_double_division_returning_nan(a.to_bits(), b.to_bits()),
                (a / b).is_nan()
            );
        }
    }
    let numbers =
        [0.0, -0.0, 1.0, f32::MIN_POSITIVE / 2.0, f32::MAX, f32::INFINITY, f32::NAN, -f32::NAN];
    for a in numbers {
        for b in numbers {
            assert_eq!(
                is_single_division_returning_nan(a.to_bits(), b.to_bits()),
                (a / b).is_nan()
            );
        }
    }
}

#[test]
fn prefixes() {
    assert!(starts_with(&"rjvm/Main".to_string(), "rjvm/"));
    assert!(starts_with(&"rjvm/".to_string(), "rjvm/"));
    assert!(starts_with(&"x".to_string(), ""));
    assert!(!starts_with(&"rjvm".to_string(), "rjvm/"));
    assert!(!starts_with(&"my/rjvm/".to_string(), "rjvm/"));
}

#[test]
fn types_are_compared_by_structure() {
    let array = |name: &str| FieldType::Array(Box::new(FieldType::Object(name.to_string())));
    assert!(array("A").same_type(&array("A")));
    assert!(!array("A").same_type(&array("B")));
    assert!(!array("A").same_type(&FieldType::Object("A".to_string())));
    assert!(FieldType::Base(BaseType::Int).same_type(&FieldType::Base(BaseType::Int)));
    assert!(!FieldType::Base(BaseType::Int).same_type(&FieldType::Base(BaseType::Long)));
}

#[test]
fn arrays_are_apart() {
    let mut heap = ObjectAllocator::new();
    let first = heap.allocate_array(FieldType::Base(BaseType::Int), Value::Int(0), 2);
    let second = heap.allocate_array(FieldType::Base(BaseType::Int), Value::Int(0), 2);
    assert_ne!(first, second);
    heap.set_element(first, 1, Value::Int(9));
    assert_eq!(heap.get_array(first).elements, vec![Value::Int(0), Value::Int(9)]);
    assert_eq!(heap.get_array(second).elements, vec![Value::Int(0), Value::Int(0)]);
    assert!(heap.has_array(second));
    assert!(!ObjectAllocator::new().has_array(first));
}
