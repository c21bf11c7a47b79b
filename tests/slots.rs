use builder::slots::{MissingField, SlotBuilder};

#[derive(Debug, Clone, PartialEq)]
enum Value {
    A(u32),
    B(String),
    C(bool),
}

fn abc() -> SlotBuilder<Value> {
    SlotBuilder::new(vec!["a".to_string(), "b".to_string(), "c".to_string()])
}

fn direct() -> Vec<Value> {
    vec![Value::A(7), Value::B("x".to_string()), Value::C(false)]
}

#[test]
fn all_fields_set_once_build_the_record() {
    let mut b = abc();
    b.set(0, Value::A(7));
    b.set(1, Value::B("x".to_string()));
    b.set(2, Value::C(false));
    assert_eq!(b.build(), Ok(direct()));
}

#[test]
fn any_order_builds_the_same_record() {
    let mut b = abc();
    b.set(1, Value::B("x".to_string()));
    b.set(2, Value::C(false));
    b.set(0, Value::A(7));
    assert_eq!(b.build(), Ok(direct()));
}

#[test]
fn missing_last_field_is_named() {
    let mut b = abc();
    b.set(0, Value::A(7)).set(1, Value::B("x".to_string()));
    assert_eq!(b.build(), Err(MissingField { field: "c".to_string() }));
}

#[test]
fn first_missing_field_wins() {
    let mut b = abc();
    b.set(2, Value::C(true));
    assert_eq!(b.build(), Err(MissingField { field: "a".to_string() }));
    let mut b = abc();
    b.set(0, Value::A(1));
    assert_eq!(b.build(), Err(MissingField { field: "b".to_string() }));
}

#[test]
fn failed_build_consumes_slots_before_the_missing_one() {
    let mut b = abc();
    b.set(0, Value::A(1)).set(2, Value::C(true));
    assert_eq!(b.build(), Err(MissingField { field: "b".to_string() }));
    b.set(1, Value::B("y".to_string()));
    assert_eq!(b.build(), Err(MissingField { field: "a".to_string() }));
}

#[test]
fn second_value_overwrites_first() {
    let mut b = abc();
    b.set(0, Value::A(1)).set(0, Value::A(2));
    b.set(1, Value::B("x".to_string())).set(2, Value::C(false));
    assert_eq!(b.build(), Ok(vec![Value::A(2), Value::B("x".to_string()), Value::C(false)]));
}

#[test]
fn setters_chain_into_build() {
    let r = abc().set(0, Value::A(7)).set(1, Value::B("x".to_string())).set(2, Value::C(false)).build();
    assert_eq!(r, Ok(direct()));
}

#[test]
fn second_build_reports_first_field() {
    let mut b = abc();
    b.set(0, Value::A(7)).set(1, Value::B("x".to_string())).set(2, Value::C(false));
    assert_eq!(b.build(), Ok(direct()));
    assert_eq!(b.build(), Err(MissingField { field: "a".to_string() }));
}

#[test]
fn reverse_order_matches_declaration_order() {
    let mut fwd = abc();
    fwd.set(0, Value::A(3)).set(1, Value::B("q".to_string())).set(2, Value::C(true));
    let mut rev = abc();
    rev.set(2, Value::C(true)).set(1, Value::B("q".to_string())).set(0, Value::A(3));
    assert_eq!(fwd.build(), rev.build());
}

#[test]
fn fresh_builder_has_no_values() {
    let mut b = abc();
    assert_eq!(b.build(), Err(MissingField { field: "a".to_string() }));
}

#[test]
fn zero_fields_build_immediately_and_again() {
    let mut b: SlotBuilder<Value> = SlotBuilder::new(vec![]);
    assert_eq!(b.build(), Ok(vec![]));
    assert_eq!(b.build(), Ok(vec![]));
}
