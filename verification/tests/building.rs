//! Runtime behaviour of builders: presence validation, optional and
//! repeated fields, chaining, and reuse after `build`.

use builder_gen::builder::{BuilderState, FieldValue, Slot};
use builder_gen::field::Field;
use builder_gen::shape::Shape;

fn repeated(name: &str) -> Shape {
    Shape::Repeated { push_name: name.to_string() }
}

#[test]
fn build_before_any_setter_names_first_field() {
    let shapes = vec![Shape::Required, Shape::Required];
    let mut b = BuilderState::init(&shapes);
    let e = b.build().unwrap_err();
    assert_eq!(e.field, 0);
}

#[test]
fn build_after_every_setter_returns_what_was_set() {
    let shapes = vec![Shape::Required, Shape::Required];
    let mut b = BuilderState::init(&shapes).set_value(0, 7).set_value(1, 40);
    let out = b.build().unwrap();
    assert_eq!(out, vec![FieldValue::One(7), FieldValue::One(40)]);
}

#[test]
fn later_field_set_does_not_mask_earlier_missing() {
    let shapes = vec![Shape::Required, Shape::Required];
    let mut b = BuilderState::init(&shapes).set_value(1, 40);
    let e = b.build().unwrap_err();
    assert_eq!(e.field, 0);
}

#[test]
fn optional_field_uncalled_is_absent() {
    let shapes = vec![Shape::Optional];
    let mut b = BuilderState::init(&shapes);
    let out = b.build().unwrap();
    assert_eq!(out, vec![FieldValue::Maybe(None)]);
}

#[test]
fn optional_field_called_holds_value() {
    let shapes = vec![Shape::Optional];
    let mut b = BuilderState::init(&shapes).set_value(0, 9);
    let out = b.build().unwrap();
    assert_eq!(out, vec![FieldValue::Maybe(Some(9))]);
}

#[test]
fn pushing_elements_one_by_one() {
    let shapes = vec![repeated("item")];
    let mut b = BuilderState::init(&shapes).push_value(0, 1).push_value(0, 2);
    let out = b.build().unwrap();
    assert_eq!(out, vec![FieldValue::Many(vec![1, 2])]);
}

#[test]
fn bulk_replacement_equals_pushing() {
    let shapes = vec![repeated("item")];
    let mut pushed = BuilderState::init(&shapes).push_value(0, 1).push_value(0, 2);
    let mut replaced = BuilderState::init(&shapes).replace_values(0, vec![1, 2]);
    assert_eq!(pushed.slots, replaced.slots);
    assert_eq!(pushed.build().unwrap(), replaced.build().unwrap());
}

#[test]
fn chaining_equals_separate_statements() {
    let shapes = vec![Shape::Required, Shape::Required];
    let chained = BuilderState::init(&shapes).set_value(0, 3).set_value(1, 4);
    let separate = BuilderState::init(&shapes);
    let separate = separate.set_value(0, 3);
    let separate = separate.set_value(1, 4);
    assert_eq!(chained.slots, separate.slots);
}

#[test]
fn setter_order_does_not_matter() {
    let shapes = vec![Shape::Required, Shape::Optional];
    let ab = BuilderState::init(&shapes).set_value(0, 3).set_value(1, 4);
    let ba = BuilderState::init(&shapes).set_value(1, 4).set_value(0, 3);
    assert_eq!(ab.slots, ba.slots);
}

#[test]
fn second_build_observes_moved_out_required_field() {
    let shapes = vec![Shape::Required, repeated("item")];
    let mut b = BuilderState::init(&shapes).set_value(0, 5).push_value(1, 8);
    let out = b.build().unwrap();
    assert_eq!(out, vec![FieldValue::One(5), FieldValue::Many(vec![8])]);
    let e = b.build().unwrap_err();
    assert_eq!(e.field, 0);
    // The repeated slot was copied, not moved: its contents survive both calls.
    assert_eq!(b.slots[1], Slot::Repeated(vec![8]));
}

#[test]
fn second_build_observes_absent_optional_field() {
    let shapes = vec![Shape::Optional];
    let mut b = BuilderState::init(&shapes).set_value(0, 6);
    assert_eq!(b.build().unwrap(), vec![FieldValue::Maybe(Some(6))]);
    assert_eq!(b.build().unwrap(), vec![FieldValue::Maybe(None)]);
}

#[test]
fn repeated_only_builder_builds_repeatedly() {
    let shapes = vec![repeated("item")];
    let mut b = BuilderState::init(&shapes).push_value(0, 1).push_value(0, 2);
    let first = b.build().unwrap();
    let second = b.build().unwrap();
    assert_eq!(first, second);
    assert_eq!(first, vec![FieldValue::Many(vec![1, 2])]);
}

#[test]
fn field_builder_roundtrip() {
    let mut b = Field::builder().set_name("flags").set_bitmask(0b1100);
    let f = b.build().unwrap();
    assert_eq!(f, Field { name: "flags", bitmask: 0b1100 });
}

#[test]
fn field_builder_chaining_equals_separate_statements() {
    let chained = Field::builder().set_name("flags").set_bitmask(3);
    let separate = Field::builder();
    let separate = separate.set_name("flags");
    let mut separate = separate.set_bitmask(3);
    let mut chained = chained;
    assert_eq!(chained.build().unwrap(), separate.build().unwrap());
}

#[test]
fn field_builder_names_first_missing_field() {
    let mut b = Field::builder();
    assert_eq!(b.build().unwrap_err().field, 0);
    let mut b = Field::builder().set_name("flags");
    assert_eq!(b.build().unwrap_err().field, 1);
    let mut b = Field::builder().set_bitmask(1);
    assert_eq!(b.build().unwrap_err().field, 0);
}

#[test]
fn field_builder_second_build_fails() {
    let mut b = Field::builder().set_name("flags").set_bitmask(1);
    assert!(b.build().is_ok());
    let e = b.build().unwrap_err();
    assert_eq!(e.field, 0);
}
