//! Generation-side behaviour: directive parsing, shape classification, and
//! the derived builder pieces.

use builder_gen::schema::{
    DirectiveList, FieldDesc, MetaEntry, MetaValue, RecordSchema, TypeExpr,
};
use builder_gen::shape::ErrorKind;
use builder_gen::synth::{
    derive_builder, BuildMode, InitValue, SetterAction, SetterParam, SlotStorage,
};

fn ty(name: &str) -> TypeExpr {
    TypeExpr::Apply { ctor: name.to_string(), args: vec![] }
}

fn ty1(name: &str, inner: TypeExpr) -> TypeExpr {
    TypeExpr::Apply { ctor: name.to_string(), args: vec![inner] }
}

fn plain_field(name: &str, field_ty: TypeExpr) -> FieldDesc {
    FieldDesc { name: name.to_string(), ty: field_ty, directives: vec![] }
}

fn each_directive(each: &str) -> DirectiveList {
    DirectiveList {
        keyword: "builder".to_string(),
        entries: vec![MetaEntry::KeyValue {
            key: "each".to_string(),
            value: MetaValue::StrValue(each.to_string()),
        }],
    }
}

fn each_field(name: &str, field_ty: TypeExpr, each: &str) -> FieldDesc {
    FieldDesc {
        name: name.to_string(),
        ty: field_ty,
        directives: vec![each_directive(each)],
    }
}

fn schema(name: &str, fields: Vec<FieldDesc>) -> RecordSchema {
    RecordSchema { name: name.to_string(), fields }
}

#[test]
fn all_required_schema() {
    let s = schema(
        "Command",
        vec![plain_field("executable", ty("String")), plain_field("timeout", ty("u32"))],
    );
    let bs = derive_builder(&s).unwrap();
    assert_eq!(bs.builder_name, "CommandBuilder");
    assert_eq!(bs.slots.len(), 2);
    assert_eq!(bs.slots[0].field, 0);
    assert_eq!(bs.slots[0].storage, SlotStorage::OptionOfDeclared);
    assert_eq!(bs.slots[1].storage, SlotStorage::OptionOfDeclared);
    assert_eq!(bs.inits, vec![InitValue::Absent, InitValue::Absent]);
    assert_eq!(bs.setters.len(), 2);
    assert_eq!(bs.setters[0].fn_name, "set_executable");
    assert_eq!(bs.setters[0].param, SetterParam::DeclaredTy);
    assert_eq!(bs.setters[0].action, SetterAction::StoreWrapped);
    assert_eq!(bs.setters[1].fn_name, "set_timeout");
    assert_eq!(bs.steps[0].mode, BuildMode::TakeRequired);
    assert_eq!(bs.steps[1].mode, BuildMode::TakeRequired);
}

#[test]
fn optional_field_keeps_declared_type() {
    let s = schema("Command", vec![plain_field("current_dir", ty1("Option", ty("String")))]);
    let bs = derive_builder(&s).unwrap();
    assert_eq!(bs.slots[0].storage, SlotStorage::DeclaredOptional);
    assert_eq!(bs.inits, vec![InitValue::Absent]);
    assert_eq!(bs.setters.len(), 1);
    assert_eq!(bs.setters[0].fn_name, "set_current_dir");
    assert_eq!(bs.setters[0].param, SetterParam::DeclaredTy);
    assert_eq!(bs.setters[0].action, SetterAction::StoreAsIs);
    assert_eq!(bs.steps[0].mode, BuildMode::TakeOptional);
}

#[test]
fn repeated_with_distinct_name_gets_both_setters() {
    let s = schema("Command", vec![each_field("items", ty1("Vec", ty("String")), "item")]);
    let bs = derive_builder(&s).unwrap();
    assert_eq!(bs.slots[0].storage, SlotStorage::DeclaredCollection);
    assert_eq!(bs.inits, vec![InitValue::EmptyCollection]);
    assert_eq!(bs.setters.len(), 2);
    assert_eq!(bs.setters[0].fn_name, "item");
    assert_eq!(bs.setters[0].param, SetterParam::ElementTy);
    assert_eq!(bs.setters[0].action, SetterAction::PushElement);
    assert_eq!(bs.setters[1].fn_name, "items");
    assert_eq!(bs.setters[1].param, SetterParam::DeclaredTy);
    assert_eq!(bs.setters[1].action, SetterAction::ReplaceWhole);
    assert_eq!(bs.steps[0].mode, BuildMode::CopyCollection);
}

#[test]
fn repeated_with_same_name_gets_one_setter() {
    let s = schema("Command", vec![each_field("args", ty1("Vec", ty("String")), "args")]);
    let bs = derive_builder(&s).unwrap();
    assert_eq!(bs.setters.len(), 1);
    assert_eq!(bs.setters[0].fn_name, "args");
    assert_eq!(bs.setters[0].action, SetterAction::PushElement);
}

#[test]
fn wrong_directive_key_fails_generation() {
    let f = FieldDesc {
        name: "items".to_string(),
        ty: ty1("Vec", ty("String")),
        directives: vec![DirectiveList {
            keyword: "builder".to_string(),
            entries: vec![MetaEntry::KeyValue {
                key: "foo".to_string(),
                value: MetaValue::StrValue("bar".to_string()),
            }],
        }],
    };
    let s = schema("Command", vec![plain_field("executable", ty("String")), f]);
    let e = derive_builder(&s).unwrap_err();
    assert_eq!(e.field, 1);
    assert_eq!(e.kind, ErrorKind::ExpectedEach);
}

#[test]
fn non_string_directive_value_fails_generation() {
    let f = FieldDesc {
        name: "items".to_string(),
        ty: ty1("Vec", ty("String")),
        directives: vec![DirectiveList {
            keyword: "builder".to_string(),
            entries: vec![MetaEntry::KeyValue {
                key: "each".to_string(),
                value: MetaValue::OtherValue,
            }],
        }],
    };
    let s = schema("Command", vec![f]);
    let e = derive_builder(&s).unwrap_err();
    assert_eq!(e.field, 0);
    assert_eq!(e.kind, ErrorKind::ExpectedEach);
}

#[test]
fn non_pair_directive_entry_fails_generation() {
    let f = FieldDesc {
        name: "items".to_string(),
        ty: ty1("Vec", ty("String")),
        directives: vec![DirectiveList {
            keyword: "builder".to_string(),
            entries: vec![MetaEntry::OtherEntry],
        }],
    };
    let s = schema("Command", vec![f]);
    assert_eq!(derive_builder(&s).unwrap_err().kind, ErrorKind::ExpectedEach);
}

#[test]
fn two_directive_entries_fail_generation() {
    let f = FieldDesc {
        name: "items".to_string(),
        ty: ty1("Vec", ty("String")),
        directives: vec![DirectiveList {
            keyword: "builder".to_string(),
            entries: vec![
                MetaEntry::KeyValue {
                    key: "each".to_string(),
                    value: MetaValue::StrValue("item".to_string()),
                },
                MetaEntry::OtherEntry,
            ],
        }],
    };
    let s = schema("Command", vec![f]);
    assert_eq!(derive_builder(&s).unwrap_err().kind, ErrorKind::ExpectedEach);
}

#[test]
fn directive_on_non_collection_fails_generation() {
    let s = schema("Command", vec![each_field("timeout", ty("u32"), "t")]);
    let e = derive_builder(&s).unwrap_err();
    assert_eq!(e.field, 0);
    assert_eq!(e.kind, ErrorKind::RepeatedOnNonCollection);
}

#[test]
fn directive_on_optional_fails_generation() {
    let s = schema(
        "Command",
        vec![each_field("current_dir", ty1("Option", ty("String")), "dir")],
    );
    assert_eq!(derive_builder(&s).unwrap_err().kind, ErrorKind::RepeatedOnNonCollection);
}

#[test]
fn directive_on_opaque_type_fails_generation() {
    let f = FieldDesc {
        name: "pair".to_string(),
        ty: TypeExpr::Opaque,
        directives: vec![each_directive("p")],
    };
    let s = schema("Command", vec![f]);
    assert_eq!(derive_builder(&s).unwrap_err().kind, ErrorKind::RepeatedOnNonCollection);
}

#[test]
fn unrecognized_keyword_is_ignored() {
    let f = FieldDesc {
        name: "executable".to_string(),
        ty: ty("String"),
        directives: vec![DirectiveList {
            keyword: "serde".to_string(),
            entries: vec![MetaEntry::OtherEntry],
        }],
    };
    let s = schema("Command", vec![f]);
    let bs = derive_builder(&s).unwrap();
    assert_eq!(bs.slots[0].storage, SlotStorage::OptionOfDeclared);
    assert_eq!(bs.setters[0].fn_name, "set_executable");
}

#[test]
fn only_first_recognized_list_is_consulted() {
    let f = FieldDesc {
        name: "items".to_string(),
        ty: ty1("Vec", ty("String")),
        directives: vec![
            DirectiveList { keyword: "builder".to_string(), entries: vec![MetaEntry::OtherEntry] },
            each_directive("item"),
        ],
    };
    let s = schema("Command", vec![f]);
    assert_eq!(derive_builder(&s).unwrap_err().kind, ErrorKind::ExpectedEach);
}

#[test]
fn option_with_two_arguments_is_required() {
    let two = TypeExpr::Apply {
        ctor: "Option".to_string(),
        args: vec![ty("u32"), ty("u32")],
    };
    let s = schema("Command", vec![plain_field("odd", two)]);
    let bs = derive_builder(&s).unwrap();
    assert_eq!(bs.slots[0].storage, SlotStorage::OptionOfDeclared);
    assert_eq!(bs.steps[0].mode, BuildMode::TakeRequired);
}

#[test]
fn collection_without_directive_is_required() {
    let s = schema("Command", vec![plain_field("env", ty1("Vec", ty("String")))]);
    let bs = derive_builder(&s).unwrap();
    assert_eq!(bs.slots[0].storage, SlotStorage::OptionOfDeclared);
    assert_eq!(bs.setters[0].fn_name, "set_env");
    assert_eq!(bs.steps[0].mode, BuildMode::TakeRequired);
}
