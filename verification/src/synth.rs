//! The four synthesizers and the assembled pipeline: from a schema, derive
//! the builder's storage slots, their initial values, the setter operations
//! and the finalizer's per-field steps. Generation aborts on the first field
//! whose directive or type shape is bad; no partial output is produced.
//!
//! Each descriptor names its field by position in the schema, so the element
//! and declared types it speaks of are the field's own.

use vstd::prelude::*;
use crate::schema::{FieldDesc, RecordSchema};
use crate::shape::{classify, spec_classify, ErrorKind, Shape, ShapeModel};

verus! {

/// A generation failure: which field, and why. The field index locates the
/// diagnostic; the whole record's generation is abandoned.
#[derive(Clone, Copy, PartialEq, Eq, Structural, Debug)]
pub struct GenError {
    pub field: usize,
    pub kind: ErrorKind,
}

/// Shape-dependent storage for one builder slot.
#[derive(Clone, Copy, PartialEq, Eq, Structural, Debug)]
pub enum SlotStorage {
    /// Required: an optional-wrapped slot of the declared type; presence
    /// encodes whether the caller has set the field yet.
    OptionOfDeclared,
    /// Optional: the declared optional type, kept as-is.
    DeclaredOptional,
    /// Repeated: the declared collection type, never optional-wrapped.
    DeclaredCollection,
}

/// How a slot starts in a freshly constructed builder.
#[derive(Clone, Copy, PartialEq, Eq, Structural, Debug)]
pub enum InitValue {
    Absent,
    EmptyCollection,
}

/// The parameter type of a setter, relative to its field.
#[derive(Clone, Copy, PartialEq, Eq, Structural, Debug)]
pub enum SetterParam {
    /// The field's declared type.
    DeclaredTy,
    /// The declared collection's single element type.
    ElementTy,
}

/// What a setter does to its slot.
#[derive(Clone, Copy, PartialEq, Eq, Structural, Debug)]
pub enum SetterAction {
    /// Required: store the value wrapped present.
    StoreWrapped,
    /// Optional: store the declared optional value as-is.
    StoreAsIs,
    /// Repeated, per-element: append to the collection.
    PushElement,
    /// Repeated, bulk: replace the whole collection.
    ReplaceWhole,
}

/// One storage slot of the builder type.
#[derive(Clone, Copy, PartialEq, Eq, Structural, Debug)]
pub struct SlotDesc {
    pub field: usize,
    pub storage: SlotStorage,
}

/// One mutator operation of the builder type.
#[derive(PartialEq, Eq, Debug)]
pub struct SetterDesc {
    pub field: usize,
    pub fn_name: String,
    pub param: SetterParam,
    pub action: SetterAction,
}

/// The mathematical value of a `SetterDesc`.
pub struct SetterModel {
    pub field: int,
    pub fn_name: Seq<char>,
    pub param: SetterParam,
    pub action: SetterAction,
}

impl View for SetterDesc {
    type V = SetterModel;

    open spec fn view(&self) -> SetterModel {
        SetterModel {
            field: self.field as int,
            fn_name: self.fn_name@,
            param: self.param,
            action: self.action,
        }
    }
}

/// How the finalizer reads one slot, in declaration order.
#[derive(Clone, Copy, PartialEq, Eq, Structural, Debug)]
pub enum BuildMode {
    /// Repeated: the contents are copied out; the slot stays intact.
    CopyCollection,
    /// Optional: the value is moved out; the slot becomes absent.
    TakeOptional,
    /// Required: the value is moved out; if absent, the whole build fails
    /// naming this field.
    TakeRequired,
}

/// One step of the finalizer.
#[derive(Clone, Copy, PartialEq, Eq, Structural, Debug)]
pub struct BuildStep {
    pub field: usize,
    pub mode: BuildMode,
}

/// Everything derived for one record: the builder type's name, its slots,
/// their initial values, its mutators, and the finalizer's steps.
#[derive(Debug)]
pub struct BuilderSpec {
    pub builder_name: String,
    pub slots: Vec<SlotDesc>,
    pub inits: Vec<InitValue>,
    pub setters: Vec<SetterDesc>,
    pub steps: Vec<BuildStep>,
}

/// Every field of the schema classifies without error.
pub open spec fn spec_all_ok(fields: Seq<FieldDesc>) -> bool {
    forall|i: int| 0 <= i < fields.len() ==> (#[trigger] spec_classify(fields[i])) is Ok
}

/// The first field, in declaration order, whose classification fails.
pub open spec fn spec_first_bad(fields: Seq<FieldDesc>) -> int
    decreases fields.len(),
{
    if fields.len() == 0 {
        0
    } else if spec_classify(fields[0]) is Err {
        0
    } else {
        1 + spec_first_bad(fields.drop_first())
    }
}

/// A field's shape, where classification succeeds.
pub open spec fn spec_shape_of(f: FieldDesc) -> ShapeModel {
    match spec_classify(f) {
        Ok(s) => s,
        Err(_) => ShapeModel::Required,
    }
}

/// The storage a shape calls for.
pub open spec fn spec_slot_storage(sh: ShapeModel) -> SlotStorage {
    match sh {
        ShapeModel::Required => SlotStorage::OptionOfDeclared,
        ShapeModel::Optional => SlotStorage::DeclaredOptional,
        ShapeModel::Repeated(_) => SlotStorage::DeclaredCollection,
    }
}

/// The initial value a shape calls for: collections start empty, everything
/// else starts absent.
pub open spec fn spec_init_value(sh: ShapeModel) -> InitValue {
    match sh {
        ShapeModel::Repeated(_) => InitValue::EmptyCollection,
        _ => InitValue::Absent,
    }
}

/// How the finalizer reads a slot of the given shape.
pub open spec fn spec_build_mode(sh: ShapeModel) -> BuildMode {
    match sh {
        ShapeModel::Required => BuildMode::TakeRequired,
        ShapeModel::Optional => BuildMode::TakeOptional,
        ShapeModel::Repeated(_) => BuildMode::CopyCollection,
    }
}

/// The one or two mutators a field gets. Required and Optional fields get a
/// single overwriting setter `set_<name>`. A Repeated field gets the
/// per-element setter under its directive name, and, when that name differs
/// from the field's own, also a bulk setter under the field's name replacing
/// the whole collection.
pub open spec fn spec_setters_of(i: int, f: FieldDesc) -> Seq<SetterModel> {
    match spec_shape_of(f) {
        ShapeModel::Required => seq![
            SetterModel {
                field: i,
                fn_name: "set_"@ + f.name@,
                param: SetterParam::DeclaredTy,
                action: SetterAction::StoreWrapped,
            },
        ],
        ShapeModel::Optional => seq![
            SetterModel {
                field: i,
                fn_name: "set_"@ + f.name@,
                param: SetterParam::DeclaredTy,
                action: SetterAction::StoreAsIs,
            },
        ],
        ShapeModel::Repeated(push_name) => if push_name == f.name@ {
            seq![
                SetterModel {
                    field: i,
                    fn_name: push_name,
                    param: SetterParam::ElementTy,
                    action: SetterAction::PushElement,
                },
            ]
        } else {
            seq![
                SetterModel {
                    field: i,
                    fn_name: push_name,
                    param: SetterParam::ElementTy,
                    action: SetterAction::PushElement,
                },
                SetterModel {
                    field: i,
                    fn_name: f.name@,
                    param: SetterParam::DeclaredTy,
                    action: SetterAction::ReplaceWhole,
                },
            ]
        },
    }
}

/// The slot descriptors of a schema whose fields all classify.
pub open spec fn spec_slots(fields: Seq<FieldDesc>) -> Seq<SlotDesc> {
    Seq::new(
        fields.len(),
        |i: int|
            SlotDesc {
                field: i as usize,
                storage: spec_slot_storage(spec_shape_of(fields[i])),
            },
    )
}

/// The initial values of a schema whose fields all classify.
pub open spec fn spec_inits(fields: Seq<FieldDesc>) -> Seq<InitValue> {
    Seq::new(fields.len(), |i: int| spec_init_value(spec_shape_of(fields[i])))
}

/// The finalizer steps of a schema whose fields all classify.
pub open spec fn spec_build_steps(fields: Seq<FieldDesc>) -> Seq<BuildStep> {
    Seq::new(
        fields.len(),
        |i: int| BuildStep { field: i as usize, mode: spec_build_mode(spec_shape_of(fields[i])) },
    )
}

/// The mutators of a schema whose fields all classify: the fields' setter
/// groups, concatenated in declaration order.
pub open spec fn spec_setters(fields: Seq<FieldDesc>) -> Seq<SetterModel>
    decreases fields.len(),
{
    if fields.len() == 0 {
        Seq::empty()
    } else {
        spec_setters(fields.drop_last()) + spec_setters_of(fields.len() - 1, fields.last())
    }
}

/// The mathematical value of a setter list.
pub open spec fn setters_view(v: Seq<SetterDesc>) -> Seq<SetterModel> {
    v.map_values(|s: SetterDesc| s@)
}

/// A generation failure is located at the first bad field.
pub open spec fn spec_located_err(fields: Seq<FieldDesc>, e: GenError) -> bool {
    &&& e.field < fields.len()
    &&& e.field == spec_first_bad(fields)
    &&& spec_classify(fields[e.field as int]) == Err::<ShapeModel, ErrorKind>(e.kind)
}

proof fn lemma_first_bad(fields: Seq<FieldDesc>, i: int)
    requires
        0 <= i < fields.len(),
        forall|j: int| 0 <= j < i ==> (#[trigger] spec_classify(fields[j])) is Ok,
        spec_classify(fields[i]) is Err,
    ensures
        spec_first_bad(fields) == i,
    decreases i,
{
    if i > 0 {
        assert forall|j: int| 0 <= j < i - 1 implies (#[trigger] spec_classify(
            fields.drop_first()[j],
        )) is Ok by {
            assert(fields.drop_first()[j] == fields[j + 1]);
        }
        assert(fields.drop_first()[i - 1] == fields[i]);
        lemma_first_bad(fields.drop_first(), i - 1);
    }
}

/// Derives the builder type's storage: one slot per field, in declaration
/// order, or the first field's error.
pub fn synth_slots(fields: &Vec<FieldDesc>) -> (r: Result<Vec<SlotDesc>, GenError>)
    ensures
        match r {
            Ok(v) => spec_all_ok(fields@) && v@ == spec_slots(fields@),
            Err(e) => !spec_all_ok(fields@) && spec_located_err(fields@, e),
        },
{
    let n = fields.len();
    let mut out: Vec<SlotDesc> = Vec::new();
    let mut i: usize = 0;
    while i < n
        invariant
            n == fields@.len(),
            i <= n,
            out@ =~= spec_slots(fields@).subrange(0, i as int),
            forall|j: int| 0 <= j < i ==> (#[trigger] spec_classify(fields@[j])) is Ok,
        decreases n - i,
    {
        match classify(&fields[i]) {
            Ok(sh) => {
                out.push(SlotDesc { field: i, storage: slot_storage(&sh) });
            },
            Err(kind) => {
                proof {
                    lemma_first_bad(fields@, i as int);
                }
                return Err(GenError { field: i, kind });
            },
        }
        i = i + 1;
    }
    proof {
        assert(out@ =~= spec_slots(fields@));
    }
    Ok(out)
}

/// Derives the initializer: every collection slot starts empty, every other
/// slot starts absent.
pub fn synth_inits(fields: &Vec<FieldDesc>) -> (r: Result<Vec<InitValue>, GenError>)
    ensures
        match r {
            Ok(v) => spec_all_ok(fields@) && v@ == spec_inits(fields@),
            Err(e) => !spec_all_ok(fields@) && spec_located_err(fields@, e),
        },
{
    let n = fields.len();
    let mut out: Vec<InitValue> = Vec::new();
    let mut i: usize = 0;
    while i < n
        invariant
            n == fields@.len(),
            i <= n,
            out@ =~= spec_inits(fields@).subrange(0, i as int),
            forall|j: int| 0 <= j < i ==> (#[trigger] spec_classify(fields@[j])) is Ok,
        decreases n - i,
    {
        match classify(&fields[i]) {
            Ok(sh) => {
                let v = match sh {
                    Shape::Repeated { push_name: _ } => InitValue::EmptyCollection,
                    _ => InitValue::Absent,
                };
                out.push(v);
            },
            Err(kind) => {
                proof {
                    lemma_first_bad(fields@, i as int);
                }
                return Err(GenError { field: i, kind });
            },
        }
        i = i + 1;
    }
    proof {
        assert(out@ =~= spec_inits(fields@));
    }
    Ok(out)
}

/// Derives the finalizer's steps: how each slot is read, in declaration
/// order.
pub fn synth_build_steps(fields: &Vec<FieldDesc>) -> (r: Result<Vec<BuildStep>, GenError>)
    ensures
        match r {
            Ok(v) => spec_all_ok(fields@) && v@ == spec_build_steps(fields@),
            Err(e) => !spec_all_ok(fields@) && spec_located_err(fields@, e),
        },
{
    let n = fields.len();
    let mut out: Vec<BuildStep> = Vec::new();
    let mut i: usize = 0;
    while i < n
        invariant
            n == fields@.len(),
            i <= n,
            out@ =~= spec_build_steps(fields@).subrange(0, i as int),
            forall|j: int| 0 <= j < i ==> (#[trigger] spec_classify(fields@[j])) is Ok,
        decreases n - i,
    {
        match classify(&fields[i]) {
            Ok(sh) => {
                let m = match sh {
                    Shape::Required => BuildMode::TakeRequired,
                    Shape::Optional => BuildMode::TakeOptional,
                    Shape::Repeated { push_name: _ } => BuildMode::CopyCollection,
                };
                out.push(BuildStep { field: i, mode: m });
            },
            Err(kind) => {
                proof {
                    lemma_first_bad(fields@, i as int);
                }
                return Err(GenError { field: i, kind });
            },
        }
        i = i + 1;
    }
    proof {
        assert(out@ =~= spec_build_steps(fields@));
    }
    Ok(out)
}

/// Derives the mutators: each field's setter group, concatenated in
/// declaration order.
pub fn synth_setters(fields: &Vec<FieldDesc>) -> (r: Result<Vec<SetterDesc>, GenError>)
    ensures
        match r {
            Ok(v) => spec_all_ok(fields@) && setters_view(v@) == spec_setters(fields@),
            Err(e) => !spec_all_ok(fields@) && spec_located_err(fields@, e),
        },
{
    let n = fields.len();
    let mut out: Vec<SetterDesc> = Vec::new();
    let mut i: usize = 0;
    while i < n
        invariant
            n == fields@.len(),
            i <= n,
            setters_view(out@) == spec_setters(fields@.take(i as int)),
            forall|j: int| 0 <= j < i ==> (#[trigger] spec_classify(fields@[j])) is Ok,
        decreases n - i,
    {
        let ghost prefix = setters_view(out@);
        match classify(&fields[i]) {
            Ok(sh) => {
                match sh {
                    Shape::Required => {
                        let mut fn_name: String = "set_".to_owned();
                        fn_name.append(fields[i].name.as_str());
                        out.push(
                            SetterDesc {
                                field: i,
                                fn_name,
                                param: SetterParam::DeclaredTy,
                                action: SetterAction::StoreWrapped,
                            },
                        );
                    },
                    Shape::Optional => {
                        let mut fn_name: String = "set_".to_owned();
                        fn_name.append(fields[i].name.as_str());
                        out.push(
                            SetterDesc {
                                field: i,
                                fn_name,
                                param: SetterParam::DeclaredTy,
                                action: SetterAction::StoreAsIs,
                            },
                        );
                    },
                    Shape::Repeated { push_name } => {
                        let bulk = push_name != fields[i].name;
                        out.push(
                            SetterDesc {
                                field: i,
                                fn_name: push_name,
                                param: SetterParam::ElementTy,
                                action: SetterAction::PushElement,
                            },
                        );
                        if bulk {
                            out.push(
                                SetterDesc {
                                    field: i,
                                    fn_name: fields[i].name.clone(),
                                    param: SetterParam::DeclaredTy,
                                    action: SetterAction::ReplaceWhole,
                                },
                            );
                        }
                    },
                }
                proof {
                    assert(fields@.take(i + 1).drop_last() =~= fields@.take(i as int));
                    assert(fields@.take(i + 1).last() == fields@[i as int]);
                    assert(setters_view(out@) =~= prefix + spec_setters_of(
                        i as int,
                        fields@[i as int],
                    ));
                }
            },
            Err(kind) => {
                proof {
                    lemma_first_bad(fields@, i as int);
                }
                return Err(GenError { field: i, kind });
            },
        }
        i = i + 1;
    }
    proof {
        assert(fields@.take(n as int) =~= fields@);
    }
    Ok(out)
}

/// The whole pipeline for one record: classify every field and assemble the
/// builder's name, slots, initial values, mutators and finalizer steps.
/// Aborts on the first bad field with a located diagnostic and no output.
pub fn derive_builder(schema: &RecordSchema) -> (r: Result<BuilderSpec, GenError>)
    ensures
        match r {
            Ok(bs) => {
                &&& spec_all_ok(schema.fields@)
                &&& bs.builder_name@ == schema.name@ + "Builder"@
                &&& bs.slots@ == spec_slots(schema.fields@)
                &&& bs.inits@ == spec_inits(schema.fields@)
                &&& setters_view(bs.setters@) == spec_setters(schema.fields@)
                &&& bs.steps@ == spec_build_steps(schema.fields@)
            },
            Err(e) => !spec_all_ok(schema.fields@) && spec_located_err(schema.fields@, e),
        },
{
    let slots = match synth_slots(&schema.fields) {
        Ok(v) => v,
        Err(e) => {
            return Err(e);
        },
    };
    let inits = match synth_inits(&schema.fields) {
        Ok(v) => v,
        Err(e) => {
            return Err(e);
        },
    };
    let setters = match synth_setters(&schema.fields) {
        Ok(v) => v,
        Err(e) => {
            return Err(e);
        },
    };
    let steps = match synth_build_steps(&schema.fields) {
        Ok(v) => v,
        Err(e) => {
            return Err(e);
        },
    };
    let builder_name = schema.name.clone().concat("Builder");
    Ok(BuilderSpec { builder_name, slots, inits, setters, steps })
}

/// The storage slot a classified shape calls for.
fn slot_storage(sh: &Shape) -> (r: SlotStorage)
    ensures
        r == spec_slot_storage(sh@),
{
    match sh {
        Shape::Required => SlotStorage::OptionOfDeclared,
        Shape::Optional => SlotStorage::DeclaredOptional,
        Shape::Repeated { push_name: _ } => SlotStorage::DeclaredCollection,
    }
}

} // verus!
