//! The runtime behaviour of a generated builder, as one dynamic model: one
//! slot per field in declaration order, field values abstracted to plain
//! integers. Setters mutate a slot and hand the builder back for chaining;
//! `build` validates required-field presence and produces the record's field
//! values, moving Required and Optional contents out and copying Repeated
//! contents.

use vstd::prelude::*;
use crate::shape::{Shape, ShapeModel};

verus! {

/// One builder slot at runtime.
#[derive(PartialEq, Eq, Debug)]
pub enum Slot {
    Required(Option<u64>),
    Optional(Option<u64>),
    Repeated(Vec<u64>),
}

/// The mathematical value of a `Slot`.
pub enum SlotModel {
    Required(Option<u64>),
    Optional(Option<u64>),
    Repeated(Seq<u64>),
}

impl View for Slot {
    type V = SlotModel;

    open spec fn view(&self) -> SlotModel {
        match *self {
            Slot::Required(o) => SlotModel::Required(o),
            Slot::Optional(o) => SlotModel::Optional(o),
            Slot::Repeated(ref vs) => SlotModel::Repeated(vs@),
        }
    }
}

/// One field of a finished record: a required value, an optional value, or
/// a collection of values.
#[derive(PartialEq, Eq, Debug)]
pub enum FieldValue {
    One(u64),
    Maybe(Option<u64>),
    Many(Vec<u64>),
}

/// The mathematical value of a `FieldValue`.
pub enum FieldValueModel {
    One(u64),
    Maybe(Option<u64>),
    Many(Seq<u64>),
}

impl View for FieldValue {
    type V = FieldValueModel;

    open spec fn view(&self) -> FieldValueModel {
        match *self {
            FieldValue::One(v) => FieldValueModel::One(v),
            FieldValue::Maybe(o) => FieldValueModel::Maybe(o),
            FieldValue::Many(ref vs) => FieldValueModel::Many(vs@),
        }
    }
}

/// The one runtime failure: `build` found a Required slot absent. The index
/// names the missing field by its position in declaration order.
#[derive(Clone, Copy, PartialEq, Eq, Structural, Debug)]
pub struct ConstructionError {
    pub field: usize,
}

/// A generated builder: one slot per field, in declaration order.
pub struct BuilderState {
    pub slots: Vec<Slot>,
}

impl View for BuilderState {
    type V = Seq<SlotModel>;

    open spec fn view(&self) -> Seq<SlotModel> {
        self.slots@.map_values(|s: Slot| s@)
    }
}

/// The slot a freshly constructed builder holds for a shape: collections
/// start empty, everything else starts absent.
pub open spec fn spec_init_slot(sh: ShapeModel) -> SlotModel {
    match sh {
        ShapeModel::Required => SlotModel::Required(None),
        ShapeModel::Optional => SlotModel::Optional(None),
        ShapeModel::Repeated(_) => SlotModel::Repeated(Seq::empty()),
    }
}

/// What an overwriting setter leaves in a slot.
pub open spec fn spec_set(s: SlotModel, v: u64) -> SlotModel {
    match s {
        SlotModel::Required(_) => SlotModel::Required(Some(v)),
        SlotModel::Optional(_) => SlotModel::Optional(Some(v)),
        SlotModel::Repeated(vs) => SlotModel::Repeated(vs),
    }
}

/// What the per-element setter leaves in a slot.
pub open spec fn spec_push(s: SlotModel, v: u64) -> SlotModel {
    match s {
        SlotModel::Repeated(vs) => SlotModel::Repeated(vs.push(v)),
        _ => s,
    }
}

/// What the bulk setter leaves in a slot.
pub open spec fn spec_replace(s: SlotModel, vs: Seq<u64>) -> SlotModel {
    match s {
        SlotModel::Repeated(_) => SlotModel::Repeated(vs),
        _ => s,
    }
}

/// A slot `build` can read: everything but an absent Required slot.
pub open spec fn spec_ready(s: SlotModel) -> bool {
    match s {
        SlotModel::Required(o) => o is Some,
        _ => true,
    }
}

/// `build` succeeds exactly when every slot is ready.
pub open spec fn spec_all_ready(slots: Seq<SlotModel>) -> bool {
    forall|i: int| 0 <= i < slots.len() ==> spec_ready(#[trigger] slots[i])
}

/// The first slot, in declaration order, that `build` finds absent.
pub open spec fn spec_first_missing(slots: Seq<SlotModel>) -> int
    decreases slots.len(),
{
    if slots.len() == 0 {
        0
    } else if !spec_ready(slots[0]) {
        0
    } else {
        1 + spec_first_missing(slots.drop_first())
    }
}

/// What `build` leaves in a slot it has read: Required and Optional
/// contents are moved out, Repeated contents stay.
pub open spec fn spec_taken(s: SlotModel) -> SlotModel {
    match s {
        SlotModel::Required(_) => SlotModel::Required(None),
        SlotModel::Optional(_) => SlotModel::Optional(None),
        SlotModel::Repeated(vs) => SlotModel::Repeated(vs),
    }
}

/// The record field a ready slot yields.
pub open spec fn spec_output(s: SlotModel) -> FieldValueModel {
    match s {
        SlotModel::Required(o) => FieldValueModel::One(o->0),
        SlotModel::Optional(o) => FieldValueModel::Maybe(o),
        SlotModel::Repeated(vs) => FieldValueModel::Many(vs),
    }
}

impl BuilderState {
    /// The zero-argument builder construction: every Repeated slot an empty
    /// collection, every Required and Optional slot absent.
    pub fn init(shapes: &Vec<Shape>) -> (b: BuilderState)
        ensures
            b@.len() == shapes@.len(),
            forall|i: int| 0 <= i < shapes@.len() ==> b@[i] == spec_init_slot(shapes@[i]@),
    {
        let n = shapes.len();
        let mut slots: Vec<Slot> = Vec::new();
        let mut i: usize = 0;
        while i < n
            invariant
                n == shapes@.len(),
                i <= n,
                slots@.len() == i,
                forall|j: int| 0 <= j < i ==> slots@[j]@ == spec_init_slot(shapes@[j]@),
            decreases n - i,
        {
            let s = match &shapes[i] {
                Shape::Required => Slot::Required(None),
                Shape::Optional => Slot::Optional(None),
                Shape::Repeated { push_name: _ } => Slot::Repeated(Vec::new()),
            };
            slots.push(s);
            i = i + 1;
        }
        BuilderState { slots }
    }

    /// The overwriting setter of a Required or Optional field: stores the
    /// value present and hands the builder back for chaining.
    pub fn set_value(self, field: usize, v: u64) -> (r: Self)
        requires
            field < self@.len(),
            !(self@[field as int] is Repeated),
        ensures
            r@ == self@.update(field as int, spec_set(self@[field as int], v)),
    {
        let mut slots = self.slots;
        let s = slots.remove(field);
        let s2 = match s {
            Slot::Required(_) => Slot::Required(Some(v)),
            Slot::Optional(_) => Slot::Optional(Some(v)),
            Slot::Repeated(vs) => Slot::Repeated(vs),
        };
        slots.insert(field, s2);
        let r = BuilderState { slots };
        proof {
            assert(r@ =~= self@.update(field as int, spec_set(self@[field as int], v)));
        }
        r
    }

    /// The per-element setter of a Repeated field: appends to the
    /// collection and hands the builder back for chaining.
    pub fn push_value(self, field: usize, v: u64) -> (r: Self)
        requires
            field < self@.len(),
            self@[field as int] is Repeated,
        ensures
            r@ == self@.update(field as int, spec_push(self@[field as int], v)),
    {
        let mut slots = self.slots;
        let s = slots.remove(field);
        let s2 = match s {
            Slot::Repeated(mut vs) => {
                vs.push(v);
                Slot::Repeated(vs)
            },
            other => other,
        };
        slots.insert(field, s2);
        let r = BuilderState { slots };
        proof {
            assert(r@ =~= self@.update(field as int, spec_push(self@[field as int], v)));
        }
        r
    }

    /// The bulk setter of a Repeated field whose per-element name differs
    /// from its own: replaces the whole collection and hands the builder
    /// back for chaining.
    pub fn replace_values(self, field: usize, vs: Vec<u64>) -> (r: Self)
        requires
            field < self@.len(),
            self@[field as int] is Repeated,
        ensures
            r@ == self@.update(field as int, spec_replace(self@[field as int], vs@)),
    {
        let mut slots = self.slots;
        let s = slots.remove(field);
        let s2 = match s {
            Slot::Repeated(_) => Slot::Repeated(vs),
            other => other,
        };
        slots.insert(field, s2);
        let r = BuilderState { slots };
        proof {
            assert(r@ =~= self@.update(field as int, spec_replace(self@[field as int], vs@)));
        }
        r
    }

    /// The finalizer. Reads the slots in declaration order: Repeated
    /// contents are copied and stay reusable, Optional and Required
    /// contents are moved out. The first absent Required slot fails the
    /// whole build, naming that field; later slots are then untouched.
    pub fn build(&mut self) -> (r: Result<Vec<FieldValue>, ConstructionError>)
        ensures
            r is Ok <==> spec_all_ready(old(self)@),
            final(self)@.len() == old(self)@.len(),
            match r {
                Ok(out) => {
                    &&& out@.len() == old(self)@.len()
                    &&& forall|i: int|
                        0 <= i < out@.len() ==> (#[trigger] out@[i])@ == spec_output(
                            old(self)@[i],
                        )
                    &&& forall|i: int|
                        0 <= i < old(self)@.len() ==> final(self)@[i] == spec_taken(
                            #[trigger] old(self)@[i],
                        )
                },
                Err(e) => {
                    &&& e.field < old(self)@.len()
                    &&& e.field == spec_first_missing(old(self)@)
                    &&& forall|i: int|
                        0 <= i < e.field ==> final(self)@[i] == spec_taken(
                            #[trigger] old(self)@[i],
                        )
                    &&& forall|i: int|
                        e.field <= i < old(self)@.len() ==> final(self)@[i] == #[trigger] old(
                            self,
                        )@[i]
                },
            },
    {
        let n = self.slots.len();
        let mut out: Vec<FieldValue> = Vec::new();
        let mut i: usize = 0;
        while i < n
            invariant
                n == old(self)@.len(),
                i <= n,
                self@.len() == n,
                out@.len() == i,
                forall|j: int| 0 <= j < i ==> spec_ready(#[trigger] old(self)@[j]),
                forall|j: int|
                    0 <= j < i ==> self@[j] == spec_taken(#[trigger] old(self)@[j]),
                forall|j: int| i <= j < n ==> self@[j] == #[trigger] old(self)@[j],
                forall|j: int|
                    0 <= j < i ==> (#[trigger] out@[j])@ == spec_output(old(self)@[j]),
            decreases n - i,
        {
            let ghost prev = self@;
            let s = self.slots.remove(i);
            match s {
                Slot::Required(o) => {
                    match o {
                        Some(v) => {
                            self.slots.insert(i, Slot::Required(None));
                            out.push(FieldValue::One(v));
                        },
                        None => {
                            self.slots.insert(i, Slot::Required(None));
                            proof {
                                assert(self@ =~= prev);
                                lemma_first_missing(old(self)@, i as int);
                            }
                            return Err(ConstructionError { field: i });
                        },
                    }
                },
                Slot::Optional(o) => {
                    self.slots.insert(i, Slot::Optional(None));
                    out.push(FieldValue::Maybe(o));
                },
                Slot::Repeated(vs) => {
                    let copy = copy_values(&vs);
                    self.slots.insert(i, Slot::Repeated(vs));
                    out.push(FieldValue::Many(copy));
                },
            }
            proof {
                assert(self@ =~= prev.update(i as int, spec_taken(prev[i as int])));
            }
            i = i + 1;
        }
        Ok(out)
    }
}

/// An element-by-element copy of a collection slot's contents.
fn copy_values(v: &Vec<u64>) -> (r: Vec<u64>)
    ensures
        r@ == v@,
{
    let n = v.len();
    let mut r: Vec<u64> = Vec::new();
    let mut i: usize = 0;
    while i < n
        invariant
            n == v@.len(),
            i <= n,
            r@ =~= v@.subrange(0, i as int),
        decreases n - i,
    {
        r.push(v[i]);
        i = i + 1;
    }
    proof {
        assert(r@ =~= v@);
    }
    r
}

/// The least index that is not ready is what `spec_first_missing` computes.
pub proof fn lemma_first_missing(slots: Seq<SlotModel>, i: int)
    requires
        0 <= i < slots.len(),
        forall|j: int| 0 <= j < i ==> spec_ready(#[trigger] slots[j]),
        !spec_ready(slots[i]),
    ensures
        spec_first_missing(slots) == i,
    decreases i,
{
    if i > 0 {
        assert forall|j: int| 0 <= j < i - 1 implies spec_ready(
            #[trigger] slots.drop_first()[j],
        ) by {
            assert(slots.drop_first()[j] == slots[j + 1]);
        }
        assert(slots.drop_first()[i - 1] == slots[i]);
        lemma_first_missing(slots.drop_first(), i - 1);
    }
}

} // verus!
