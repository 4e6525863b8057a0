//! Laws of the generated builder's behaviour, stated over the slot model
//! and proved once for every schema and every choice of values.

use vstd::prelude::*;
use crate::builder::{
    lemma_first_missing, spec_all_ready, spec_first_missing, spec_output, spec_push,
    spec_ready, spec_replace, spec_set, spec_taken, FieldValueModel, SlotModel,
};

verus! {

/// The slots after every field's overwriting setter was invoked once, field
/// `k - 1` last: field `j` was set to `vals[j]`.
pub open spec fn spec_set_each(slots: Seq<SlotModel>, vals: Seq<u64>, k: nat) -> Seq<SlotModel>
    decreases k,
{
    if k == 0 {
        slots
    } else {
        let prev = spec_set_each(slots, vals, (k - 1) as nat);
        prev.update(k - 1, spec_set(prev[k - 1], vals[k - 1]))
    }
}

/// The slot after the per-element setter was invoked once for each of
/// `vs.take(k)`, in order.
pub open spec fn spec_push_each(s: SlotModel, vs: Seq<u64>, k: nat) -> SlotModel
    decreases k,
{
    if k == 0 {
        s
    } else {
        spec_push(spec_push_each(s, vs, (k - 1) as nat), vs[k - 1])
    }
}

/// Invoking every setter once leaves field `j` holding `vals[j]`.
pub proof fn lemma_set_each(slots: Seq<SlotModel>, vals: Seq<u64>, k: nat)
    requires
        vals.len() == slots.len(),
        k <= slots.len(),
    ensures
        spec_set_each(slots, vals, k).len() == slots.len(),
        forall|j: int|
            0 <= j < k ==> spec_set_each(slots, vals, k)[j] == spec_set(slots[j], vals[j]),
        forall|j: int| k <= j < slots.len() ==> spec_set_each(slots, vals, k)[j] == slots[j],
    decreases k,
{
    if k > 0 {
        lemma_set_each(slots, vals, (k - 1) as nat);
    }
}

/// Law: on an all-Required schema, building before any setter was invoked
/// fails and names the first field in declaration order; invoking every
/// setter once and then building succeeds, and each result field holds
/// exactly the value that was set.
pub proof fn lemma_all_required_build(slots: Seq<SlotModel>, vals: Seq<u64>)
    requires
        slots.len() == vals.len(),
        slots.len() > 0,
        forall|i: int| 0 <= i < slots.len() ==> slots[i] == SlotModel::Required(None::<u64>),
    ensures
        !spec_all_ready(slots),
        spec_first_missing(slots) == 0,
        spec_all_ready(spec_set_each(slots, vals, slots.len() as nat)),
        forall|i: int|
            0 <= i < slots.len() ==> spec_output(
                spec_set_each(slots, vals, slots.len() as nat)[i],
            ) == FieldValueModel::One(vals[i]),
{
    lemma_first_missing(slots, 0);
    lemma_set_each(slots, vals, slots.len() as nat);
    let done = spec_set_each(slots, vals, slots.len() as nat);
    assert forall|i: int| 0 <= i < slots.len() implies spec_ready(#[trigger] done[i]) by {
        assert(done[i] == spec_set(slots[i], vals[i]));
    }
}

/// Law: an Optional field never blocks `build`. Whether or not its setter
/// was invoked, readiness of the whole builder is unchanged; uncalled, the
/// result field is absent, and called with `v`, it holds `v`.
pub proof fn lemma_optional_never_blocks(slots: Seq<SlotModel>, i: int, v: u64)
    requires
        0 <= i < slots.len(),
        slots[i] is Optional,
    ensures
        spec_ready(slots[i]),
        spec_all_ready(slots.update(i, spec_set(slots[i], v))) == spec_all_ready(slots),
        spec_output(spec_set(slots[i], v)) == FieldValueModel::Maybe(Some(v)),
        slots[i] == SlotModel::Optional(None::<u64>) ==> spec_output(slots[i])
            == FieldValueModel::Maybe(None::<u64>),
{
    let set = slots.update(i, spec_set(slots[i], v));
    if spec_all_ready(slots) {
        assert forall|j: int| 0 <= j < set.len() implies spec_ready(#[trigger] set[j]) by {
            if j != i {
                assert(set[j] == slots[j]);
            }
        }
    }
    if spec_all_ready(set) {
        assert forall|j: int| 0 <= j < slots.len() implies spec_ready(#[trigger] slots[j]) by {
            if j != i {
                assert(set[j] == slots[j]);
            }
        }
    }
}

/// Pushing the first `k` of `vs` one by one appends exactly them.
pub proof fn lemma_push_each(s: Seq<u64>, vs: Seq<u64>, k: nat)
    requires
        k <= vs.len(),
    ensures
        spec_push_each(SlotModel::Repeated(s), vs, k) == SlotModel::Repeated(
            s + vs.take(k as int),
        ),
    decreases k,
{
    if k == 0 {
        assert(s + vs.take(0) =~= s);
    } else {
        lemma_push_each(s, vs, (k - 1) as nat);
        assert((s + vs.take(k - 1)).push(vs[k - 1]) =~= s + vs.take(k as int));
    }
}

/// Law: on an empty collection slot, invoking the per-element setter once
/// for each element of `vs`, in order, leaves the same slot as one bulk
/// replacement by `vs`; both leave the collection holding exactly `vs`, so
/// `build` reads the same field either way.
pub proof fn lemma_push_each_equals_bulk(s: SlotModel, vs: Seq<u64>)
    requires
        s == SlotModel::Repeated(Seq::<u64>::empty()),
    ensures
        spec_push_each(s, vs, vs.len()) == spec_replace(s, vs),
        spec_output(spec_push_each(s, vs, vs.len())) == FieldValueModel::Many(vs),
{
    lemma_push_each(Seq::<u64>::empty(), vs, vs.len());
    assert(Seq::<u64>::empty() + vs.take(vs.len() as int) =~= vs);
}

/// Law: setters of two distinct fields commute: chaining them in either
/// order from the same builder state yields the same state.
pub proof fn lemma_setters_commute(slots: Seq<SlotModel>, i: int, j: int, x: u64, y: u64)
    requires
        0 <= i < slots.len(),
        0 <= j < slots.len(),
        i != j,
    ensures
        slots.update(i, spec_set(slots[i], x)).update(j, spec_set(slots[j], y)) == slots.update(
            j,
            spec_set(slots[j], y),
        ).update(i, spec_set(slots[i], x)),
{
    assert(slots.update(i, spec_set(slots[i], x)).update(j, spec_set(slots[j], y)) =~= slots
        .update(j, spec_set(slots[j], y)).update(i, spec_set(slots[i], x)));
}

/// Law: a successful `build` empties every Required and Optional slot and
/// keeps every Repeated slot. A second `build` therefore fails at the first
/// Required field if there is one, observes every Optional field absent,
/// and on a builder of Repeated fields only succeeds again with the same
/// contents.
pub proof fn lemma_second_build(slots: Seq<SlotModel>)
    requires
        spec_all_ready(slots),
    ensures
        ({
            let after = slots.map_values(|s: SlotModel| spec_taken(s));
            &&& after.len() == slots.len()
            &&& forall|i: int|
                0 <= i < slots.len() && (#[trigger] slots[i]) is Repeated ==> after[i] == slots[i]
            &&& forall|i: int|
                0 <= i < slots.len() && (#[trigger] slots[i]) is Optional ==> spec_output(
                    after[i],
                ) == FieldValueModel::Maybe(None::<u64>)
            &&& forall|i: int|
                0 <= i < slots.len() && (#[trigger] slots[i]) is Required ==> !spec_ready(
                    after[i],
                )
            &&& forall|i: int|
                0 <= i < slots.len() && (#[trigger] slots[i]) is Required && (forall|j: int|
                    0 <= j < i ==> !((#[trigger] slots[j]) is Required)) ==> spec_first_missing(
                    after,
                ) == i
            &&& (forall|i: int| 0 <= i < slots.len() ==> !((#[trigger] slots[i]) is Required))
                ==> spec_all_ready(after)
        }),
{
    let after = slots.map_values(|s: SlotModel| spec_taken(s));
    assert forall|i: int|
        0 <= i < slots.len() && (#[trigger] slots[i]) is Required && (forall|j: int|
            0 <= j < i ==> !((#[trigger] slots[j]) is Required)) implies spec_first_missing(after)
        == i by {
        assert forall|j: int| 0 <= j < i implies spec_ready(#[trigger] after[j]) by {
            assert(after[j] == spec_taken(slots[j]));
        }
        assert(!spec_ready(after[i]));
        lemma_first_missing(after, i);
    }
    if forall|i: int| 0 <= i < slots.len() ==> !((#[trigger] slots[i]) is Required) {
        assert forall|i: int| 0 <= i < after.len() implies spec_ready(#[trigger] after[i]) by {
            assert(!(slots[i] is Required));
        }
    }
}

} // verus!
