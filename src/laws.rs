//! Laws that relate the setters, `build`, and the plans.
use vstd::prelude::*;

use crate::companion::{
    apply_sets, complete, empty_slots, first_missing, is_set, missing, sets_in_range, Companion,
};
use crate::debug::{annotation_pattern, debug_pattern, renders_fields, DebugField, Render};
use crate::record::{Attribute, FieldDescription};

verus! {

/// Setting the first `k` of the values, each at its own index, fills
/// exactly the first `k` slots.
proof fn lemma_fill_prefix<V>(values: Seq<V>, k: int)
    requires
        0 <= k <= values.len(),
    ensures
        apply_sets(
            empty_slots::<V>(values.len()),
            Seq::new(values.len(), |i: int| (i, values[i])).take(k),
        ) == Seq::new(values.len(), |i: int| if i < k { Some(values[i]) } else { None }),
    decreases k,
{
    let sets = Seq::new(values.len(), |i: int| (i, values[i]));
    if k == 0 {
        assert(empty_slots::<V>(values.len()) =~= Seq::new(
            values.len(),
            |i: int| if i < k { Some(values[i]) } else { None },
        ));
    } else {
        lemma_fill_prefix(values, k - 1);
        assert(sets.take(k).drop_last() =~= sets.take(k - 1));
        assert(apply_sets(empty_slots::<V>(values.len()), sets.take(k)) =~= Seq::new(
            values.len(),
            |i: int| if i < k { Some(values[i]) } else { None },
        ));
    }
}

/// Calling every setter once, in declaration order, and then `build` gives
/// back exactly the values that were set: the slots are complete and hold
/// those values.
proof fn lemma_set_every_field<V>(required: Seq<bool>, values: Seq<V>)
    requires
        required.len() == values.len(),
    ensures
        ({
            let slots = apply_sets(
                empty_slots::<V>(values.len()),
                Seq::new(values.len(), |i: int| (i, values[i])),
            );
            &&& complete(required, slots)
            &&& slots == values.map_values(|v: V| Some(v))
        }),
{
    let sets = Seq::new(values.len(), |i: int| (i, values[i]));
    lemma_fill_prefix(values, values.len() as int);
    assert(sets.take(values.len() as int) =~= sets);
    let slots = apply_sets(empty_slots::<V>(values.len()), sets);
    assert(slots =~= values.map_values(|v: V| Some(v)));
}

/// Starting from empty slots, a slot holds a value exactly when some call
/// set it.
proof fn lemma_filled_iff_set<V>(n: nat, sets: Seq<(int, V)>)
    requires
        sets_in_range(sets, n),
    ensures
        apply_sets(empty_slots::<V>(n), sets).len() == n,
        forall|j: int|
            0 <= j < n ==> ((#[trigger] apply_sets(empty_slots::<V>(n), sets)[j]) is Some
                <==> is_set(sets, j)),
    decreases sets.len(),
{
    if sets.len() > 0 {
        let init = sets.drop_last();
        assert forall|t: int| 0 <= t < init.len() implies 0 <= (#[trigger] init[t]).0 < n by {
            assert(init[t] == sets[t]);
        }
        lemma_filled_iff_set(n, init);
        assert forall|j: int|
            0 <= j < n implies ((#[trigger] apply_sets(empty_slots::<V>(n), sets)[j]) is Some
                <==> is_set(sets, j)) by {
            if is_set(sets, j) && j != sets.last().0 {
                let t = choose|t: int| 0 <= t < sets.len() && (#[trigger] sets[t]).0 == j;
                assert(t < init.len());
                assert(init[t] == sets[t]);
            }
            if is_set(init, j) {
                let t = choose|t: int| 0 <= t < init.len() && (#[trigger] init[t]).0 == j;
                assert(sets[t] == init[t]);
            }
            if j == sets.last().0 {
                assert(sets[sets.len() - 1].0 == j);
            }
        }
    } else {
        assert forall|j: int|
            0 <= j < n implies ((#[trigger] apply_sets(empty_slots::<V>(n), sets)[j]) is Some
                <==> is_set(sets, j)) by {}
    }
}

/// Calling `build` after setting only some of the required fields fails,
/// and the failure names the first required field, in declaration order,
/// that no setter call touched.
proof fn lemma_partial_sets<V>(required: Seq<bool>, sets: Seq<(int, V)>)
    requires
        sets_in_range(sets, required.len()),
        exists|j: int| 0 <= j < required.len() && required[j] && !is_set(sets, j),
    ensures
        ({
            let slots = apply_sets(empty_slots::<V>(required.len()), sets);
            &&& !complete(required, slots)
            &&& forall|k: int|
                #![trigger first_missing(required, slots, k)]
                first_missing(required, slots, k) <==> {
                    &&& 0 <= k < required.len()
                    &&& required[k]
                    &&& !is_set(sets, k)
                    &&& forall|j: int| 0 <= j < k && required[j] ==> is_set(sets, j)
                }
        }),
{
    let n = required.len();
    let slots = apply_sets(empty_slots::<V>(n), sets);
    lemma_filled_iff_set(n, sets);
    let j = choose|j: int| 0 <= j < n && required[j] && !is_set(sets, j);
    assert(slots[j] is None);
    assert(missing(required, slots, j));
    assert forall|k: int| #![trigger first_missing(required, slots, k)]
        first_missing(required, slots, k) <==> {
            &&& 0 <= k < n
            &&& required[k]
            &&& !is_set(sets, k)
            &&& forall|j: int| 0 <= j < k && required[j] ==> is_set(sets, j)
        } by {
        if 0 <= k < n {
            assert(slots[k] is Some <==> is_set(sets, k));
            assert forall|j: int| 0 <= j < k implies (!missing(required, slots, j) <==> (required[j]
                ==> is_set(sets, j))) by {
                assert(slots[j] is Some <==> is_set(sets, j));
            }
        }
    }
}

/// Setter calls keep the number of slots.
proof fn lemma_sets_keep_len<V>(slots: Seq<Option<V>>, sets: Seq<(int, V)>)
    requires
        sets_in_range(sets, slots.len()),
    ensures
        apply_sets(slots, sets).len() == slots.len(),
    decreases sets.len(),
{
    if sets.len() > 0 {
        let init = sets.drop_last();
        assert forall|u: int| 0 <= u < init.len() implies 0 <= (#[trigger] init[u]).0 < slots.len() by {
            assert(init[u] == sets[u]);
        }
        lemma_sets_keep_len(slots, init);
        assert(0 <= sets[sets.len() - 1].0 < slots.len());
    }
}

/// When setters are called several times for one field, the slot holds the
/// value of the last of those calls: earlier values are gone.
proof fn lemma_last_set_wins<V>(slots: Seq<Option<V>>, sets: Seq<(int, V)>, t: int)
    requires
        0 <= t < sets.len(),
        sets_in_range(sets, slots.len()),
        forall|u: int| t < u < sets.len() ==> (#[trigger] sets[u]).0 != sets[t].0,
    ensures
        apply_sets(slots, sets)[sets[t].0] == Some(sets[t].1),
    decreases sets.len(),
{
    let init = sets.drop_last();
    assert forall|u: int| 0 <= u < init.len() implies 0 <= (#[trigger] init[u]).0 < slots.len() by {
        assert(init[u] == sets[u]);
    }
    lemma_sets_keep_len(slots, init);
    assert(0 <= sets[t].0 < slots.len());
    assert(0 <= sets[sets.len() - 1].0 < slots.len());
    if t < sets.len() - 1 {
        assert(init[t] == sets[t]);
        assert(sets[sets.len() - 1].0 != sets[t].0);
        assert forall|u: int| t < u < init.len() implies (#[trigger] init[u]).0 != init[t].0 by {
            assert(init[u] == sets[u]);
        }
        lemma_last_set_wins(slots, init, t);
    }
}

/// An optional field's slot never decides whether `build` succeeds: the
/// slots are complete with it empty exactly when they are complete with it
/// filled. `build` then hands back the empty slot as the field's value.
proof fn lemma_optional_slot<V>(required: Seq<bool>, slots: Seq<Option<V>>, i: int)
    requires
        required.len() == slots.len(),
        0 <= i < slots.len(),
        !required[i],
    ensures
        complete(required, slots.update(i, None)) == complete(required, slots),
{
    let emptied = slots.update(i, None);
    assert forall|j: int| 0 <= j < slots.len() implies missing(required, emptied, j) == missing(
        required,
        slots,
        j,
    ) by {}
}

/// Calling every setter of a fresh companion once, in declaration order,
/// fills every slot with the value given: the slots are complete, so
/// `build` succeeds and hands back exactly those values.
pub proof fn set_every_field_then_build<V>(c: Companion<V>, values: Seq<V>)
    requires
        c.wf(),
        c.base() == empty_slots::<V>(c.slots().len()),
        values.len() == c.slots().len(),
        c.calls() == Seq::new(values.len(), |i: int| (i, values[i])),
    ensures
        complete(c.required(), c.slots()),
        c.slots() == values.map_values(|v: V| Some(v)),
{
    lemma_set_every_field(c.required(), values);
}

/// After setter calls on a fresh companion that leave some required field
/// unset, `build` fails, and the field it names is the first required
/// field, in declaration order, that no call set.
pub proof fn partial_sets_fail_at_first_unset<V>(c: Companion<V>)
    requires
        c.wf(),
        c.base() == empty_slots::<V>(c.slots().len()),
        exists|j: int| 0 <= j < c.slots().len() && c.required()[j] && !is_set(c.calls(), j),
    ensures
        !complete(c.required(), c.slots()),
        forall|k: int|
            #![trigger first_missing(c.required(), c.slots(), k)]
            first_missing(c.required(), c.slots(), k) <==> {
                &&& 0 <= k < c.slots().len()
                &&& c.required()[k]
                &&& !is_set(c.calls(), k)
                &&& forall|j: int| 0 <= j < k && c.required()[j] ==> is_set(c.calls(), j)
            },
{
    lemma_partial_sets(c.required(), c.calls());
}

/// When a field's setter was called several times, its slot holds the
/// value of the last of those calls: earlier values are gone.
pub proof fn last_set_wins<V>(c: Companion<V>, t: int)
    requires
        c.wf(),
        0 <= t < c.calls().len(),
        forall|u: int| t < u < c.calls().len() ==> (#[trigger] c.calls()[u]).0 != c.calls()[t].0,
    ensures
        c.slots()[c.calls()[t].0] == Some(c.calls()[t].1),
{
    lemma_last_set_wins(c.base(), c.calls(), t);
}

/// An optional field's setter may be left out: on a fresh companion its slot
/// then stays empty, which `build` hands back as the field's value, and
/// whether the slots are complete does not depend on that slot.
pub proof fn optional_slot_may_stay_empty<V>(c: Companion<V>, i: int)
    requires
        c.wf(),
        c.base() == empty_slots::<V>(c.slots().len()),
        0 <= i < c.slots().len(),
        !c.required()[i],
    ensures
        !is_set(c.calls(), i) ==> c.slots()[i] is None,
        complete(c.required(), c.slots().update(i, None)) == complete(c.required(), c.slots()),
{
    lemma_filled_iff_set(c.slots().len(), c.calls());
    lemma_optional_slot(c.required(), c.slots(), i);
}

/// Attributes none of which is a `#[debug = "..."]` pattern give no pattern.
proof fn lemma_no_annotation(attrs: Seq<Attribute>)
    requires
        forall|k: int| 0 <= k < attrs.len() ==> annotation_pattern(#[trigger] attrs[k]) is None,
    ensures
        debug_pattern(attrs) is None,
    decreases attrs.len(),
{
    if attrs.len() > 0 {
        let rest = attrs.drop_first();
        assert(annotation_pattern(attrs[0]) is None);
        assert forall|k: int| 0 <= k < rest.len() implies annotation_pattern(#[trigger] rest[k]) is None by {
            assert(rest[k] == attrs[k + 1]);
        }
        lemma_no_annotation(rest);
    }
}

/// A record without format annotations renders every field, in declaration
/// order and under its own name, by the value's default representation.
pub proof fn unannotated_fields_render_by_default(
    fields: Seq<FieldDescription>,
    steps: Seq<DebugField>,
)
    requires
        renders_fields(fields, steps),
        forall|i: int, k: int|
            0 <= i < fields.len() && 0 <= k < fields[i].attrs@.len() ==> annotation_pattern(
                #[trigger] fields[i].attrs@[k],
            ) is None,
    ensures
        steps.len() == fields.len(),
        forall|i: int|
            0 <= i < fields.len() ==> (#[trigger] steps[i]).name@ == fields[i].name@
                && steps[i].render == Render::Default,
{
    assert forall|i: int| 0 <= i < fields.len() implies (#[trigger] steps[i]).name@
        == fields[i].name@ && steps[i].render == Render::Default by {
        let attrs = fields[i].attrs@;
        assert forall|k: int| 0 <= k < attrs.len() implies annotation_pattern(#[trigger] attrs[k]) is None by {
            assert(attrs[k] == fields[i].attrs@[k]);
        }
        lemma_no_annotation(attrs);
    }
}

/// The first `#[debug = "..."]` attribute's pattern is the one used.
proof fn lemma_first_annotation(attrs: Seq<Attribute>, k: int)
    requires
        0 <= k < attrs.len(),
        annotation_pattern(attrs[k]) is Some,
        forall|j: int| 0 <= j < k ==> annotation_pattern(#[trigger] attrs[j]) is None,
    ensures
        debug_pattern(attrs) == annotation_pattern(attrs[k]),
    decreases k,
{
    if k > 0 {
        let rest = attrs.drop_first();
        assert(annotation_pattern(attrs[0]) is None);
        assert forall|j: int| 0 <= j < k - 1 implies annotation_pattern(#[trigger] rest[j]) is None by {
            assert(rest[j] == attrs[j + 1]);
        }
        assert(rest[k - 1] == attrs[k]);
        lemma_first_annotation(rest, k - 1);
    }
}

/// A field whose first `#[debug = "..."]` attribute carries `pattern` is
/// rendered by substituting its value into that pattern, not by default.
pub proof fn annotated_field_renders_by_pattern(
    fields: Seq<FieldDescription>,
    steps: Seq<DebugField>,
    i: int,
    k: int,
)
    requires
        renders_fields(fields, steps),
        0 <= i < fields.len(),
        0 <= k < fields[i].attrs@.len(),
        annotation_pattern(fields[i].attrs@[k]) is Some,
        forall|j: int| 0 <= j < k ==> annotation_pattern(#[trigger] fields[i].attrs@[j]) is None,
    ensures
        steps[i].render matches Render::Pattern(p) && Some(p@) == annotation_pattern(
            fields[i].attrs@[k],
        ),
{
    let attrs = fields[i].attrs@;
    assert forall|j: int| 0 <= j < k implies annotation_pattern(#[trigger] attrs[j]) is None by {
        assert(attrs[j] == fields[i].attrs@[j]);
    }
    lemma_first_annotation(attrs, k);
}

} // verus!
