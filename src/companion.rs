use vstd::prelude::*;

use crate::builder::{not_set_message, not_set_text, BuilderPlan};

verus! {

/// Slot `i` belongs to a required field and is empty.
pub open spec fn missing<V>(required: Seq<bool>, slots: Seq<Option<V>>, i: int) -> bool {
    required[i] && slots[i] is None
}

/// Every required slot holds a value.
pub open spec fn complete<V>(required: Seq<bool>, slots: Seq<Option<V>>) -> bool {
    forall|i: int| 0 <= i < slots.len() ==> !missing(required, slots, i)
}

/// `k` is the first empty required slot, in declaration order.
pub open spec fn first_missing<V>(required: Seq<bool>, slots: Seq<Option<V>>, k: int) -> bool {
    &&& 0 <= k < slots.len()
    &&& missing(required, slots, k)
    &&& forall|j: int| 0 <= j < k ==> !missing(required, slots, j)
}

/// `n` empty slots.
pub open spec fn empty_slots<V>(n: nat) -> Seq<Option<V>> {
    Seq::new(n, |i: int| None)
}

/// The slots with every slot up to and including `k` emptied.
pub open spec fn cleared_through<V>(slots: Seq<Option<V>>, k: int) -> Seq<Option<V>> {
    Seq::new(slots.len(), |i: int| if i <= k { None } else { slots[i] })
}

/// The slots after the setter calls `sets`, in order: each pair is a slot
/// index and the value given.
pub open spec fn apply_sets<V>(slots: Seq<Option<V>>, sets: Seq<(int, V)>) -> Seq<Option<V>>
    decreases sets.len(),
{
    if sets.len() == 0 {
        slots
    } else {
        apply_sets(slots, sets.drop_last()).update(sets.last().0, Some(sets.last().1))
    }
}

/// Some call in `sets` set slot `j`.
pub open spec fn is_set<V>(sets: Seq<(int, V)>, j: int) -> bool {
    exists|t: int| 0 <= t < sets.len() && (#[trigger] sets[t]).0 == j
}

/// Every call in `sets` names a slot below `n`.
pub open spec fn sets_in_range<V>(sets: Seq<(int, V)>, n: nat) -> bool {
    forall|t: int| 0 <= t < sets.len() ==> 0 <= (#[trigger] sets[t]).0 < n
}

/// The failure that `build` returns for an empty required slot.
#[derive(Debug, Clone, PartialEq, Eq)]
pub struct FieldNotSet {
    /// The slot's index, in declaration order.
    pub index: usize,
    /// The field's name.
    pub field: String,
}

impl FieldNotSet {
    /// `field <name> not set`.
    pub fn message(&self) -> (r: String)
        ensures
            r@ == not_set_text(self.field@),
    {
        not_set_message(self.field.as_str())
    }
}

/// The builder companion of one record, as the builder derive emits it: one
/// slot per field, filled by setters and emptied by `build`. The values are
/// of one type `V`; a field's declared type is the plan's business.
pub struct Companion<V> {
    names: Vec<String>,
    required: Vec<bool>,
    slots: Vec<Option<V>>,
    base: Ghost<Seq<Option<V>>>,
    calls: Ghost<Seq<(int, V)>>,
}

impl<V> Companion<V> {
    /// The fields' names, in declaration order.
    pub closed spec fn names(&self) -> Seq<String> {
        self.names@
    }

    /// Which fields must be set before `build` succeeds.
    pub closed spec fn required(&self) -> Seq<bool> {
        self.required@
    }

    /// What each slot holds.
    pub closed spec fn slots(&self) -> Seq<Option<V>> {
        self.slots@
    }

    /// What the slots held when the companion was made or last built.
    pub closed spec fn base(&self) -> Seq<Option<V>> {
        self.base@
    }

    /// The setter calls since then, in order: slot index and value.
    pub closed spec fn calls(&self) -> Seq<(int, V)> {
        self.calls@
    }

    /// The slots are `base` after `calls`.
    pub open spec fn wf(&self) -> bool {
        &&& self.names().len() == self.slots().len()
        &&& self.required().len() == self.slots().len()
        &&& self.base().len() == self.slots().len()
        &&& sets_in_range(self.calls(), self.slots().len())
        &&& self.slots() == apply_sets(self.base(), self.calls())
    }

    /// A companion whose slots are exactly `base() == slots()` with no calls
    /// made yet: the state after `builder` and after `build`.
    pub open spec fn fresh(&self) -> bool {
        &&& self.calls() == Seq::<(int, V)>::empty()
        &&& self.base() == self.slots()
    }

    /// A companion with every slot empty, one per field of the plan.
    pub fn builder(plan: &BuilderPlan) -> (r: Self)
        ensures
            r.wf(),
            r.names().len() == plan.fields@.len(),
            r.required().len() == plan.fields@.len(),
            forall|i: int|
                0 <= i < plan.fields@.len() ==> #[trigger] r.names()[i] == plan.fields@[i].name
                    && r.required()[i] == plan.fields@[i].required,
            r.slots() == empty_slots::<V>(plan.fields@.len()),
            r.fresh(),
    {
        let mut names: Vec<String> = Vec::new();
        let mut required: Vec<bool> = Vec::new();
        let mut slots: Vec<Option<V>> = Vec::new();
        let mut i: usize = 0;
        while i < plan.fields.len()
            invariant
                i <= plan.fields@.len(),
                names@.len() == i,
                required@.len() == i,
                slots@ == empty_slots::<V>(i as nat),
                forall|j: int|
                    0 <= j < i ==> #[trigger] names@[j] == plan.fields@[j].name && required@[j]
                        == plan.fields@[j].required,
            decreases plan.fields@.len() - i,
        {
            names.push(plan.fields[i].name.clone());
            required.push(plan.fields[i].required);
            slots.push(None);
            i = i + 1;
            assert(slots@ =~= empty_slots::<V>(i as nat));
        }
        Companion { names, required, slots, base: Ghost(empty_slots::<V>(i as nat)), calls: Ghost(Seq::empty()) }
    }

    /// The number of fields.
    pub fn len(&self) -> (r: usize)
        requires
            self.wf(),
        ensures
            r == self.slots().len(),
    {
        self.slots.len()
    }

    /// The setter of field `index`: stores `value`, replacing what the slot
    /// held.
    pub fn set(&mut self, index: usize, value: V)
        requires
            old(self).wf(),
            index < old(self).slots().len(),
        ensures
            final(self).wf(),
            final(self).names() == old(self).names(),
            final(self).required() == old(self).required(),
            final(self).slots() == old(self).slots().update(index as int, Some(value)),
            final(self).base() == old(self).base(),
            final(self).calls() == old(self).calls().push((index as int, value)),
    {
        let ghost calls = self.calls@.push((index as int, value));
        self.calls = Ghost(calls);
        self.slots.set(index, Some(value));
        assert(calls.drop_last() =~= old(self).calls@);
        assert(sets_in_range(calls, self.slots@.len())) by {
            assert forall|t: int| 0 <= t < calls.len() implies 0 <= (#[trigger] calls[t]).0
                < self.slots@.len() by {
                if t < calls.len() - 1 {
                    assert(calls[t] == old(self).calls@[t]);
                }
            }
        }
    }

    /// Takes every slot's value, in declaration order, or fails at the first
    /// empty required slot; the slots taken up to that point stay empty.
    pub fn build(&mut self) -> (r: Result<Vec<Option<V>>, FieldNotSet>)
        requires
            old(self).wf(),
        ensures
            final(self).wf(),
            final(self).names() == old(self).names(),
            final(self).required() == old(self).required(),
            final(self).fresh(),
            r is Ok <==> complete(old(self).required(), old(self).slots()),
            r matches Ok(values) ==> values@ == old(self).slots() && final(self).slots()
                == empty_slots::<V>(old(self).slots().len()),
            r matches Err(e) ==> first_missing(old(self).required(), old(self).slots(), e.index as int)
                && e.field == old(self).names()[e.index as int]
                && final(self).slots() == cleared_through(old(self).slots(), e.index as int),
    {
        let ghost start = self.slots@;
        let n = self.slots.len();
        let mut values: Vec<Option<V>> = Vec::new();
        let mut i: usize = 0;
        while i < n
            invariant
                self.names@.len() == n,
                self.required@.len() == n,
                self.slots@.len() == n,
                self.names == old(self).names,
                self.required == old(self).required,
                start == old(self).slots@,
                n == start.len(),
                i <= n,
                values@ == start.subrange(0, i as int),
                self.slots@ == cleared_through(start, i - 1),
                forall|j: int| 0 <= j < i ==> !missing(self.required@, start, j),
            decreases n - i,
        {
            let mut taken: Option<V> = None;
            self.slots.set_and_swap(i, &mut taken);
            assert(taken == start[i as int]);
            if self.required[i] && taken.is_none() {
                assert(missing(old(self).required@, start, i as int));
                assert(self.slots@ =~= cleared_through(start, i as int));
                self.base = Ghost(self.slots@);
                self.calls = Ghost(Seq::empty());
                return Err(FieldNotSet { index: i, field: self.names[i].clone() });
            }
            values.push(taken);
            i = i + 1;
            assert(values@ =~= start.subrange(0, i as int));
            assert(self.slots@ =~= cleared_through(start, i - 1));
        }
        assert(values@ =~= start);
        assert(self.slots@ =~= empty_slots::<V>(n as nat));
        self.base = Ghost(self.slots@);
        self.calls = Ghost(Seq::empty());
        Ok(values)
    }
}

} // verus!
