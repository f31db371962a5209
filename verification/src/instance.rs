//! A builder as a value: one optional slot per field, in declaration order.

use vstd::prelude::*;

verus! {

/// The state of a builder: slot `i` holds the value supplied for field `i`,
/// if any.
#[derive(Clone, Debug, PartialEq, Eq)]
pub struct Builder<V> {
    pub slots: Vec<Option<V>>,
}

impl<V> View for Builder<V> {
    type V = Seq<Option<V>>;

    open spec fn view(&self) -> Seq<Option<V>> {
        self.slots@
    }
}

/// The finalizer reaches slot `j` exactly when every slot before it held a
/// value.
pub open spec fn reached<V>(slots: Seq<Option<V>>, j: int) -> bool {
    forall|i: int| 0 <= i < j && i < slots.len() ==> (#[trigger] slots[i]) is Some
}

/// Every slot holds a value.
pub open spec fn complete<V>(slots: Seq<Option<V>>) -> bool {
    forall|i: int| 0 <= i < slots.len() ==> (#[trigger] slots[i]) is Some
}

/// All slots are empty.
pub open spec fn all_empty<V>(slots: Seq<Option<V>>) -> bool {
    forall|i: int| 0 <= i < slots.len() ==> (#[trigger] slots[i]) is None
}

/// The slots as the finalizer leaves them: a slot that was reached is empty,
/// whether or not the record could be made; a slot behind the first empty one
/// is untouched.
pub open spec fn after_build<V>(slots: Seq<Option<V>>) -> Seq<Option<V>> {
    Seq::new(
        slots.len(),
        |j: int|
            if reached(slots, j) {
                None
            } else {
                slots[j]
            },
    )
}

/// The values of a complete builder, in field order.
pub open spec fn record_of<V>(slots: Seq<Option<V>>) -> Seq<V> {
    Seq::new(slots.len(), |j: int| slots[j]->Some_0)
}

/// What the finalizer returns: the record when every slot is filled, nothing
/// otherwise.
pub open spec fn build_result<V>(slots: Seq<Option<V>>) -> Option<Seq<V>> {
    if complete(slots) {
        Some(record_of(slots))
    } else {
        None
    }
}

/// The slots as the factory makes them: `n` of them, all empty.
pub open spec fn fresh<V>(n: nat) -> Seq<Option<V>> {
    Seq::new(n, |i: int| None)
}

/// The slots after the setter of field `slot` was given `value`.
pub open spec fn after_set<V>(slots: Seq<Option<V>>, slot: int, value: V) -> Seq<Option<V>> {
    slots.update(slot, Some(value))
}

impl<V> Builder<V> {
    /// A builder of `n` slots, all empty.
    pub fn new(n: usize) -> (b: Builder<V>)
        ensures
            b@ == fresh::<V>(n as nat),
    {
        let mut slots: Vec<Option<V>> = Vec::new();
        let mut i: usize = 0;
        while i < n
            invariant
                i <= n,
                slots@.len() == i,
                all_empty(slots@),
            decreases n - i,
        {
            slots.push(None);
            i += 1;
        }
        assert(slots@ =~= fresh::<V>(n as nat));
        Builder { slots }
    }

    /// The number of slots.
    pub fn len(&self) -> (n: usize)
        ensures
            n == self@.len(),
    {
        self.slots.len()
    }

    /// Whether slot `slot` holds a value.
    pub fn is_set(&self, slot: usize) -> (b: bool)
        requires
            slot < self@.len(),
        ensures
            b == (self@[slot as int] is Some),
    {
        self.slots[slot].is_some()
    }

    /// The setter of field `slot`: overwrites the slot with `value`, whatever
    /// it held, and leaves every other slot alone. Returns the builder, so
    /// that calls can be chained.
    pub fn set(&mut self, slot: usize, value: V) -> (ret: &mut Self)
        requires
            slot < old(self)@.len(),
        ensures
            ret@ == after_set(old(self)@, slot as int, value),
            *final(self) == *final(ret),
    {
        self.slots[slot] = Some(value);
        self
    }

    /// The finalizer: takes the value out of each slot in field order and
    /// stops at the first empty one. The record is returned exactly when no
    /// slot was empty; the slots that were reached are empty afterwards in
    /// either case.
    pub fn build(&mut self) -> (res: Option<Vec<V>>)
        ensures
            final(self)@ == after_build(old(self)@),
            match res {
                Some(r) => build_result(old(self)@) == Some(r@),
                None => build_result(old(self)@) is None,
            },
    {
        let n: usize = self.slots.len();
        let mut record: Vec<V> = Vec::new();
        let mut i: usize = 0;
        while i < n
            invariant
                i <= n,
                n == old(self)@.len(),
                self.slots@.len() == n,
                record@.len() == i,
                forall|j: int| 0 <= j < i ==> (#[trigger] old(self)@[j]) == Some(record@[j]),
                forall|j: int| 0 <= j < i ==> (#[trigger] self.slots@[j]) is None,
                forall|j: int| i <= j < n ==> (#[trigger] self.slots@[j]) == old(self)@[j],
            decreases n - i,
        {
            match self.slots[i].take() {
                Some(v) => {
                    record.push(v);
                },
                None => {
                    assert(self.slots@ =~= after_build(old(self)@));
                    return None;
                },
            }
            i += 1;
        }
        assert(self.slots@ =~= after_build(old(self)@));
        assert(record@ =~= record_of(old(self)@));
        Some(record)
    }
}

} // verus!
