//! What holds of every builder, whatever the record and whatever the calls.
//!
//! A run of setter calls is a sequence of pairs: the slot whose setter is
//! called and the value it is given.

use crate::instance::{
    after_build, after_set, all_empty, build_result, complete, fresh, reached, record_of,
};
use vstd::prelude::*;

verus! {

/// The slots after the setter calls `calls`, made in order.
pub open spec fn after_calls<V>(slots: Seq<Option<V>>, calls: Seq<(int, V)>) -> Seq<Option<V>>
    decreases calls.len(),
{
    if calls.len() == 0 {
        slots
    } else {
        after_set(after_calls(slots, calls.drop_last()), calls.last().0, calls.last().1)
    }
}

/// Every call is to the setter of one of `n` fields.
pub open spec fn in_range<V>(calls: Seq<(int, V)>, n: nat) -> bool {
    forall|k: int| 0 <= k < calls.len() ==> 0 <= (#[trigger] calls[k]).0 < n
}

/// The setter of field `slot` is called at least once.
pub open spec fn called<V>(calls: Seq<(int, V)>, slot: int) -> bool {
    exists|k: int| 0 <= k < calls.len() && (#[trigger] calls[k]).0 == slot
}

/// No later call is to the same setter as call `k`.
pub open spec fn is_last_on_slot<V>(calls: Seq<(int, V)>, k: int) -> bool {
    forall|l: int| k < l < calls.len() ==> (#[trigger] calls[l]).0 != calls[k].0
}

/// The slots that the calls are made to, call by call.
pub open spec fn slots_called<V>(calls: Seq<(int, V)>) -> Seq<int> {
    Seq::new(calls.len(), |k: int| calls[k].0)
}

/// `f` is the first field, in declaration order, whose setter is not called.
pub open spec fn is_first_unset<V>(calls: Seq<(int, V)>, n: nat, f: int) -> bool {
    &&& 0 <= f < n
    &&& !called(calls, f)
    &&& forall|j: int| 0 <= j < f ==> called(calls, j)
}

/// The factory's builder has `n` slots, all empty, and its finalizer gives a
/// record only when there is no field.
pub proof fn lemma_fresh_is_empty<V>(n: nat)
    ensures
        fresh::<V>(n).len() == n,
        all_empty(fresh::<V>(n)),
        complete(fresh::<V>(n)) <==> n == 0,
{
    if n > 0 {
        assert(fresh::<V>(n)[0] is None);
    }
}

/// A run of setter calls keeps the number of slots. A slot whose setter is
/// not called keeps what it held; a slot whose setter is called holds the
/// value of the last call to that setter.
pub proof fn lemma_after_calls<V>(slots: Seq<Option<V>>, calls: Seq<(int, V)>)
    requires
        in_range(calls, slots.len()),
    ensures
        after_calls(slots, calls).len() == slots.len(),
        forall|j: int|
            0 <= j < slots.len() && !called(calls, j) ==> (#[trigger] after_calls(slots, calls)[j])
                == slots[j],
        forall|j: int|
            0 <= j < slots.len() && called(calls, j)
                ==> (#[trigger] after_calls(slots, calls)[j]) is Some,
        forall|k: int|
            0 <= k < calls.len() && is_last_on_slot(calls, k)
                ==> after_calls(slots, calls)[(#[trigger] calls[k]).0] == Some(calls[k].1),
    decreases calls.len(),
{
    if calls.len() > 0 {
        let init = calls.drop_last();
        let last = calls.last();
        let before = after_calls(slots, init);
        let after = after_calls(slots, calls);
        lemma_after_calls(slots, init);
        assert forall|j: int| 0 <= j < slots.len() && !called(calls, j) implies (#[trigger] after[j])
            == slots[j] by {
            assert(calls[calls.len() - 1].0 != j);
            if called(init, j) {
                let k = choose|k: int| 0 <= k < init.len() && (#[trigger] init[k]).0 == j;
                assert(calls[k].0 == j);
            }
        }
        assert forall|j: int| 0 <= j < slots.len() && called(calls, j) implies (#[trigger] after[j])
            is Some by {
            if j != last.0 {
                let k = choose|k: int| 0 <= k < calls.len() && (#[trigger] calls[k]).0 == j;
                assert(init[k].0 == j);
                assert(called(init, j));
            }
        }
        assert forall|k: int| 0 <= k < calls.len() && is_last_on_slot(calls, k) implies
            after[(#[trigger] calls[k]).0] == Some(calls[k].1) by {
            if k < calls.len() - 1 {
                assert(calls[calls.len() - 1].0 != calls[k].0);
                assert forall|l: int| k < l < init.len() implies (#[trigger] init[l]).0
                    != init[k].0 by {
                    assert(calls[l].0 != calls[k].0);
                }
                assert(is_last_on_slot(init, k));
                assert(before[init[k].0] == Some(init[k].1));
            }
        }
    }
}

/// Builders do not share slots: a run of setter calls on one builder and its
/// finalizer change that builder's slots only, so a second builder from the
/// factory is as the factory made it, whatever was done to the first.
pub proof fn lemma_instances_independent<V>(n: nat, calls: Seq<(int, V)>)
    requires
        in_range(calls, n),
    ensures
        ({
            let first = fresh::<V>(n);
            let second = fresh::<V>(n);
            let first_later = after_build(after_calls(first, calls));
            first_later.len() == n && second == fresh::<V>(n) && all_empty(second)
        }),
{
    lemma_after_calls(fresh::<V>(n), calls);
}

/// When `n` calls are made to `n` different setters of a builder with `n`
/// fields, every setter is called.
pub proof fn lemma_distinct_calls_cover<V>(calls: Seq<(int, V)>, n: nat)
    requires
        calls.len() == n,
        in_range(calls, n),
        slots_called(calls).no_duplicates(),
    ensures
        forall|j: int| 0 <= j < n ==> called(calls, j),
{
    let idx = slots_called(calls);
    let range = vstd::set_lib::set_int_range(0, n as int);
    idx.unique_seq_to_set();
    vstd::seq_lib::seq_to_set_is_finite(idx);
    vstd::set_lib::lemma_int_range(0, n as int);
    assert forall|j: int| idx.to_set().contains(j) implies range.contains(j) by {
        let k = choose|k: int| 0 <= k < idx.len() && idx[k] == j;
        assert(calls[k].0 == j);
    }
    vstd::set_lib::lemma_subset_equality(idx.to_set(), range);
    assert forall|j: int| 0 <= j < n implies called(calls, j) by {
        assert(range.contains(j));
        assert(idx.to_set().contains(j));
        let k = choose|k: int| 0 <= k < idx.len() && idx[k] == j;
        assert(calls[k].0 == j);
    }
}

/// When every setter is called exactly once, in whatever order and from
/// whatever state, the finalizer returns the record whose fields are the
/// values supplied, and leaves every slot empty.
pub proof fn lemma_all_setters_once<V>(slots: Seq<Option<V>>, calls: Seq<(int, V)>)
    requires
        calls.len() == slots.len(),
        in_range(calls, slots.len()),
        slots_called(calls).no_duplicates(),
    ensures
        build_result(after_calls(slots, calls)) is Some,
        build_result(after_calls(slots, calls))->Some_0.len() == slots.len(),
        forall|k: int|
            0 <= k < calls.len() ==> build_result(after_calls(slots, calls))->Some_0[
                (#[trigger] calls[k]).0
            ] == calls[k].1,
        after_build(after_calls(slots, calls)).len() == slots.len(),
        all_empty(after_build(after_calls(slots, calls))),
{
    let s = after_calls(slots, calls);
    let idx = slots_called(calls);
    lemma_after_calls(slots, calls);
    lemma_distinct_calls_cover(calls, slots.len());
    assert(complete(s));
    assert forall|k: int| 0 <= k < calls.len() implies
        record_of(s)[(#[trigger] calls[k]).0] == calls[k].1 by {
        assert forall|l: int| k < l < calls.len() implies (#[trigger] calls[l]).0
            != calls[k].0 by {
            assert(idx[l] != idx[k]);
        }
        assert(is_last_on_slot(calls, k));
    }
    assert forall|j: int| 0 <= j < s.len() implies reached(s, j) by {}
}

/// Of two calls to the same setter the later one counts: the slots are as if
/// the earlier call had not been made.
pub proof fn lemma_last_write_wins<V>(slots: Seq<Option<V>>, slot: int, earlier: V, later: V)
    requires
        0 <= slot < slots.len(),
    ensures
        after_set(after_set(slots, slot, earlier), slot, later) == after_set(slots, slot, later),
        after_set(slots, slot, later)[slot] == Some(later),
        complete(after_set(slots, slot, later)) ==> build_result(
            after_set(after_set(slots, slot, earlier), slot, later),
        )->Some_0[slot] == later,
{
    assert(after_set(after_set(slots, slot, earlier), slot, later) =~= after_set(
        slots,
        slot,
        later,
    ));
}

/// In a fresh builder, when `f` is the first field whose setter was not
/// called, the finalizer returns nothing; it empties the slots before `f` and
/// leaves the slot of `f` and all slots behind it as they were.
pub proof fn lemma_unset_field_fails_build<V>(n: nat, calls: Seq<(int, V)>, f: int)
    requires
        in_range(calls, n),
        is_first_unset(calls, n, f),
    ensures
        build_result(after_calls(fresh::<V>(n), calls)) is None,
        after_build(after_calls(fresh::<V>(n), calls)).len() == n,
        forall|j: int|
            0 <= j < f ==> (#[trigger] after_build(after_calls(fresh::<V>(n), calls))[j]) is None,
        forall|j: int|
            f <= j < n ==> (#[trigger] after_build(after_calls(fresh::<V>(n), calls))[j])
                == after_calls(fresh::<V>(n), calls)[j],
{
    let s = after_calls(fresh::<V>(n), calls);
    lemma_after_calls(fresh::<V>(n), calls);
    assert(s[f] is None);
    assert forall|j: int| 0 <= j < f implies reached(s, j) by {}
    assert forall|j: int| f < j < n implies !reached(s, j) by {
        assert(s[f] is None);
    }
}

/// When the calls go to fewer than `n` different setters, some field's setter
/// was not called, and so there is a first such field.
pub proof fn lemma_fewer_setters_leave_a_field<V>(n: nat, calls: Seq<(int, V)>) -> (f: int)
    requires
        in_range(calls, n),
        slots_called(calls).to_set().len() < n,
    ensures
        is_first_unset(calls, n, f),
{
    let idx = slots_called(calls);
    let range = vstd::set_lib::set_int_range(0, n as int);
    vstd::seq_lib::seq_to_set_is_finite(idx);
    vstd::set_lib::lemma_int_range(0, n as int);
    if forall|j: int| 0 <= j < n ==> called(calls, j) {
        assert forall|j: int| range.contains(j) implies idx.to_set().contains(j) by {
            assert(called(calls, j));
            let k = choose|k: int| 0 <= k < calls.len() && (#[trigger] calls[k]).0 == j;
            assert(idx[k] == j);
        }
        vstd::set_lib::lemma_len_subset(range, idx.to_set());
        assert(false);
    }
    let u = choose|j: int| 0 <= j < n && !called(calls, j);
    lemma_first_unset(n, calls, u)
}

/// Below a field whose setter was not called stands the first such field.
pub proof fn lemma_first_unset<V>(n: nat, calls: Seq<(int, V)>, u: int) -> (f: int)
    requires
        0 <= u < n,
        !called(calls, u),
    ensures
        is_first_unset(calls, n, f),
        f <= u,
    decreases u,
{
    if exists|j: int| 0 <= j < u && !called(calls, j) {
        let j = choose|j: int| 0 <= j < u && !called(calls, j);
        lemma_first_unset(n, calls, j)
    } else {
        u
    }
}

/// A builder without fields: the finalizer returns the empty record from
/// every state, and there is nothing for it to change.
pub proof fn lemma_no_fields<V>(slots: Seq<Option<V>>)
    requires
        slots.len() == 0,
    ensures
        build_result(slots) == Some(Seq::<V>::empty()),
        after_build(slots) == slots,
{
    assert(record_of(slots) =~= Seq::<V>::empty());
    assert(after_build(slots) =~= slots);
}

} // verus!
