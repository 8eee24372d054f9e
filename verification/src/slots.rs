//! The mathematical model of a run of element slots.
//!
//! A slot is an `Option<T>`: `None` for an empty slot, `Some(v)` for a slot
//! that holds `v`. A run of slots is a `Seq<Option<T>>`. Reads and writes are
//! total: a read outside the run yields nothing and a write outside the run
//! changes nothing.

use vstd::prelude::*;

verus! {

/// The run of `len` slots in which every slot is empty.
pub open spec fn all_empty<T>(len: nat) -> Seq<Option<T>> {
    Seq::new(len, |position: int| None::<T>)
}

/// What a read at `position` yields: the content of the slot when the
/// position lies inside the run, and nothing when it lies outside.
pub open spec fn slot_at<T>(slots: Seq<Option<T>>, position: int) -> Option<T> {
    if 0 <= position < slots.len() {
        slots[position]
    } else {
        None
    }
}

/// The run after a write of `value` at `position`: the slot at `position`
/// holds `value` and every other slot is as it was. A write outside the run
/// changes nothing.
pub open spec fn with_slot<T>(slots: Seq<Option<T>>, position: int, value: T) -> Seq<Option<T>> {
    if 0 <= position < slots.len() {
        slots.update(position, Some(value))
    } else {
        slots
    }
}

/// Every slot of the run holds a clone of `value`, and none is empty.
pub open spec fn all_cloned_from<T: Clone>(slots: Seq<Option<T>>, value: T) -> bool {
    forall|position: int|
        0 <= position < slots.len() ==> (#[trigger] slots[position]) is Some && cloned(
            value,
            slots[position]->0,
        )
}

/// `T::clone` only ever returns a value equal to the one it was called on.
///
/// This holds of the integers, `bool`, `char` and of every other type whose
/// `clone` promises as much in its contract. It fails for a type whose `clone`
/// resets or renumbers a field.
pub open spec fn clone_is_exact<T: Clone>() -> bool {
    forall|original: T, copy: T| #[trigger] cloned(original, copy) ==> original == copy
}

/// A fresh run has the length it was asked for.
pub proof fn lemma_all_empty_len<T>(len: nat)
    ensures
        all_empty::<T>(len).len() == len,
{
}

/// A read of a fresh run yields nothing, at every position.
pub proof fn lemma_all_empty_reads_none<T>(len: nat, position: int)
    ensures
        slot_at(all_empty::<T>(len), position) is None,
{
}

/// A read at a position inside the run, after a write at that position,
/// yields the value written.
pub proof fn lemma_read_after_write<T>(slots: Seq<Option<T>>, position: int, value: T)
    requires
        0 <= position < slots.len(),
    ensures
        slot_at(with_slot(slots, position, value), position) == Some(value),
{
}

/// A write keeps the length of the run, and a read at any other position
/// yields what it yielded before the write.
pub proof fn lemma_write_keeps_other_slots<T>(
    slots: Seq<Option<T>>,
    position: int,
    value: T,
    other: int,
)
    requires
        other != position,
    ensures
        with_slot(slots, position, value).len() == slots.len(),
        slot_at(with_slot(slots, position, value), other) == slot_at(slots, other),
{
}

/// A write at a position outside the run leaves the run as it was.
pub proof fn lemma_write_out_of_range<T>(slots: Seq<Option<T>>, position: int, value: T)
    requires
        !(0 <= position < slots.len()),
    ensures
        with_slot(slots, position, value) == slots,
{
}

/// A read at a position outside the run yields nothing, which is what a read
/// of an empty slot inside the run yields too.
pub proof fn lemma_read_out_of_range<T>(slots: Seq<Option<T>>, outside: int, inside: int)
    requires
        !(0 <= outside < slots.len()),
    ensures
        slot_at(slots, outside) is None,
        0 <= inside < slots.len() && slots[inside] is None ==> slot_at(slots, inside) == slot_at(
            slots,
            outside,
        ),
{
}

/// A read at a position inside a run that was filled from `value` yields a
/// clone of `value`, never nothing. Where `T::clone` is exact, it yields
/// `value` itself.
pub proof fn lemma_read_after_fill<T: Clone>(slots: Seq<Option<T>>, value: T, position: int)
    requires
        all_cloned_from(slots, value),
        0 <= position < slots.len(),
    ensures
        slot_at(slots, position) is Some,
        cloned(value, slot_at(slots, position)->0),
        clone_is_exact::<T>() ==> slot_at(slots, position) == Some(value),
{
}

/// The slots of a run that was filled from `value` do not depend on one
/// another: after a later write at one position, a read at any other
/// position inside the run still yields a clone of `value`.
pub proof fn lemma_filled_slots_are_independent<T: Clone>(
    slots: Seq<Option<T>>,
    value: T,
    position: int,
    replacement: T,
    other: int,
)
    requires
        all_cloned_from(slots, value),
        0 <= other < slots.len(),
        other != position,
    ensures
        slot_at(with_slot(slots, position, replacement), other) is Some,
        cloned(value, slot_at(with_slot(slots, position, replacement), other)->0),
{
}

} // verus!
