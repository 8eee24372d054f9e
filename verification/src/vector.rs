//! A vector with a fixed size.

use vstd::prelude::*;
use crate::slots::{all_cloned_from, all_empty, slot_at, with_slot};

verus! {

/// A vector with a fixed size.
///
/// The vector owns `size` slots, numbered from 0. Each slot is empty or holds
/// one value. The number of slots is chosen when the vector is built and
/// stays the same for as long as the vector lives.
///
/// In contracts a vector is seen as the run of its slots, `self@`.
pub struct Vector<T> {
    size: usize,
    data: Vec<Option<T>>,
}

impl<T> View for Vector<T> {
    type V = Seq<Option<T>>;

    closed spec fn view(&self) -> Seq<Option<T>> {
        self.data@
    }
}

impl<T> Vector<T> {
    /// There is at least one slot, and `size` counts the slots.
    #[verifier::type_invariant]
    spec fn well_formed(self) -> bool {
        &&& self.size >= 1
        &&& self.data@.len() == self.size
    }
}

impl<T: Clone> Vector<T> {
    /// Creates a vector with `size` slots, all of them empty.
    ///
    /// A vector without slots is not allowed: `size` must be at least 1.
    pub fn new(size: usize) -> (vector: Self)
        requires
            size >= 1,
        ensures
            vector@.len() == size,
            vector@ == all_empty::<T>(size as nat),
    {
        let mut data: Vec<Option<T>> = Vec::new();
        data.resize(size, None);

        Self { size, data }
    }

    /// Returns the number of slots of the vector.
    ///
    /// The contract also tells the caller what every vector keeps true of
    /// itself: it has at least one slot.
    pub fn size(&self) -> (size: usize)
        ensures
            size == self@.len(),
            size >= 1,
    {
        proof {
            use_type_invariant(self);
        }
        self.size
    }

    /// Returns a reference to the value at `position`.
    ///
    /// Returns `None` if the slot is empty, and also if `position` is not a
    /// position of the vector: the two cases look the same to the caller.
    pub fn get(&self, position: usize) -> (found: Option<&T>)
        ensures
            (match found {
                Some(value) => slot_at(self@, position as int) == Some(*value),
                None => slot_at(self@, position as int) is None,
            }),
    {
        self.data.get(position)?.as_ref()
    }

    /// Moves `value` into the slot at `position`, replacing what the slot
    /// held.
    ///
    /// If `position` is not a position of the vector, nothing is stored and
    /// the vector stays as it was.
    pub fn set(&mut self, position: usize, value: T)
        ensures
            final(self)@ == with_slot(old(self)@, position as int, value),
    {
        proof {
            use_type_invariant(&*self);
        }
        if position < self.data.len() {
            self.data[position] = Some(value);
        }
    }

    /// Stores a clone of `value` in every slot of the vector, so that no
    /// slot is empty afterwards. `value` itself is left with the caller.
    pub fn set_all_to(&mut self, value: &T)
        ensures
            final(self)@.len() == old(self)@.len(),
            all_cloned_from(final(self)@, *value),
    {
        proof {
            use_type_invariant(&*self);
        }
        let mut position: usize = 0;
        while position < self.size
            invariant
                self.well_formed(),
                self.size == old(self).size,
                position <= self.size,
                forall|done: int|
                    0 <= done < position ==> (#[trigger] self.data@[done]) is Some && cloned(
                        *value,
                        self.data@[done]->0,
                    ),
            decreases self.size - position,
        {
            let copy = value.clone();
            self.data[position] = Some(copy);
            position += 1;
        }
    }
}

} // verus!
