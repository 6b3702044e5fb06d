//! A one-slot hand-over between a background writer and the render loop.

use vstd::prelude::*;

verus! {

/// A slot that a background operation fills once when it completes and that
/// the render loop empties when it polls. Mutual exclusion between the two is
/// the caller's lock; the slot itself only keeps the value.
pub struct HandoffCell<T> {
    slot: Option<T>,
}

impl<T> View for HandoffCell<T> {
    type V = Option<T>;

    closed spec fn view(&self) -> Option<T> {
        self.slot
    }
}

impl<T> HandoffCell<T> {
    /// An empty cell.
    pub fn new() -> (cell: HandoffCell<T>)
        ensures
            cell@ == None::<T>,
    {
        HandoffCell { slot: None }
    }

    /// Puts `value` into the cell. A value not yet taken is overwritten.
    pub fn write(&mut self, value: T)
        ensures
            final(self)@ == Some(value),
    {
        self.slot = Some(value);
    }

    /// Takes what the cell holds and leaves it empty. On an empty cell this
    /// returns `None` and changes nothing.
    pub fn read_and_clear(&mut self) -> (taken: Option<T>)
        ensures
            taken == old(self)@,
            final(self)@ == None::<T>,
    {
        self.slot.take()
    }
}

} // verus!
