//! A cell that is written at most once.

use vstd::prelude::*;

verus! {

/// A cell that is empty until the first write and keeps that value from then on.
pub struct OnceCell<T> {
    slot: Option<T>,
}

impl<T> View for OnceCell<T> {
    type V = Option<T>;

    closed spec fn view(&self) -> Option<T> {
        self.slot
    }
}

impl<T> OnceCell<T> {
    /// An empty cell.
    pub fn new() -> (cell: OnceCell<T>)
        ensures
            cell@ is None,
    {
        OnceCell { slot: None }
    }

    /// The value, once there is one.
    pub fn get(&self) -> (value: Option<&T>)
        ensures
            value == (match self@ {
                Some(v) => Some(&v),
                None => None,
            }),
    {
        match &self.slot {
            Some(v) => Some(v),
            None => None,
        }
    }

    /// Writes the value into an empty cell. A cell that holds one keeps it, and
    /// the rejected value comes back.
    pub fn set(&mut self, value: T) -> (outcome: Result<(), T>)
        ensures
            match old(self)@ {
                None => final(self)@ == Some(value) && outcome == Ok::<(), T>(()),
                Some(_) => *final(self) == *old(self) && outcome == Err::<(), T>(value),
            },
            final(self)@ == after_writes(old(self)@, seq![value]),
    {
        assert(seq![value].drop_last() =~= Seq::<T>::empty());
        assert(after_writes(self@, seq![value].drop_last()) == self@);
        if self.slot.is_some() {
            return Err(value);
        }
        self.slot = Some(value);
        Ok(())
    }
}

/// What a cell holds after a number of writes.
pub open spec fn after_writes<T>(held: Option<T>, writes: Seq<T>) -> Option<T>
    decreases writes.len(),
{
    if writes.len() == 0 {
        held
    } else {
        match after_writes(held, writes.drop_last()) {
            Some(value) => Some(value),
            None => Some(writes.last()),
        }
    }
}

/// The first write wins: a cell that holds a value keeps it through all writes, and
/// an empty one ends up with the first value that was written.
pub proof fn law_first_write_wins<T>(held: Option<T>, writes: Seq<T>)
    ensures
        held is Some ==> after_writes(held, writes) == held,
        held is None && writes.len() > 0 ==> after_writes(held, writes) == Some(writes[0]),
        held is None && writes.len() == 0 ==> after_writes(held, writes) is None,
    decreases writes.len(),
{
    if writes.len() > 0 {
        law_first_write_wins(held, writes.drop_last());
    }
}

} // verus!
