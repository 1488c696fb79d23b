use std::sync::atomic::Ordering;
use vstd::prelude::*;

verus! {

/// A slot that always holds one live, heap-allocated `T`.
///
/// The exchanging operations take `&mut self`: the borrow checker makes each
/// of them exclusive, so the replacements of one container form a total
/// order, and no view handed out by `as_ref` or `as_mut` can outlive a
/// replacement of the value it points into. The `Ordering` parameters are
/// what the caller asks of the access; an exclusive borrow already carries
/// the synchronisation that handed it out, so every ordering is met.
pub struct Atomic<T> {
    slot: Box<T>,
}

impl<T> View for Atomic<T> {
    type V = T;

    /// The value the slot currently holds.
    closed spec fn view(&self) -> T {
        *self.slot
    }
}

impl<T> Atomic<T> {
    /// Moves `value` into freshly allocated storage held by the new slot.
    pub fn new(value: T) -> (r: Atomic<T>)
        ensures
            r@ == value,
    {
        Atomic { slot: Box::new(value) }
    }

    /// Replaces the held value with `value` and hands the displaced value to
    /// the caller, who owns it from then on.
    pub fn swap(&mut self, value: T, order: Ordering) -> (r: T)
        ensures
            r == old(self)@,
            final(self)@ == value,
    {
        let mut slot = Box::new(value);
        std::mem::swap(&mut self.slot, &mut slot);
        *slot
    }

    /// Replaces the held value with `value`; the displaced value is released
    /// here.
    pub fn store(&mut self, value: T, order: Ordering)
        ensures
            final(self)@ == value,
    {
        self.swap(value, order);
    }

    /// A shared view of the held value, for as long as `self` is borrowed.
    pub fn as_ref(&self, order: Ordering) -> (r: &T)
        ensures
            *r == self@,
    {
        &self.slot
    }

    /// A mutable view of the held value; writes through it become the held
    /// value.
    pub fn as_mut(&mut self, order: Ordering) -> (r: &mut T)
        ensures
            *r == old(self)@,
            final(self)@ == *final(r),
    {
        &mut self.slot
    }

    /// Gives up the slot, handing its value to the caller.
    pub fn into_inner(self) -> (r: T)
        ensures
            r == self@,
    {
        *self.slot
    }
}

impl<T: Default> Default for Atomic<T> {
    /// A slot holding `T::default()`.
    fn default() -> (r: Atomic<T>)
        ensures
            T::default.ensures((), r@),
    {
        Atomic::new(T::default())
    }
}

} // verus!
