//! Append-only stores addressed by integer handles.
use vstd::prelude::*;

verus! {

/// An append-only store of values; each value is addressed by the index at
/// which it was inserted, and no value is ever removed.
pub struct Arena<T> {
    items: Vec<T>,
}

impl<T> View for Arena<T> {
    type V = Seq<T>;

    closed spec fn view(&self) -> Seq<T> {
        self.items@
    }
}

impl<T> Arena<T> {
    /// An empty store.
    pub fn new() -> (r: Self)
        ensures
            r@ == Seq::<T>::empty(),
    {
        Arena { items: Vec::new() }
    }

    /// Number of values stored so far; also the handle the next insertion gets.
    pub fn len(&self) -> (r: usize)
        ensures
            r == self@.len(),
    {
        self.items.len()
    }

    /// Appends `value` and returns its handle.
    pub fn insert(&mut self, value: T) -> (r: usize)
        requires
            old(self)@.len() < usize::MAX,
        ensures
            r == old(self)@.len(),
            final(self)@ == old(self)@.push(value),
    {
        let r = self.items.len();
        self.items.push(value);
        r
    }

    /// The value stored under `id`.
    pub fn get(&self, id: usize) -> (r: &T)
        requires
            id < self@.len(),
        ensures
            *r == self@[id as int],
    {
        &self.items[id]
    }

    /// Mutable access to the value stored under `id`; the other values stay.
    pub fn get_mut(&mut self, id: usize) -> (r: &mut T)
        requires
            id < old(self)@.len(),
        ensures
            *r == old(self)@[id as int],
            final(self)@ == old(self)@.update(id as int, *final(r)),
    {
        &mut self.items[id]
    }
}

/// A store of values that only grows: readers get shared access alone, and
/// new values come in through the crate, which keeps the owner's invariant.
pub struct Interner<T> {
    arena: Arena<T>,
}

impl<T> View for Interner<T> {
    type V = Seq<T>;

    closed spec fn view(&self) -> Seq<T> {
        self.arena@
    }
}

impl<T> Interner<T> {
    /// An empty store.
    pub(crate) fn new() -> (r: Self)
        ensures
            r@ == Seq::<T>::empty(),
    {
        Interner { arena: Arena::new() }
    }

    /// Number of values stored so far; also the handle the next insertion gets.
    pub fn len(&self) -> (r: usize)
        ensures
            r == self@.len(),
    {
        self.arena.len()
    }

    /// Appends `value` and returns its handle.
    pub(crate) fn insert(&mut self, value: T) -> (r: usize)
        requires
            old(self)@.len() < usize::MAX,
        ensures
            r == old(self)@.len(),
            final(self)@ == old(self)@.push(value),
    {
        self.arena.insert(value)
    }

    /// The value stored under `id`.
    pub fn get(&self, id: usize) -> (r: &T)
        requires
            id < self@.len(),
        ensures
            *r == self@[id as int],
    {
        self.arena.get(id)
    }
}

} // verus!
