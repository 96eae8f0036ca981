//! Cells: a value that can be read and replaced in place

use vstd::prelude::*;

verus! {

/// A cell holding a `Copy` value
#[derive(Clone, Copy)]
pub struct Cell<T: Copy> {
    value: T,
}

impl<T: Copy> View for Cell<T> {
    type V = T;

    closed spec fn view(&self) -> T {
        self.value
    }
}

impl<T: Copy> Cell<T> {
    /// A cell holding `value`
    pub fn new(value: T) -> (c: Self)
        ensures
            c@ == value,
    {
        Self { value }
    }

    /// The value held
    pub fn get(&self) -> (v: T)
        ensures
            v == self@,
    {
        self.value
    }

    /// Hold `value` from now on
    pub fn set(&mut self, value: T)
        ensures
            final(self)@ == value,
    {
        self.value = value;
    }

    /// Hold `value` from now on and return the value held until now
    pub fn replace(&mut self, value: T) -> (v: T)
        ensures
            v == old(self)@,
            final(self)@ == value,
    {
        let v = self.value;
        self.value = value;
        v
    }

    /// The value held, consuming the cell
    pub fn into_inner(self) -> (v: T)
        ensures
            v == self@,
    {
        self.value
    }

    /// Replace the value held by what `update` makes of it, and return the
    /// new value
    pub fn update<F>(&mut self, update: F) -> (v: T) where F: FnOnce(T) -> T
        requires
            update.requires((old(self)@,)),
        ensures
            update.ensures((old(self)@,), v),
            final(self)@ == v,
    {
        let value = update(self.get());
        self.set(value);
        value
    }
}

/// A value reached through a shared handle
pub struct UnsafeCell<T> {
    data: T,
}

impl<T> View for UnsafeCell<T> {
    type V = T;

    closed spec fn view(&self) -> T {
        self.data
    }
}

impl<T> UnsafeCell<T> {
    /// A cell holding `data`
    pub fn new(data: T) -> (c: Self)
        ensures
            c@ == data,
    {
        Self { data }
    }

    /// A shared reference to the value
    pub fn get(&self) -> (r: &T)
        ensures
            *r == self@,
    {
        &self.data
    }

    /// A unique reference to the value; what is written through it is what
    /// the cell holds afterwards
    pub fn get_mut(&mut self) -> (r: &mut T)
        ensures
            *r == old(self)@,
            final(self)@ == *final(r),
    {
        &mut self.data
    }

    /// The value held, consuming the cell
    pub fn into_inner(self) -> (v: T)
        ensures
            v == self@,
    {
        self.data
    }
}

} // verus!
