//! Closures that carry their captured state explicitly

use vstd::prelude::*;
use std::marker::PhantomData;

verus! {

/// A function together with the value it captured
pub struct Closure<Capture, F> {
    capture: Capture,
    call: F,
}

impl<Capture, F> Closure<Capture, F> {
    /// The captured value
    pub closed spec fn capture_spec(&self) -> Capture {
        self.capture
    }

    /// The function called with the captured value
    pub closed spec fn func(&self) -> F {
        self.call
    }

    /// A closure calling `call` with `capture`
    pub fn new(capture: Capture, call: F) -> (c: Self)
        ensures
            c.capture_spec() == capture,
            c.func() == call,
    {
        Self { capture, call }
    }

    /// Call the function with the captured value and `args`
    pub fn call<Args, Output>(self, args: Args) -> (out: Output) where
        F: FnOnce(Capture, Args) -> Output,

        requires
            self.func().requires((self.capture_spec(), args)),
        ensures
            self.func().ensures((self.capture_spec(), args), out),
    {
        (self.call)(self.capture, args)
    }
}

/// A closure whose type says only what it takes and what it returns
pub struct OpaqueClosure<F, Args, Output>(F, PhantomData<(Args, Output)>);

impl<F: FnOnce(Args) -> Output, Args, Output> OpaqueClosure<F, Args, Output> {
    /// The wrapped function
    pub closed spec fn func(&self) -> F {
        self.0
    }

    /// Wrap `func`
    pub fn new(func: F) -> (c: Self)
        ensures
            c.func() == func,
    {
        Self(func, PhantomData)
    }

    /// Call the wrapped function with `args`
    pub fn call(self, args: Args) -> (out: Output)
        requires
            self.func().requires((args,)),
        ensures
            self.func().ensures((args,), out),
    {
        (self.0)(args)
    }
}

/// A function that can be handed out once, to be called once
pub struct FnCallOnce<F, Args, Output> {
    func: Option<F>,
    phantom: PhantomData<(Args, Output)>,
}

impl<F: FnOnce(Args) -> Output, Args, Output> FnCallOnce<F, Args, Output> {
    /// The function, until it has been handed out
    pub closed spec fn func(&self) -> Option<F> {
        self.func
    }

    /// Hold `func`
    pub fn new(func: F) -> (c: Self)
        ensures
            c.func() == Some(func),
    {
        Self { func: Some(func), phantom: PhantomData }
    }

    /// Hand out the function as a [`DynFnOnce`], which calls it in place.
    /// It can be handed out again until it has been called; once called it
    /// is gone.
    pub fn as_dyn(&mut self) -> (d: DynFnOnce<'_, F, Args, Output>)
        requires
            old(self).func() is Some,
        ensures
            d.func() == old(self).func(),
            final(self).func() == *final(d.slot),
    {
        DynFnOnce { slot: &mut self.func, phantom: PhantomData }
    }
}

/// A function that is called at most once, in the place it is held
pub struct DynFnOnce<'a, F, Args, Output> {
    /// Where the function is held
    pub slot: &'a mut Option<F>,
    pub phantom: PhantomData<(Args, Output)>,
}

impl<'a, F: FnOnce(Args) -> Output, Args, Output> DynFnOnce<'a, F, Args, Output> {
    /// The function to call
    pub open spec fn func(&self) -> Option<F> {
        *self.slot
    }

    /// Call the function with `args`; the place it was held in is left
    /// empty
    pub fn call_once(self, args: Args) -> (out: Output)
        requires
            self.func() is Some,
            self.func().unwrap().requires((args,)),
        ensures
            self.func().unwrap().ensures((args,), out),
            *final(self.slot) is None,
    {
        let func = self.slot.take().unwrap();
        func(args)
    }
}

} // verus!
