//! Small exercises with closures and function values.

use vstd::prelude::*;

verus! {

/// A pair of numbers together with a function that picks one of them.
pub struct Closure<F> {
    data: (u8, u16),
    func: F,
}

impl<F> Closure<F> where F: Fn(&(u8, u16)) -> &u8 {
    /// Pairs `data` with the picking function `func`.
    pub fn new(data: (u8, u16), func: F) -> (c: Closure<F>)
        ensures
            c.data() == data,
            c.func() == func,
    {
        Closure { data, func }
    }

    /// The stored pair.
    pub closed spec fn data(&self) -> (u8, u16) {
        self.data
    }

    /// The stored function.
    pub closed spec fn func(&self) -> F {
        self.func
    }

    /// Applies the stored function to the stored pair.
    pub fn call(&self) -> (r: &u8)
        requires
            call_requires(self.func(), (&self.data(),)),
        ensures
            call_ensures(self.func(), (&self.data(),), r),
    {
        (self.func)(&self.data)
    }
}

/// A function of two numbers, kept to be called later.
pub struct Testing<F> {
    data: F,
}

impl<F> Testing<F> where F: Fn(u8, u16) -> u8 {
    /// Keeps the function `data`.
    pub fn new(data: F) -> (t: Testing<F>)
        ensures
            t.func() == data,
    {
        Testing { data }
    }

    /// The kept function.
    pub closed spec fn func(&self) -> F {
        self.data
    }

    /// Calls the kept function on `a` and `b`.
    pub fn call(&self, a: u8, b: u16) -> (r: u8)
        requires
            call_requires(self.func(), (a, b)),
        ensures
            call_ensures(self.func(), (a, b), r),
    {
        (self.data)(a, b)
    }
}

/// The first component of a pair.
pub fn do_it(data: &(u8, u16)) -> (r: &u8)
    ensures
        *r == data.0,
{
    &data.0
}

} // verus!
