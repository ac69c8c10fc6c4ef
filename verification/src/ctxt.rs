//! Interrupt / Exception context

use core::marker::PhantomData;
use vstd::prelude::*;

verus! {

/// Data local to a context
pub struct Local<T, Ctxt> where Ctxt: Context {
    _ctxt: PhantomData<Ctxt>,
    data: T,
}

impl<T, Ctxt> View for Local<T, Ctxt> where Ctxt: Context {
    type V = T;

    /// The data that the context owns.
    closed spec fn view(&self) -> T {
        self.data
    }
}

impl<T, Ctxt> Local<T, Ctxt> where Ctxt: Context {
    /// The context local data that `new` makes of `value`.
    pub closed spec fn spec_new(value: T) -> Self {
        Local { _ctxt: PhantomData, data: value }
    }

    /// Initializes context local data
    pub fn new(value: T) -> (local: Self)
        ensures
            local == Self::spec_new(value),
            local@ == value,
    {
        Local { _ctxt: PhantomData, data: value }
    }

    /// Acquires a reference to the context local data
    pub fn borrow<'a>(&'static self, _ctxt: &'a Ctxt) -> (data: &'a T)
        ensures
            *data == self@,
    {
        &self.data
    }

    /// Data that was just initialized is lent out as it was given, whichever
    /// token of the context asks for it.
    pub proof fn lemma_new_then_borrow(value: T)
        ensures
            Self::spec_new(value)@ == value,
    {
    }
}

/// A token unique to a context
pub trait Context {

}

} // verus!
