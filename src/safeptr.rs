use vstd::prelude::*;

use crate::types::EfiAddress;

verus! {

/// A handle on an address handed over by the firmware, marked with the kind of
/// table that lives there. It holds the address and never reads through it:
/// whoever calls through the handle vouches that the table is still there.
pub struct ThreadSafePtr<T> {
    addr: EfiAddress,
    marker: core::marker::PhantomData<T>,
}

impl<T> ThreadSafePtr<T> {
    /// The address the handle was made from.
    pub closed spec fn addr(&self) -> EfiAddress {
        self.addr
    }

    pub fn new(addr: EfiAddress) -> (r: Self)
        ensures
            r.addr() == addr,
    {
        ThreadSafePtr { addr, marker: core::marker::PhantomData }
    }

    pub fn as_ptr(&self) -> (r: EfiAddress)
        ensures
            r == self.addr(),
    {
        self.addr
    }

    pub fn is_null(&self) -> (r: bool)
        ensures
            r == (self.addr() == 0),
    {
        self.addr == 0
    }
}

} // verus!
