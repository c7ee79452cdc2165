use vstd::prelude::*;

use crate::types::EfiAddress;

verus! {

/// `spin::Once`, the exactly-once cell of the spin crate, held opaque.
#[verifier::external_type_specification]
#[verifier::external_body]
#[verifier::reject_recursive_types(T)]
#[verifier::reject_recursive_types(R)]
pub struct ExOnce<T, R>(spin::once::Once<T, R>);

/// `spin::relax::Spin`, the default waiting strategy of `spin::Once`, held
/// opaque.
#[verifier::external_type_specification]
#[verifier::external_body]
pub struct ExSpin(spin::relax::Spin);

/// The value that a `spin::Once` holding an address has been given, if any.
pub uninterp spec fn once_value(o: spin::Once<usize>) -> Option<usize>;

/// Relies on `spin::Once::new`: a new cell holds nothing.
#[verifier::external_body]
fn once_new() -> (r: spin::Once<usize>)
    ensures
        once_value(r) == None::<usize>,
{
    spin::Once::new()
}

/// Relies on `spin::Once::get`: it returns the value the cell was given, if any.
#[verifier::external_body]
fn once_get(o: &spin::Once<usize>) -> (r: Option<usize>)
    ensures
        r == once_value(*o),
{
    o.get().copied()
}

/// Relies on `spin::Once::call_once`: an empty cell takes the value and keeps
/// it; a cell that holds a value keeps it and ignores the new one. Either way
/// the value now held is returned. The closure cannot panic, so the cell is
/// never poisoned.
#[verifier::external_body]
fn once_call(o: &mut spin::Once<usize>, v: usize) -> (r: usize)
    ensures
        once_value(*old(o)) matches Some(x) ==> (r == x && *final(o) == *old(o)),
        once_value(*old(o)) is None ==> r == v && once_value(*final(o)) == Some(v),
{
    *o.call_once(move || v)
}

/// A slot that is written at most once and read any number of times after.
/// It holds the address of a firmware table.
pub struct EfiGlobal {
    inner: spin::Once<usize>,
}

impl View for EfiGlobal {
    type V = Option<EfiAddress>;

    closed spec fn view(&self) -> Option<EfiAddress> {
        once_value(self.inner)
    }
}

impl EfiGlobal {
    pub fn new() -> (r: Self)
        ensures
            r@ == None::<EfiAddress>,
    {
        EfiGlobal { inner: once_new() }
    }

    /// Writes the slot if it is empty; returns what the slot holds afterwards.
    pub fn init(&mut self, val: EfiAddress) -> (r: EfiAddress)
        ensures
            old(self)@ matches Some(x) ==> (r == x && *final(self) == *old(self)),
            old(self)@ is None ==> r == val && final(self)@ == Some(val),
    {
        once_call(&mut self.inner, val)
    }

    pub fn get(&self) -> (r: Option<EfiAddress>)
        ensures
            r == self@,
    {
        once_get(&self.inner)
    }

    /// Whether the slot has been written.
    pub fn is_set(&self) -> (r: bool)
        ensures
            r == self@ is Some,
    {
        once_get(&self.inner).is_some()
    }
}

} // verus!
