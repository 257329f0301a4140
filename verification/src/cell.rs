//! What the library takes on trust from `atomic_immut` and from `Arc`.
//!
//! An `AtomicImmut<T>` is a cell that always holds one value of `T`, behind a
//! reference count. Every handle to the cell may replace the value at any
//! moment, so what the cell holds is no function of the handle: the contracts
//! below say nothing of which value a call meets.

use atomic_immut::AtomicImmut;
use std::sync::Arc;
use vstd::prelude::*;

verus! {

/// `AtomicImmut<T>`, taken as opaque.
#[verifier::external_type_specification]
#[verifier::external_body]
#[verifier::reject_recursive_types(T)]
pub struct ExAtomicImmut<T>(AtomicImmut<T>);

/// `AtomicImmut::new` makes a cell that holds `value`. Nothing is claimed of
/// the cell.
pub assume_specification<T>[ AtomicImmut::<T>::new ](value: T) -> (cell: AtomicImmut<T>);

/// `AtomicImmut::load` returns the value that the cell holds at the moment of
/// the call. Nothing is claimed of it.
pub assume_specification<T>[ AtomicImmut::<T>::load ](cell: &AtomicImmut<T>) -> (current: Arc<T>);

/// `AtomicImmut::swap` puts `value` into the cell and returns the value that
/// it held until then. Nothing is claimed of it.
pub assume_specification<T>[ AtomicImmut::<T>::swap ](cell: &AtomicImmut<T>, value: T) -> (previous:
    Arc<T>);

/// `Arc::clone` returns another pointer to the same allocation: the two point
/// to one value.
#[verifier::external_body]
pub(crate) fn share<T>(pointer: &Arc<T>) -> (shared: Arc<T>)
    ensures
        shared == *pointer,
{
    Arc::clone(pointer)
}

} // verus!
