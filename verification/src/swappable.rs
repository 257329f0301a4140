//! A factory whose inner factory can be replaced while it is in use.
//!
//! The factory in use lives in a cell that every clone of the handle shares.
//! Any of them may replace it at any moment, through a shared reference, so
//! which factory a call meets is no function of the handle. The contracts here
//! therefore state what holds of every factory that the cell may hold. A
//! caller that needs more takes a snapshot with `get` and calls `create` on
//! it: the contract of that call speaks of the snapshot itself.

use crate::Factory;
use crate::cell::share;
use atomic_immut::AtomicImmut;
use std::sync::Arc;
use vstd::prelude::*;

verus! {

/// A handle to a cell that holds the factory in use. Clones of a handle share
/// the cell: a `swap` through one of them is seen through all.
#[derive(Debug)]
#[verifier::reject_recursive_types(T)]
pub struct SwappableFactory<T>(Arc<AtomicImmut<T>>);

impl<T: Factory> SwappableFactory<T> {
    /// Makes a new `SwappableFactory`, in a cell of its own, with `inner` in use.
    pub fn new(inner: T) -> (handle: Self) {
        SwappableFactory(Arc::new(AtomicImmut::new(inner)))
    }

    /// Returns the factory in use at the moment of the call. The snapshot
    /// stays what it is, whatever is swapped in afterwards.
    pub fn get(&self) -> (current: Arc<T>) {
        self.0.load()
    }

    /// Puts `new` in use, for every handle of the cell, and returns the
    /// factory that was in use until then.
    pub fn swap(&self, new: T) -> (previous: Arc<T>) {
        self.0.swap(new)
    }
}

impl<T: Factory> Factory for SwappableFactory<T> {
    type Item = T::Item;

    /// An instance that some factory of type `T` may hand out.
    open spec fn produces(&self, item: Self::Item) -> bool {
        exists|inner: T| inner.produces(item)
    }

    /// Takes the factory in use and lets it create the instance.
    fn create(&self) -> (item: Self::Item)
        ensures
            exists|inner: T| inner.produces(item),
    {
        let current = self.0.load();
        let item = current.create();
        assert((*current).produces(item));
        item
    }
}

impl<T> Clone for SwappableFactory<T> {
    /// The clone is a handle to the same cell.
    fn clone(&self) -> (copy: Self)
        ensures
            copy == *self,
    {
        SwappableFactory(share(&self.0))
    }
}

impl<T: Default> Default for SwappableFactory<T> {
    /// A handle to a new cell with a default value of `T` in use.
    fn default() -> (handle: Self) {
        SwappableFactory(Arc::new(AtomicImmut::new(T::default())))
    }
}

} // verus!
