//! Factories: values that create any number of instances of one type.
//!
//! A [`Factory`] has one operation, `create`. What it may hand out is a
//! relation, `produces`, because the construction that a factory rests on
//! (`Default::default`, `Clone::clone`) is itself known only by its contract.

use core::marker::PhantomData;
use vstd::prelude::*;

mod cell;
pub mod laws;
mod swappable;

pub use swappable::SwappableFactory;

verus! {

/// The capability to create any number of instances of `Item`.
pub trait Factory {
    /// The type of the instances that this factory creates.
    type Item;

    /// Whether `item` is an instance that `create` may hand out.
    spec fn produces(&self, item: Self::Item) -> bool;

    /// Creates an instance. It never fails and leaves the factory as it was.
    fn create(&self) -> (item: Self::Item)
        ensures
            self.produces(item),
    ;
}

/// A boxed factory is the factory in the box: it hands out what that one does,
/// and nothing else.
impl<T: ?Sized + Factory> Factory for Box<T> {
    type Item = T::Item;

    open spec fn produces(&self, item: Self::Item) -> bool {
        (**self).produces(item)
    }

    fn create(&self) -> (item: Self::Item)
        ensures
            (**self).produces(item),
    {
        (**self).create()
    }
}

/// A factory of the default value of `T`. It holds no data, so it is shared
/// between threads wherever a `T` may be.
#[derive(Debug)]
pub struct DefaultFactory<T>(PhantomData<T>);

impl<T: Default> DefaultFactory<T> {
    /// Makes a new `DefaultFactory`: the factory whose instances are exactly
    /// the values that `T::default()` returns.
    pub fn new() -> (factory: Self)
        ensures
            forall|item: T| factory.produces(item) <==> call_ensures(T::default, (), item),
    {
        DefaultFactory(PhantomData)
    }
}

impl<T: Default> Factory for DefaultFactory<T> {
    type Item = T;

    open spec fn produces(&self, item: T) -> bool {
        call_ensures(T::default, (), item)
    }

    /// Builds a fresh default value on every call.
    fn create(&self) -> (item: T)
        ensures
            call_ensures(T::default, (), item),
    {
        T::default()
    }
}

impl<T: Default> Default for DefaultFactory<T> {
    /// The same factory as `new` makes.
    fn default() -> (factory: Self)
        ensures
            forall|item: T| factory.produces(item) <==> call_ensures(T::default, (), item),
    {
        DefaultFactory(PhantomData)
    }
}

impl<T> Clone for DefaultFactory<T> {
    /// There is nothing to copy: the clone is the same factory.
    fn clone(&self) -> (copy: Self)
        ensures
            copy == *self,
    {
        DefaultFactory(PhantomData)
    }
}

/// A factory that hands out clones of one value, its template.
#[derive(Debug)]
pub struct CloneFactory<T>(T);

impl<T> View for CloneFactory<T> {
    type V = T;

    /// The template.
    closed spec fn view(&self) -> T {
        self.0
    }
}

impl<T: Clone> CloneFactory<T> {
    /// Makes a new `CloneFactory` whose template is `original`.
    pub fn new(original: T) -> (factory: Self)
        ensures
            factory@ == original,
    {
        CloneFactory(original)
    }

    /// Returns a reference to the template.
    pub fn get_ref(&self) -> (template: &T)
        ensures
            *template == self@,
    {
        &self.0
    }

    /// Returns a mutable reference to the template. What the caller leaves
    /// behind it is the template from then on.
    pub fn get_mut(&mut self) -> (template: &mut T)
        ensures
            *template == old(self)@,
            final(self)@ == *final(template),
    {
        &mut self.0
    }
}

impl<T: Clone> Factory for CloneFactory<T> {
    type Item = T;

    open spec fn produces(&self, item: T) -> bool {
        cloned(self@, item)
    }

    /// Clones the template, which stays as it was.
    fn create(&self) -> (item: T)
        ensures
            cloned(self@, item),
    {
        self.0.clone()
    }
}

impl<T: Default> Default for CloneFactory<T> {
    /// The factory whose template is a default value of `T`.
    fn default() -> (factory: Self)
        ensures
            call_ensures(T::default, (), factory@),
    {
        CloneFactory(T::default())
    }
}

impl<T: Clone> Clone for CloneFactory<T> {
    /// The clone has a template of its own, cloned from this one.
    fn clone(&self) -> (copy: Self)
        ensures
            cloned(self@, copy@),
    {
        CloneFactory(self.0.clone())
    }
}

} // verus!
