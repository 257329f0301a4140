//! What holds of the factories together, proved from their contracts.

use crate::CloneFactory;
use crate::DefaultFactory;
use crate::Factory;
use crate::SwappableFactory;
use vstd::prelude::*;

verus! {

/// `T::default()` has one value to return, `value`.
pub open spec fn default_is<T: Default>(value: T) -> bool {
    forall|other: T| call_ensures(T::default, (), other) ==> other == value
}

/// A clone of a `T` equals the value that it was cloned from.
pub open spec fn clones_are_equal<T: Clone>() -> bool {
    forall|original: T, copy: T| call_ensures(T::clone, (&original,), copy) ==> copy == original
}

/// Whatever a `DefaultFactory<T>` creates, at any call, is the default value
/// of `T`.
pub proof fn default_factory_creates_the_default<T: Default>(
    factory: DefaultFactory<T>,
    value: T,
    item: T,
)
    requires
        default_is(value),
        factory.produces(item),
    ensures
        item == value,
{
}

/// A `CloneFactory` creates what its template is at the moment of the call:
/// made from `first`, it creates `first`; once its template is `second`, it
/// creates `second`, and what it created before is still `first`.
pub proof fn clone_factory_creates_its_template<T: Clone>(
    before: CloneFactory<T>,
    after: CloneFactory<T>,
    first: T,
    second: T,
    earlier: T,
    later: T,
)
    requires
        clones_are_equal::<T>(),
        before@ == first,
        before.produces(earlier),
        after@ == second,
        after.produces(later),
    ensures
        earlier == first,
        later == second,
{
}

/// A boxed factory creates exactly what the factory in the box creates.
pub proof fn boxed_factory_is_transparent<T: Factory>(boxed: Box<T>, item: T::Item)
    ensures
        boxed.produces(item) <==> (*boxed).produces(item),
{
}

/// Behind a `SwappableFactory`, boxed factories create exactly what the
/// factories in the boxes do.
pub proof fn swappable_factory_sees_through_boxes<T: Factory>(
    plain: SwappableFactory<T>,
    boxed: SwappableFactory<Box<T>>,
    item: T::Item,
)
    ensures
        boxed.produces(item) <==> plain.produces(item),
{
    if plain.produces(item) {
        let inner = choose|inner: T| inner.produces(item);
        assert(Box::new(inner).produces(item));
    }
    if boxed.produces(item) {
        let inner = choose|inner: Box<T>| inner.produces(item);
        assert((*inner).produces(item));
    }
}

} // verus!
