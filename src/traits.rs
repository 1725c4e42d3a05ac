use vstd::prelude::*;

use crate::error::ArgumentError;

verus! {

/// A dynamically typed datum of an embedding, able to report its own type tag;
/// cloned where it is shared.
///
/// An implementation that leaves one of its spec functions undefined (as any
/// implementation written outside `verus!` does) gets the default written
/// here; a default of `arbitrary()` is one fixed value, the same for every
/// argument, of which nothing is known.
pub trait Value: Sized + Clone {
    /// The tag that describes which variant a value is.
    type Type: core::fmt::Debug;

    /// The tag of this value.
    open spec fn type_of(&self) -> Self::Type {
        arbitrary()
    }

    fn get_type(&self) -> (t: Self::Type)
        ensures
            t == self.type_of(),
    ;
}

/// A native type whose values all carry one static type tag.
///
/// An implementation that leaves one of its spec functions undefined (as any
/// implementation written outside `verus!` does) gets the default written
/// here; a default of `arbitrary()` is one fixed value, the same for every
/// argument, of which nothing is known.
pub trait Typed<V: Value> {
    open spec fn static_type() -> V::Type {
        arbitrary()
    }

    fn get_type() -> (t: V::Type)
        ensures
            t == Self::static_type(),
    ;
}

/// Borrowed conversion from a value into a native type; a value of another
/// variant is refused with an argument error, never coerced.
///
/// An implementation that leaves one of its spec functions undefined (as any
/// implementation written outside `verus!` does) gets the default written
/// here; a default of `arbitrary()` is one fixed value, the same for every
/// argument, of which nothing is known.
pub trait FromValue<'a, V: Value>: Sized {
    open spec fn from_value_spec(value: &'a V) -> Result<Self, ArgumentError<V>> {
        arbitrary()
    }

    fn from_value(value: &'a V) -> (r: Result<Self, ArgumentError<V>>)
        ensures
            r == Self::from_value_spec(value),
    ;
}

/// Conversion from a native type into a value.
///
/// An implementation that leaves one of its spec functions undefined (as any
/// implementation written outside `verus!` does) gets the default written
/// here; a default of `arbitrary()` is one fixed value, the same for every
/// argument, of which nothing is known.
pub trait IntoValue<V>: Sized {
    open spec fn into_value_spec(self) -> V {
        arbitrary()
    }

    fn into_value(self) -> (r: V)
        ensures
            r == self.into_value_spec(),
    ;
}

} // verus!
