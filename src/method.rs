use vstd::prelude::*;

use crate::arguments::Arguments;
use crate::callable::output_spec;
use crate::callable::convert_output;
use crate::error::Error;
use crate::signature::{Parameters, Signature};
use crate::traits::{IntoValue, Typed, Value};

verus! {

/// What a method of a service on state `S` and context `C` declares of itself:
/// its parameter types and its return type.
///
/// An implementation that leaves one of its spec functions undefined (as any
/// implementation written outside `verus!` does) gets the default written
/// here; a default of `arbitrary()` is one fixed value, the same for every
/// argument, of which nothing is known.
pub trait Signed<S, C, V: Value> {
    open spec fn params_spec(&self) -> Seq<V::Type> {
        arbitrary()
    }

    open spec fn return_spec(&self) -> V::Type {
        arbitrary()
    }

    fn signature(&self) -> (s: Signature<V>)
        ensures
            s.params_spec() == self.params_spec(),
            s.return_type_spec() == Some(self.return_spec()),
    ;
}

/// A method of a service: callable like a `Callable`, with exclusive access to
/// the service's state for the length of the call.
///
/// An implementation that leaves one of its spec functions undefined (as any
/// implementation written outside `verus!` does) gets the default written
/// here; a default of `arbitrary()` is one fixed value, the same for every
/// argument, of which nothing is known.
pub trait MethodCallable<S, C, V: Value>: Signed<S, C, V> {
    /// The method may be called on every state, context and argument list.
    open spec fn accepts(&self) -> bool {
        arbitrary()
    }

    /// `out` is a possible result of calling through the borrows `this` and
    /// `ctx` (each carrying the value before and the value after) with `args`.
    open spec fn gives(&self, this: &mut S, ctx: &mut C, args: Seq<V>, out: Result<V, Error<V>>) -> bool {
        arbitrary()
    }

    fn call(&self, this: &mut S, ctx: &mut C, args: Arguments<V>) -> (r: Result<V, Error<V>>)
        requires
            self.accepts(),
        ensures
            exists|s: &mut S, c: &mut C|
                *s == *old(this) && *final(s) == *final(this) && *c == *old(ctx) && *final(c)
                    == *final(ctx) && #[trigger] self.gives(s, c, args@, r),
    ;
}

/// A function of the state, the context and raw arguments is a method as it
/// stands; it declares no parameter types.
impl<F, S, C, U, E, V: Value> Signed<S, C, V> for F where
    F: Fn(&mut S, &mut C, Arguments<V>) -> Result<U, E>,
    E: Into<Error<V>>,
    U: IntoValue<V> + Typed<V>,
 {
    open spec fn params_spec(&self) -> Seq<V::Type> {
        Seq::empty()
    }

    open spec fn return_spec(&self) -> V::Type {
        U::static_type()
    }

    fn signature(&self) -> (s: Signature<V>) {
        Signature::new(Parameters::new(), U::get_type())
    }
}

impl<F, S, C, U, E, V: Value> MethodCallable<S, C, V> for F where
    F: Fn(&mut S, &mut C, Arguments<V>) -> Result<U, E>,
    E: Into<Error<V>>,
    U: IntoValue<V> + Typed<V>,
 {
    open spec fn accepts(&self) -> bool {
        forall|s: &mut S, c: &mut C, a: Arguments<V>| #[trigger] call_requires(*self, (s, c, a))
    }

    open spec fn gives(&self, this: &mut S, ctx: &mut C, args: Seq<V>, out: Result<V, Error<V>>) -> bool {
        exists|a: Arguments<V>, raw: Result<U, E>|
            a@ == args && #[trigger] call_ensures(*self, (this, ctx, a), raw) && output_spec(raw, out)
    }

    fn call(&self, this: &mut S, ctx: &mut C, args: Arguments<V>) -> (r: Result<V, Error<V>>) {
        let ghost a = args;
        let raw = (self)(this, ctx, args);
        let r = convert_output(raw);
        proof {
            assert(exists|s: &mut S, c: &mut C|
                *s == *old(this) && *final(s) == *this && *c == *old(ctx) && *final(c) == *ctx
                    && call_ensures(*self, (s, c, a), raw));
            let (s, c) = choose|s: &mut S, c: &mut C|
                *s == *old(this) && *final(s) == *this && *c == *old(ctx) && *final(c) == *ctx
                    && call_ensures(*self, (s, c, a), raw);
            assert(*this == *final(this));
            assert(*ctx == *final(ctx));
            assert(MethodCallable::<S, C, V>::gives(self, s, c, a@, r));
        }
        r
    }
}

} // verus!
