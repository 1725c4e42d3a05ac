use vstd::prelude::*;

use crate::arguments::Arguments;
use crate::error::Error;
use crate::extract::FromArguments;
use crate::func::Func;
use crate::signature::{Parameters, Signature};
use crate::traits::{IntoValue, Typed, Value};
use core::marker::PhantomData;
use vstd::std_specs::convert::IntoSpec;

verus! {

/// `out` is what a native result `r` becomes: its success turned into a value,
/// its failure into an `Error`.
pub open spec fn output_spec<V: Value, U: IntoValue<V>, E: Into<Error<V>>>(
    r: Result<U, E>,
    out: Result<V, Error<V>>,
) -> bool {
    match r {
        Ok(u) => out == Ok::<V, Error<V>>(u.into_value_spec()),
        Err(e) => out is Err && (E::obeys_into_spec() ==> out == Err::<V, Error<V>>(e.into_spec())),
    }
}

/// Turns the result of a native function into the uniform call result.
pub fn convert_output<V: Value, U: IntoValue<V>, E: Into<Error<V>>>(r: Result<U, E>) -> (out: Result<
    V,
    Error<V>,
>)
    ensures
        output_spec(r, out),
{
    match r {
        Ok(u) => Ok(u.into_value()),
        Err(e) => Err(e.into()),
    }
}

/// The uniform synchronous call interface: a signature for introspection and a
/// call on a context and positional arguments.
///
/// An implementation that leaves one of its spec functions undefined (as any
/// implementation written outside `verus!` does) gets the default written
/// here; a default of `arbitrary()` is one fixed value, the same for every
/// argument, of which nothing is known.
pub trait Callable<C, V: Value> {
    /// The callable may be called on every context and argument list.
    open spec fn accepts(&self) -> bool {
        arbitrary()
    }

    /// `out` is a possible result of calling through the borrow `ctx` (which
    /// carries both the context before and the context after) with `args`.
    open spec fn gives(&self, ctx: &mut C, args: Seq<V>, out: Result<V, Error<V>>) -> bool {
        arbitrary()
    }

    /// A call with `args` leaves the context as it was.
    open spec fn leaves_ctx(&self, args: Seq<V>) -> bool {
        false
    }

    /// The declared parameter types.
    open spec fn params_spec(&self) -> Seq<V::Type> {
        arbitrary()
    }

    /// The declared return type.
    open spec fn return_spec(&self) -> V::Type {
        arbitrary()
    }

    fn signature(&self) -> (s: Signature<V>)
        ensures
            s.params_spec() == self.params_spec(),
            s.return_type_spec() == Some(self.return_spec()),
    ;

    fn call(&self, ctx: &mut C, args: Arguments<V>) -> (r: Result<V, Error<V>>)
        requires
            self.accepts(),
        ensures
            exists|c: &mut C|
                *c == *old(ctx) && *final(c) == *final(ctx) && #[trigger] self.gives(c, args@, r),
            self.leaves_ctx(args@) ==> *final(ctx) == *old(ctx),
    ;
}

/// A function over raw arguments is callable as it stands; it declares no
/// parameter types, only its return type.
impl<F, C, U, E, V: Value> Callable<C, V> for F where
    F: Fn(&mut C, Arguments<V>) -> Result<U, E>,
    E: Into<Error<V>>,
    U: IntoValue<V> + Typed<V>,
 {
    open spec fn accepts(&self) -> bool {
        forall|c: &mut C, a: Arguments<V>| #[trigger] call_requires(*self, (c, a))
    }

    open spec fn gives(&self, ctx: &mut C, args: Seq<V>, out: Result<V, Error<V>>) -> bool {
        exists|a: Arguments<V>, raw: Result<U, E>|
            a@ == args && #[trigger] call_ensures(*self, (ctx, a), raw) && output_spec(raw, out)
    }

    open spec fn params_spec(&self) -> Seq<V::Type> {
        Seq::empty()
    }

    open spec fn return_spec(&self) -> V::Type {
        U::static_type()
    }

    fn signature(&self) -> (s: Signature<V>) {
        Signature::new(Parameters::new(), U::get_type())
    }

    fn call(&self, ctx: &mut C, args: Arguments<V>) -> (r: Result<V, Error<V>>) {
        let ghost a = args;
        let raw = (self)(ctx, args);
        let r = convert_output(raw);
        proof {
            assert(exists|c: &mut C|
                *c == *old(ctx) && *final(c) == *ctx && call_ensures(*self, (c, a), raw));
            let c = choose|c: &mut C|
                *c == *old(ctx) && *final(c) == *ctx && call_ensures(*self, (c, a), raw);
            assert(*ctx == *final(ctx));
            assert(Callable::<C, V>::gives(self, c, a@, r));
        }
        r
    }
}

/// Adapts a function over a typed tuple into a `Callable`: it reads the tuple
/// out of the arguments, reports the tuple's declared parameter types, and
/// never runs the function when reading fails.
pub struct CallableFunc<F, C, A, V> {
    func: F,
    _args: PhantomData<(C, A, V)>,
}

impl<F, C, A, V> CallableFunc<F, C, A, V> {
    pub closed spec fn inner(&self) -> F {
        self.func
    }

    /// The wrapped function.
    pub fn func(&self) -> (f: &F)
        ensures
            *f == self.inner(),
    {
        &self.func
    }
}

impl<F: Clone, C, A, V> Clone for CallableFunc<F, C, A, V> {
    fn clone(&self) -> (r: Self)
        ensures
            cloned(self.inner(), r.inner()),
    {
        CallableFunc { func: self.func.clone(), _args: PhantomData }
    }
}

impl<F, C, A, V: Value> CallableFunc<F, C, A, V> where for <'a>A: FromArguments<'a, V> {
    pub fn new(func: F) -> (r: Self) where F: Func<C, A>
        ensures
            r.inner() == func,
    {
        CallableFunc { func, _args: PhantomData }
    }
}

/// What calling `func` through tuple extraction and the borrow `ctx` gives on
/// `args`: the argument error when reading fails, otherwise a converted result
/// of the function.
pub open spec fn tuple_call_spec<C, A, U, E, V: Value, F: Func<C, A, Output = Result<U, E>>>(
    func: F,
    ctx: &mut C,
    args: Seq<V>,
    out: Result<V, Error<V>>,
) -> bool where
    A: FromArguments<'static, V>,
    U: IntoValue<V>,
    E: Into<Error<V>>,
 {
    match A::extract_spec(args) {
        Err(e) => out == Err::<V, Error<V>>(Error::Argument(e)),
        Ok(input) => exists|raw: Result<U, E>| #[trigger] func.gives(ctx, input, raw) && output_spec(raw, out),
    }
}

impl<F, C, A, U, E, V: Value> Callable<C, V> for CallableFunc<F, C, A, V> where
    for <'a>A: FromArguments<'a, V>,
    F: Func<C, A, Output = Result<U, E>>,
    U: IntoValue<V> + Typed<V>,
    E: Into<Error<V>>,
 {
    open spec fn accepts(&self) -> bool {
        self.inner().accepts()
    }

    open spec fn gives(&self, ctx: &mut C, args: Seq<V>, out: Result<V, Error<V>>) -> bool {
        tuple_call_spec(self.inner(), ctx, args, out)
    }

    /// The function never runs when the arguments cannot be read.
    open spec fn leaves_ctx(&self, args: Seq<V>) -> bool {
        <A as FromArguments<'static, V>>::extract_spec(args) is Err
    }

    open spec fn params_spec(&self) -> Seq<V::Type> {
        <A as FromArguments<'static, V>>::parameters_spec()
    }

    open spec fn return_spec(&self) -> V::Type {
        U::static_type()
    }

    fn signature(&self) -> (s: Signature<V>) {
        Signature::new(A::parameters(), U::get_type())
    }

    fn call(&self, ctx: &mut C, args: Arguments<V>) -> (r: Result<V, Error<V>>) {
        let input = match A::from_arguments(&args) {
            Ok(input) => input,
            Err(e) => {
                let r = Err(Error::Argument(e));
                proof {
                    assert(self.gives(ctx, args@, r));
                }
                return r;
            },
        };
        let raw = self.func.call(ctx, input);
        let r = convert_output(raw);
        proof {
            let c = choose|c: &mut C|
                *c == *old(ctx) && *final(c) == *ctx && #[trigger] self.func.gives(c, input, raw);
            assert(*ctx == *final(ctx));
            assert(self.inner().gives(c, input, raw) && output_spec(raw, r));
            assert(self.gives(c, args@, r));
        }
        r
    }
}

/// Turns any `Func` into its tuple-extracting `Callable`.
pub trait FuncExt<C, A>: Func<C, A> + Sized {
    fn callable<V: Value>(self) -> (r: CallableFunc<Self, C, A, V>) where
        for <'a>A: FromArguments<'a, V>,
        ensures
            r.inner() == self,
    {
        CallableFunc::new(self)
    }
}

impl<F, C, A> FuncExt<C, A> for F where F: Func<C, A> {

}

} // verus!
