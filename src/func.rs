use vstd::prelude::*;

verus! {

/// A native function of a context and a tuple of inputs.
///
/// An implementation that leaves one of its spec functions undefined (as any
/// implementation written outside `verus!` does) gets the default written
/// here; a default of `arbitrary()` is one fixed value, the same for every
/// argument, of which nothing is known.
pub trait Func<C, T> {
    type Output;

    /// The function may be called on every context and input.
    open spec fn accepts(&self) -> bool {
        arbitrary()
    }

    /// `out` is a possible result of calling the function through the borrow
    /// `ctx` (which carries both the context before and the context after) on
    /// `input`.
    open spec fn gives(&self, ctx: &mut C, input: T, out: Self::Output) -> bool {
        arbitrary()
    }

    fn call(&self, ctx: &mut C, input: T) -> (out: Self::Output)
        requires
            self.accepts(),
        ensures
            exists|c: &mut C|
                *c == *old(ctx) && *final(c) == *final(ctx) && #[trigger] self.gives(c, input, out),
    ;
}

impl<F, C, U> Func<C, ()> for F where F: Fn(&mut C) -> U {
    type Output = U;

    open spec fn accepts(&self) -> bool {
        forall|c: &mut C| #[trigger] call_requires(*self, (c,))
    }

    open spec fn gives(&self, ctx: &mut C, input: (), out: U) -> bool {
        call_ensures(*self, (ctx,), out)
    }

    fn call(&self, ctx: &mut C, input: ()) -> (out: U) {
        let out = (self)(ctx);
        proof {
            assert(exists|c: &mut C|
                *c == *old(ctx) && *final(c) == *ctx && call_ensures(*self, (c,), out));
            let c = choose|c: &mut C|
                *c == *old(ctx) && *final(c) == *ctx && call_ensures(*self, (c,), out);
            assert(*ctx == *final(ctx));
            assert(self.gives(c, input, out));
        }
        out
    }
}

impl<F, C, U, T1> Func<C, (T1,)> for F where F: Fn(&mut C, T1) -> U {
    type Output = U;

    open spec fn accepts(&self) -> bool {
        forall|c: &mut C, a1: T1| #[trigger] call_requires(*self, (c, a1))
    }

    open spec fn gives(&self, ctx: &mut C, input: (T1,), out: U) -> bool {
        call_ensures(*self, (ctx, input.0), out)
    }

    fn call(&self, ctx: &mut C, input: (T1,)) -> (out: U) {
        let (x1,) = input;
        let out = (self)(ctx, x1);
        proof {
            assert(exists|c: &mut C|
                *c == *old(ctx) && *final(c) == *ctx && call_ensures(*self, (c, x1), out));
            let c = choose|c: &mut C|
                *c == *old(ctx) && *final(c) == *ctx && call_ensures(*self, (c, x1), out);
            assert(*ctx == *final(ctx));
            assert(self.gives(c, input, out));
        }
        out
    }
}

impl<F, C, U, T1, T2> Func<C, (T1, T2)> for F where F: Fn(&mut C, T1, T2) -> U {
    type Output = U;

    open spec fn accepts(&self) -> bool {
        forall|c: &mut C, a1: T1, a2: T2| #[trigger] call_requires(*self, (c, a1, a2))
    }

    open spec fn gives(&self, ctx: &mut C, input: (T1, T2), out: U) -> bool {
        call_ensures(*self, (ctx, input.0, input.1), out)
    }

    fn call(&self, ctx: &mut C, input: (T1, T2)) -> (out: U) {
        let (x1, x2) = input;
        let out = (self)(ctx, x1, x2);
        proof {
            assert(exists|c: &mut C|
                *c == *old(ctx) && *final(c) == *ctx && call_ensures(*self, (c, x1, x2), out));
            let c = choose|c: &mut C|
                *c == *old(ctx) && *final(c) == *ctx && call_ensures(*self, (c, x1, x2), out);
            assert(*ctx == *final(ctx));
            assert(self.gives(c, input, out));
        }
        out
    }
}

impl<F, C, U, T1, T2, T3> Func<C, (T1, T2, T3)> for F where F: Fn(&mut C, T1, T2, T3) -> U {
    type Output = U;

    open spec fn accepts(&self) -> bool {
        forall|c: &mut C, a1: T1, a2: T2, a3: T3| #[trigger] call_requires(*self, (c, a1, a2, a3))
    }

    open spec fn gives(&self, ctx: &mut C, input: (T1, T2, T3), out: U) -> bool {
        call_ensures(*self, (ctx, input.0, input.1, input.2), out)
    }

    fn call(&self, ctx: &mut C, input: (T1, T2, T3)) -> (out: U) {
        let (x1, x2, x3) = input;
        let out = (self)(ctx, x1, x2, x3);
        proof {
            assert(exists|c: &mut C|
                *c == *old(ctx) && *final(c) == *ctx && call_ensures(*self, (c, x1, x2, x3), out));
            let c = choose|c: &mut C|
                *c == *old(ctx) && *final(c) == *ctx && call_ensures(*self, (c, x1, x2, x3), out);
            assert(*ctx == *final(ctx));
            assert(self.gives(c, input, out));
        }
        out
    }
}

impl<F, C, U, T1, T2, T3, T4> Func<C, (T1, T2, T3, T4)> for F where F: Fn(&mut C, T1, T2, T3, T4) -> U {
    type Output = U;

    open spec fn accepts(&self) -> bool {
        forall|c: &mut C, a1: T1, a2: T2, a3: T3, a4: T4| #[trigger] call_requires(*self, (c, a1, a2, a3, a4))
    }

    open spec fn gives(&self, ctx: &mut C, input: (T1, T2, T3, T4), out: U) -> bool {
        call_ensures(*self, (ctx, input.0, input.1, input.2, input.3), out)
    }

    fn call(&self, ctx: &mut C, input: (T1, T2, T3, T4)) -> (out: U) {
        let (x1, x2, x3, x4) = input;
        let out = (self)(ctx, x1, x2, x3, x4);
        proof {
            assert(exists|c: &mut C|
                *c == *old(ctx) && *final(c) == *ctx && call_ensures(*self, (c, x1, x2, x3, x4), out));
            let c = choose|c: &mut C|
                *c == *old(ctx) && *final(c) == *ctx && call_ensures(*self, (c, x1, x2, x3, x4), out);
            assert(*ctx == *final(ctx));
            assert(self.gives(c, input, out));
        }
        out
    }
}

impl<F, C, U, T1, T2, T3, T4, T5> Func<C, (T1, T2, T3, T4, T5)> for F where F: Fn(&mut C, T1, T2, T3, T4, T5) -> U {
    type Output = U;

    open spec fn accepts(&self) -> bool {
        forall|c: &mut C, a1: T1, a2: T2, a3: T3, a4: T4, a5: T5| #[trigger] call_requires(*self, (c, a1, a2, a3, a4, a5))
    }

    open spec fn gives(&self, ctx: &mut C, input: (T1, T2, T3, T4, T5), out: U) -> bool {
        call_ensures(*self, (ctx, input.0, input.1, input.2, input.3, input.4), out)
    }

    fn call(&self, ctx: &mut C, input: (T1, T2, T3, T4, T5)) -> (out: U) {
        let (x1, x2, x3, x4, x5) = input;
        let out = (self)(ctx, x1, x2, x3, x4, x5);
        proof {
            assert(exists|c: &mut C|
                *c == *old(ctx) && *final(c) == *ctx && call_ensures(*self, (c, x1, x2, x3, x4, x5), out));
            let c = choose|c: &mut C|
                *c == *old(ctx) && *final(c) == *ctx && call_ensures(*self, (c, x1, x2, x3, x4, x5), out);
            assert(*ctx == *final(ctx));
            assert(self.gives(c, input, out));
        }
        out
    }
}

impl<F, C, U, T1, T2, T3, T4, T5, T6> Func<C, (T1, T2, T3, T4, T5, T6)> for F where F: Fn(&mut C, T1, T2, T3, T4, T5, T6) -> U {
    type Output = U;

    open spec fn accepts(&self) -> bool {
        forall|c: &mut C, a1: T1, a2: T2, a3: T3, a4: T4, a5: T5, a6: T6| #[trigger] call_requires(*self, (c, a1, a2, a3, a4, a5, a6))
    }

    open spec fn gives(&self, ctx: &mut C, input: (T1, T2, T3, T4, T5, T6), out: U) -> bool {
        call_ensures(*self, (ctx, input.0, input.1, input.2, input.3, input.4, input.5), out)
    }

    fn call(&self, ctx: &mut C, input: (T1, T2, T3, T4, T5, T6)) -> (out: U) {
        let (x1, x2, x3, x4, x5, x6) = input;
        let out = (self)(ctx, x1, x2, x3, x4, x5, x6);
        proof {
            assert(exists|c: &mut C|
                *c == *old(ctx) && *final(c) == *ctx && call_ensures(*self, (c, x1, x2, x3, x4, x5, x6), out));
            let c = choose|c: &mut C|
                *c == *old(ctx) && *final(c) == *ctx && call_ensures(*self, (c, x1, x2, x3, x4, x5, x6), out);
            assert(*ctx == *final(ctx));
            assert(self.gives(c, input, out));
        }
        out
    }
}

impl<F, C, U, T1, T2, T3, T4, T5, T6, T7> Func<C, (T1, T2, T3, T4, T5, T6, T7)> for F where F: Fn(&mut C, T1, T2, T3, T4, T5, T6, T7) -> U {
    type Output = U;

    open spec fn accepts(&self) -> bool {
        forall|c: &mut C, a1: T1, a2: T2, a3: T3, a4: T4, a5: T5, a6: T6, a7: T7| #[trigger] call_requires(*self, (c, a1, a2, a3, a4, a5, a6, a7))
    }

    open spec fn gives(&self, ctx: &mut C, input: (T1, T2, T3, T4, T5, T6, T7), out: U) -> bool {
        call_ensures(*self, (ctx, input.0, input.1, input.2, input.3, input.4, input.5, input.6), out)
    }

    fn call(&self, ctx: &mut C, input: (T1, T2, T3, T4, T5, T6, T7)) -> (out: U) {
        let (x1, x2, x3, x4, x5, x6, x7) = input;
        let out = (self)(ctx, x1, x2, x3, x4, x5, x6, x7);
        proof {
            assert(exists|c: &mut C|
                *c == *old(ctx) && *final(c) == *ctx && call_ensures(*self, (c, x1, x2, x3, x4, x5, x6, x7), out));
            let c = choose|c: &mut C|
                *c == *old(ctx) && *final(c) == *ctx && call_ensures(*self, (c, x1, x2, x3, x4, x5, x6, x7), out);
            assert(*ctx == *final(ctx));
            assert(self.gives(c, input, out));
        }
        out
    }
}

impl<F, C, U, T1, T2, T3, T4, T5, T6, T7, T8> Func<C, (T1, T2, T3, T4, T5, T6, T7, T8)> for F where F: Fn(&mut C, T1, T2, T3, T4, T5, T6, T7, T8) -> U {
    type Output = U;

    open spec fn accepts(&self) -> bool {
        forall|c: &mut C, a1: T1, a2: T2, a3: T3, a4: T4, a5: T5, a6: T6, a7: T7, a8: T8| #[trigger] call_requires(*self, (c, a1, a2, a3, a4, a5, a6, a7, a8))
    }

    open spec fn gives(&self, ctx: &mut C, input: (T1, T2, T3, T4, T5, T6, T7, T8), out: U) -> bool {
        call_ensures(*self, (ctx, input.0, input.1, input.2, input.3, input.4, input.5, input.6, input.7), out)
    }

    fn call(&self, ctx: &mut C, input: (T1, T2, T3, T4, T5, T6, T7, T8)) -> (out: U) {
        let (x1, x2, x3, x4, x5, x6, x7, x8) = input;
        let out = (self)(ctx, x1, x2, x3, x4, x5, x6, x7, x8);
        proof {
            assert(exists|c: &mut C|
                *c == *old(ctx) && *final(c) == *ctx && call_ensures(*self, (c, x1, x2, x3, x4, x5, x6, x7, x8), out));
            let c = choose|c: &mut C|
                *c == *old(ctx) && *final(c) == *ctx && call_ensures(*self, (c, x1, x2, x3, x4, x5, x6, x7, x8), out);
            assert(*ctx == *final(ctx));
            assert(self.gives(c, input, out));
        }
        out
    }
}

} // verus!
