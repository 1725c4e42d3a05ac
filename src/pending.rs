use vstd::prelude::*;

use crate::arguments::Arguments;
use crate::callable::{output_spec, tuple_call_spec};
use crate::error::Error;
use crate::extract::FromArguments;
use crate::func::Func;
use crate::traits::{IntoValue, Value};
use core::marker::PhantomData;
use vstd::std_specs::convert::IntoSpec;

verus! {

/// Where a suspending call stands. `Failed` holds an error found before any
/// inner computation began (a bad argument, an unknown method); it is handed
/// back exactly once. `Running` waits on the inner computation. `Done` may not
/// be resumed again.
pub enum CallPhase<V: Value> {
    Failed(Error<V>),
    Running,
    Done,
}

/// The phase a tuple-extracting suspending call starts in, and the tuple that
/// the inner computation is to be started on.
pub open spec fn start_spec<'a, V: Value, A: FromArguments<'a, V>>(args: Seq<V>) -> (
    CallPhase<V>,
    Option<A>,
) {
    match A::extract_spec(args) {
        Err(e) => (CallPhase::Failed(Error::Argument(e)), None),
        Ok(t) => (CallPhase::Running, Some(t)),
    }
}

/// One resumption of a call in `phase`, where `inner` is what the inner
/// computation yielded this time (`None` while it is still pending): the next
/// phase, and the result handed back (`None` while the call is pending).
pub open spec fn resume_spec<V: Value>(phase: CallPhase<V>, inner: Option<Result<V, Error<V>>>) -> (
    CallPhase<V>,
    Option<Result<V, Error<V>>>,
) {
    match phase {
        CallPhase::Failed(e) => (CallPhase::Done, Some(Err(e))),
        CallPhase::Running => match inner {
            None => (CallPhase::Running, None),
            Some(r) => (CallPhase::Done, Some(r)),
        },
        CallPhase::Done => (CallPhase::Done, None),
    }
}

impl<V: Value> CallPhase<V> {
    /// Reads the tuple out of `args` before anything is started: on failure
    /// the call is `Failed` with the argument error and there is nothing to
    /// start.
    pub fn start<'a, A: FromArguments<'a, V>>(args: &'a Arguments<V>) -> (r: (CallPhase<V>, Option<A>))
        ensures
            r == start_spec::<V, A>(args@),
    {
        match A::from_arguments(args) {
            Err(e) => (CallPhase::Failed(Error::Argument(e)), None),
            Ok(t) => (CallPhase::Running, Some(t)),
        }
    }

    /// A dispatch by name: running when the method was found, otherwise
    /// failed with `MethodNotFound`.
    pub fn dispatch(found: bool) -> (r: CallPhase<V>)
        ensures
            found ==> r is Running,
            !found ==> r == CallPhase::<V>::Failed(Error::MethodNotFound),
    {
        if found {
            CallPhase::Running
        } else {
            CallPhase::Failed(Error::MethodNotFound)
        }
    }

    pub fn is_done(&self) -> (b: bool)
        ensures
            b == (*self is Done),
    {
        match self {
            CallPhase::Done => true,
            _ => false,
        }
    }

    /// Advances the call by one resumption. Resuming a finished call is a
    /// caller's error and is excluded.
    pub fn resume(&mut self, inner: Option<Result<V, Error<V>>>) -> (r: Option<Result<V, Error<V>>>)
        requires
            !(*old(self) is Done),
        ensures
            (*final(self), r) == resume_spec(*old(self), inner),
    {
        let mut phase = CallPhase::Done;
        core::mem::swap(self, &mut phase);
        match phase {
            CallPhase::Failed(e) => Some(Err(e)),
            CallPhase::Running => match inner {
                None => {
                    *self = CallPhase::Running;
                    None
                },
                Some(r) => Some(r),
            },
            CallPhase::Done => None,
        }
    }
}

/// The failure of an executor that ran blocking work, as a runtime error;
/// otherwise the work's own result.
pub fn finish_blocking<V: Value>(joined: Result<Result<V, Error<V>>, String>) -> (r: Result<
    V,
    Error<V>,
>)
    ensures
        joined matches Ok(x) ==> r == x,
        joined matches Err(m) ==> r == Err::<V, Error<V>>(Error::Runtime(m)),
{
    match joined {
        Ok(x) => x,
        Err(m) => Err(Error::Runtime(m)),
    }
}

/// Names tokio's blocking pool as the executor of an `IntoAsync`.
pub struct Tokio;

/// Names smol's blocking pool as the executor of an `IntoAsync`.
pub struct Smol;

/// A synchronous callable run on an executor's blocking pool, `E` naming the
/// executor.
pub struct IntoAsync<F, C, E, V> {
    callable: F,
    _executor: PhantomData<(C, E, V)>,
}

impl<F, C, E, V> IntoAsync<F, C, E, V> {
    pub closed spec fn inner(&self) -> F {
        self.callable
    }

    pub fn new(callable: F) -> (r: Self)
        ensures
            r.inner() == callable,
    {
        IntoAsync { callable, _executor: PhantomData }
    }

    pub fn callable(&self) -> (f: &F)
        ensures
            *f == self.inner(),
    {
        &self.callable
    }
}

/// The synchronous and the suspending tuple adapters agree: started on the same
/// arguments, with the inner computation yielding the converted result that the
/// inner function gives, the first result the suspending call hands back is a
/// result that the synchronous call could return.
pub proof fn lemma_adapters_agree<C, A, U, E, V: Value, F: Func<C, A, Output = Result<U, E>>>(
    func: F,
    ctx: &mut C,
    args: Seq<V>,
    raw: Result<U, E>,
    out: Result<V, Error<V>>,
) where A: FromArguments<'static, V>, U: IntoValue<V>, E: Into<Error<V>>
    requires
        start_spec::<V, A>(args).1 matches Some(t) ==> func.gives(ctx, t, raw),
        output_spec(raw, out),
    ensures
        resume_spec(start_spec::<V, A>(args).0, Some(out)).1 matches Some(handed) && tuple_call_spec(
            func,
            ctx,
            args,
            handed,
        ),
{
    match A::extract_spec(args) {
        Err(e) => {},
        Ok(t) => {
            assert(func.gives(ctx, t, raw) && output_spec(raw, out));
        },
    }
}

/// Where the inner function's result is fixed by its context and input, and
/// the error conversion is the one its `Into` impl states, the two adapters give
/// identical results: whatever the synchronous call returns equals what the
/// suspending call hands back.
pub proof fn lemma_adapters_identical<C, A, U, E, V: Value, F: Func<C, A, Output = Result<U, E>>>(
    func: F,
    ctx: &mut C,
    args: Seq<V>,
    raw: Result<U, E>,
    out: Result<V, Error<V>>,
    sync_out: Result<V, Error<V>>,
) where A: FromArguments<'static, V>, U: IntoValue<V>, E: Into<Error<V>>
    requires
        forall|t: A, r1: Result<U, E>, r2: Result<U, E>|
            func.gives(ctx, t, r1) && func.gives(ctx, t, r2) ==> r1 == r2,
        E::obeys_into_spec(),
        start_spec::<V, A>(args).1 matches Some(t) ==> func.gives(ctx, t, raw),
        output_spec(raw, out),
        tuple_call_spec(func, ctx, args, sync_out),
    ensures
        resume_spec(start_spec::<V, A>(args).0, Some(out)).1 == Some(sync_out),
{
    match A::extract_spec(args) {
        Err(e) => {},
        Ok(t) => {
            let raw2 = choose|raw2: Result<U, E>|
                #[trigger] func.gives(ctx, t, raw2) && output_spec(raw2, sync_out);
            assert(raw2 == raw);
        },
    }
}

} // verus!
