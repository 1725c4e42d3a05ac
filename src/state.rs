use vstd::prelude::*;

use crate::arguments::Arguments;
use crate::error::Error;
use crate::method::MethodCallable;
use crate::names::NameMap;
use crate::traits::Value;

verus! {

/// Data that a service owns, with values readable and writable by name.
///
/// An implementation that leaves one of its spec functions undefined (as any
/// implementation written outside `verus!` does) gets the default written
/// here; a default of `arbitrary()` is one fixed value, the same for every
/// argument, of which nothing is known.
pub trait State<V: Value>: Sized {
    /// The value stored under `name`, if any.
    open spec fn value_of(&self, name: Seq<char>) -> Option<V> {
        arbitrary()
    }

    /// Storing and reading never fail.
    open spec fn never_fails() -> bool {
        false
    }

    fn set(&mut self, name: &str, value: V) -> (r: Result<(), Error<V>>)
        ensures
            Self::never_fails() ==> r is Ok,
            r is Ok ==> final(self).value_of(name@) == Some(value),
            r is Ok ==> forall|k: Seq<char>|
                k != name@ ==> #[trigger] final(self).value_of(k) == old(self).value_of(k),
            r is Err ==> forall|k: Seq<char>| #[trigger] final(self).value_of(k) == old(self).value_of(k),
    ;

    fn get(&self, name: &str) -> (r: Result<Option<V>, Error<V>>)
        ensures
            Self::never_fails() ==> r is Ok,
            r matches Ok(Some(v)) ==> self.value_of(name@) matches Some(w) && cloned(w, v),
            r matches Ok(None) ==> self.value_of(name@) is None,
    ;
}

/// Storing `value` under `name` took `before` to `after` with result `r`: on
/// success the name holds the value and no other name changed, on failure
/// nothing changed, and a state that never fails succeeded.
pub open spec fn stored<V: Value, S: State<V>>(
    before: S,
    after: S,
    name: Seq<char>,
    value: V,
    r: Result<(), Error<V>>,
) -> bool {
    &&& S::never_fails() ==> r is Ok
    &&& r is Ok ==> after.value_of(name) == Some(value)
    &&& r is Ok ==> forall|k: Seq<char>|
        k != name ==> #[trigger] after.value_of(k) == before.value_of(k)
    &&& r is Err ==> forall|k: Seq<char>| #[trigger] after.value_of(k) == before.value_of(k)
}

/// Reading `name` from `state` gave `r`: a clone of the stored value, or
/// nothing where none is stored; a state that never fails succeeded.
pub open spec fn read<V: Value, S: State<V>>(state: S, name: Seq<char>, r: Result<Option<V>, Error<V>>) -> bool {
    &&& S::never_fails() ==> r is Ok
    &&& r matches Ok(Some(v)) ==> state.value_of(name) matches Some(w) && cloned(w, v)
    &&& r matches Ok(None) ==> state.value_of(name) is None
}

/// A table of named values is the plainest state: storing never fails, and
/// reading hands back a clone.
impl<V: Value> State<V> for NameMap<V> {
    open spec fn value_of(&self, name: Seq<char>) -> Option<V> {
        if self@.contains_key(name) {
            Some(self@[name])
        } else {
            None
        }
    }

    open spec fn never_fails() -> bool {
        true
    }

    fn set(&mut self, name: &str, value: V) -> (r: Result<(), Error<V>>) {
        self.insert(name, value);
        Ok(())
    }

    fn get(&self, name: &str) -> (r: Result<Option<V>, Error<V>>) {
        match NameMap::get(self, name) {
            Some(v) => Ok(Some(v.clone())),
            None => Ok(None),
        }
    }
}

/// Names the type of the state a holder guards.
pub trait HasState {
    type State;
}

/// Exclusive access to a service's state: named values are written and read
/// through it, and a method runs with the state held for the whole call.
///
/// An implementation that leaves one of its spec functions undefined (as any
/// implementation written outside `verus!` does) gets the default written
/// here; a default of `arbitrary()` is one fixed value, the same for every
/// argument, of which nothing is known.
pub trait StateType<V: Value>: HasState {
    /// The state currently held.
    open spec fn held(&self) -> Self::State {
        arbitrary()
    }

    /// Access to the state may be refused with `Lock`.
    open spec fn may_refuse(&self) -> bool {
        true
    }

    /// Stores through the held state: refused access is `Lock` with the state
    /// as it was; otherwise the outcome is the store's.
    fn set(&mut self, name: &str, value: V) -> (r: Result<(), Error<V>>) where
        Self::State: State<V>,
        ensures
            final(self).may_refuse() == old(self).may_refuse(),
            (r == Err::<(), Error<V>>(Error::Lock) && old(self).may_refuse() && final(self).held()
                == old(self).held()) || stored(old(self).held(), final(self).held(), name@, value, r),
    ;

    /// Reads through the held state: refused access is `Lock`; otherwise the
    /// outcome is the read's.
    fn get(&self, name: &str) -> (r: Result<Option<V>, Error<V>>) where Self::State: State<V>
        ensures
            (r == Err::<Option<V>, Error<V>>(Error::Lock) && self.may_refuse()) || read(
                self.held(),
                name@,
                r,
            ),
    ;

    /// Runs `method` on the held state: it fails with `Lock`, touching nothing,
    /// only where access may be refused; otherwise it is what the method gives,
    /// and the state held afterwards is what the method left.
    fn invoke<C, M: MethodCallable<Self::State, C, V>>(
        &mut self,
        method: &M,
        ctx: &mut C,
        args: Arguments<V>,
    ) -> (r: Result<V, Error<V>>)
        requires
            method.accepts(),
        ensures
            final(self).may_refuse() == old(self).may_refuse(),
            (r == Err::<V, Error<V>>(Error::Lock) && old(self).may_refuse() && final(self).held()
                == old(self).held() && *final(ctx) == *old(ctx)) || exists|s: &mut Self::State, c: &mut C|
                *s == old(self).held() && *final(s) == final(self).held() && *c == *old(ctx)
                    && *final(c) == *final(ctx) && #[trigger] method.gives(s, c, args@, r),
    ;
}

/// State confined to one owner: exclusivity comes from the `&mut` borrow, so
/// access is never refused.
pub struct SyncState<T> {
    state: T,
}

impl<T> SyncState<T> {
    pub closed spec fn inner(&self) -> T {
        self.state
    }

    /// The state itself, for a call that the caller drives to completion while
    /// holding this borrow.
    pub fn get_mut(&mut self) -> (r: &mut T)
        ensures
            *r == old(self).inner(),
            final(self).inner() == *final(r),
    {
        &mut self.state
    }

    pub fn new(state: T) -> (r: SyncState<T>)
        ensures
            r.inner() == state,
    {
        SyncState { state }
    }
}

impl<T> HasState for SyncState<T> {
    type State = T;
}

impl<T, V: Value> StateType<V> for SyncState<T> {
    open spec fn held(&self) -> T {
        self.inner()
    }

    /// The `&mut` borrow is exclusive already; access is never refused.
    open spec fn may_refuse(&self) -> bool {
        false
    }

    fn set(&mut self, name: &str, value: V) -> (r: Result<(), Error<V>>) where T: State<V> {
        self.state.set(name, value)
    }

    fn get(&self, name: &str) -> (r: Result<Option<V>, Error<V>>) where T: State<V> {
        self.state.get(name)
    }

    fn invoke<C, M: MethodCallable<T, C, V>>(
        &mut self,
        method: &M,
        ctx: &mut C,
        args: Arguments<V>,
    ) -> (r: Result<V, Error<V>>) {
        let ghost a = args;
        let r = method.call(&mut self.state, ctx, args);
        proof {
            assert(exists|s: &mut T, c: &mut C|
                *s == old(self).inner() && *final(s) == self.state && *c == *old(ctx) && *final(c)
                    == *ctx && method.gives(s, c, a@, r));
            let (s, c) = choose|s: &mut T, c: &mut C|
                *s == old(self).inner() && *final(s) == self.state && *c == *old(ctx) && *final(c)
                    == *ctx && method.gives(s, c, a@, r);
            assert(*self == *final(self));
            assert(*ctx == *final(ctx));
            assert(method.gives(s, c, a@, r));
        }
        r
    }
}

} // verus!
