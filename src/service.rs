use vstd::prelude::*;

use crate::arguments::Arguments;
use crate::error::Error;
use crate::method::{MethodCallable, Signed};
use crate::names::NameMap;
use crate::signature::Signature;
use crate::state::{read, stored, HasState, State, StateType};
use crate::traits::Value;
use core::marker::PhantomData;

verus! {

/// Which call path a service's methods serve.
pub trait ServiceType {

}

/// Methods called synchronously on the caller's thread.
pub struct Sync;

/// Methods whose calls suspend, confined to one execution context.
pub struct Async;

/// Methods whose calls suspend and may move between threads.
pub struct SendAsync;

impl ServiceType for Sync {

}

impl ServiceType for Async {

}

impl ServiceType for SendAsync {

}

/// The signatures of a service's methods, by name.
#[derive(Debug)]
pub struct ServiceSignature<V: Value> {
    services: NameMap<Signature<V>>,
}

impl<V: Value> Clone for ServiceSignature<V> where V::Type: Clone {
    fn clone(&self) -> (r: Self) {
        ServiceSignature { services: self.services.clone() }
    }
}

impl<V: Value> ServiceSignature<V> {
    pub closed spec fn signatures(&self) -> Map<Seq<char>, Signature<V>> {
        self.services@
    }

    /// The method names in the order they were first registered.
    pub closed spec fn order(&self) -> Seq<Seq<char>> {
        self.services.names()
    }

    pub fn get(&self, name: &str) -> (r: Option<&Signature<V>>)
        ensures
            self.signatures().contains_key(name@) ==> r == Some(&self.signatures()[name@]),
            !self.signatures().contains_key(name@) ==> r is None,
    {
        self.services.get(name)
    }

    /// Number of methods described.
    pub fn len(&self) -> (n: usize)
        ensures
            n == self.order().len(),
    {
        self.services.len()
    }

    /// The name and signature at position `i` of registration order.
    pub fn entry_at(&self, i: usize) -> (e: (&String, &Signature<V>))
        requires
            i < self.order().len(),
        ensures
            e.0@ == self.order()[i as int],
            self.signatures().contains_key(self.order()[i as int]),
            *e.1 == self.signatures()[self.order()[i as int]],
    {
        (self.services.name_at(i), self.services.value_at(i))
    }

    /// The method names, in the order they were first registered.
    pub fn functions(&self) -> (names: Vec<String>)
        ensures
            names@.len() == self.order().len(),
            forall|i: int| 0 <= i < names@.len() ==> #[trigger] names@[i]@ == self.order()[i],
            self.order().no_duplicates(),
            forall|k: Seq<char>|
                self.signatures().contains_key(k) <==> exists|i: int|
                    0 <= i < names@.len() && #[trigger] names@[i]@ == k,
    {
        let mut names: Vec<String> = Vec::new();
        let mut i: usize = 0;
        let n = self.services.len();
        while i < n
            invariant
                n == self.services.names().len(),
                i <= self.services.names().len(),
                names@.len() == i,
                forall|j: int| 0 <= j < i ==> #[trigger] names@[j]@ == self.services.names()[j],
                forall|j: int|
                    0 <= j < i ==> self.services@.contains_key(#[trigger] self.services.names()[j]),
                self.services.names().no_duplicates(),
            decreases self.services.names().len() - i,
        {
            let name = self.services.name_at(i);
            proof {
                self.services.lemma_name_held(i as int);
            }
            names.push(name.clone());
            i += 1;
        }
        proof {
            assert forall|k: Seq<char>| self.signatures().contains_key(k) implies exists|i: int|
                0 <= i < names@.len() && #[trigger] names@[i]@ == k by {
                self.services.lemma_named(k);
                let j = choose|j: int|
                    0 <= j < self.services.names().len() && self.services.names()[j] == k;
                assert(names@[j]@ == k);
            }
        }
        names
    }
}

/// A registry of named methods bound to one piece of state, with the flavor
/// `S` of call path its methods serve.
pub struct DynService<T, S, M> {
    state: T,
    methods: NameMap<M>,
    _flavor: PhantomData<S>,
}

impl<T: HasState, M> DynService<T, Sync, M> {
    pub fn new(state: T) -> (s: DynService<T, Sync, M>)
        ensures
            s.state_spec() == state,
            s.order() == Seq::<Seq<char>>::empty(),
            s.methods_spec() == Map::<Seq<char>, M>::empty(),
    {
        DynService { state, methods: NameMap::new(), _flavor: PhantomData }
    }
}

impl<T: HasState, M> DynService<T, Async, M> {
    pub fn new_async(state: T) -> (s: DynService<T, Async, M>)
        ensures
            s.state_spec() == state,
            s.order() == Seq::<Seq<char>>::empty(),
            s.methods_spec() == Map::<Seq<char>, M>::empty(),
    {
        DynService { state, methods: NameMap::new(), _flavor: PhantomData }
    }

    pub fn new_async_send(state: T) -> (s: DynService<T, SendAsync, M>)
        ensures
            s.state_spec() == state,
            s.order() == Seq::<Seq<char>>::empty(),
            s.methods_spec() == Map::<Seq<char>, M>::empty(),
    {
        DynService { state, methods: NameMap::new(), _flavor: PhantomData }
    }
}

impl<T, S, M> DynService<T, S, M> {
    /// The registered methods, by name.
    pub closed spec fn methods_spec(&self) -> Map<Seq<char>, M> {
        self.methods@
    }

    /// The method names in the order they were first registered.
    pub closed spec fn order(&self) -> Seq<Seq<char>> {
        self.methods.names()
    }

    /// The state holder.
    pub closed spec fn state_spec(&self) -> T {
        self.state
    }

    /// Registers `method` under `name`, replacing any method of that name.
    pub fn register(&mut self, name: &str, method: M) -> (r: &mut Self)
        ensures
            r.methods_spec() == old(self).methods_spec().insert(name@, method),
            old(self).methods_spec().contains_key(name@) ==> r.order() == old(self).order(),
            !old(self).methods_spec().contains_key(name@) ==> r.order() == old(self).order().push(
                name@,
            ),
            r.state_spec() == old(self).state_spec(),
            *final(self) == *final(r),
    {
        self.methods.insert(name, method);
        self
    }

    /// The method registered under `name`.
    pub fn method(&self, name: &str) -> (r: Option<&M>)
        ensures
            self.methods_spec().contains_key(name@) ==> r == Some(&self.methods_spec()[name@]),
            !self.methods_spec().contains_key(name@) ==> r is None,
    {
        self.methods.get(name)
    }

    /// The state holder together with the method registered under `name`, for a
    /// call that the caller drives itself while holding both.
    pub fn state_and_method(&mut self, name: &str) -> (r: (&mut T, Option<&M>))
        ensures
            *r.0 == old(self).state_spec(),
            old(self).methods_spec().contains_key(name@) ==> r.1 == Some(
                &old(self).methods_spec()[name@],
            ),
            !old(self).methods_spec().contains_key(name@) ==> r.1 is None,
            final(self).state_spec() == *final(r.0),
            final(self).methods_spec() == old(self).methods_spec(),
    {
        let method = self.methods.get(name);
        (&mut self.state, method)
    }

    /// The state holder, for calls that the caller drives itself.
    pub fn state(&self) -> (t: &T)
        ensures
            *t == self.state_spec(),
    {
        &self.state
    }

    /// The signature of every registered method, by name, computed afresh.
    pub fn signature<C, V: Value>(&self) -> (sig: ServiceSignature<V>) where
        T: HasState,
        M: Signed<T::State, C, V>,
        ensures
            sig.order() == self.order(),
            forall|k: Seq<char>|
                sig.signatures().contains_key(k) <==> self.methods_spec().contains_key(k),
            forall|k: Seq<char>|
                #[trigger] sig.signatures().contains_key(k) ==> sig.signatures()[k].params_spec()
                    == self.methods_spec()[k].params_spec() && sig.signatures()[k].return_type_spec()
                    == Some(self.methods_spec()[k].return_spec()),
    {
        let mut sigs: NameMap<Signature<V>> = NameMap::new();
        let mut i: usize = 0;
        let n = self.methods.len();
        while i < n
            invariant
                n == self.methods.names().len(),
                self.methods.names().no_duplicates(),
                i <= self.methods.names().len(),
                sigs.names() == self.methods.names().subrange(0, i as int),
                forall|j: int|
                    0 <= j < i ==> sigs@.contains_key(#[trigger] self.methods.names()[j]),
                forall|k: Seq<char>|
                    #[trigger] sigs@.contains_key(k) ==> self.methods@.contains_key(k)
                        && sigs@[k].params_spec() == self.methods@[k].params_spec()
                        && sigs@[k].return_type_spec() == Some(self.methods@[k].return_spec()),
            decreases self.methods.names().len() - i,
        {
            let name = self.methods.name_at(i);
            let method = self.methods.value_at(i);
            proof {
                if sigs@.contains_key(name@) {
                    sigs.lemma_named(name@);
                    let j = choose|j: int| 0 <= j < sigs.names().len() && sigs.names()[j] == name@;
                    assert(self.methods.names()[j] == self.methods.names()[i as int]);
                }
            }
            sigs.insert(name.as_str(), method.signature());
            proof {
                assert(sigs.names() =~= self.methods.names().subrange(0, i + 1));
            }
            i += 1;
        }
        proof {
            assert forall|k: Seq<char>| self.methods@.contains_key(k) implies sigs@.contains_key(
                k,
            ) by {
                self.methods.lemma_named(k);
            }
            assert(sigs.names() =~= self.methods.names());
        }
        ServiceSignature { services: sigs }
    }

    /// Dispatches to the method registered under `name`, holding the state for
    /// the whole call. An unknown name fails with `MethodNotFound` before the
    /// state is touched. Otherwise the result is what the method gives and the
    /// state is what it left, unless a state that may refuse access refused it.
    pub fn call<C, V: Value>(&mut self, ctx: &mut C, name: &str, args: Arguments<V>) -> (r: Result<
        V,
        Error<V>,
    >) where T: StateType<V>, M: MethodCallable<T::State, C, V>
        requires
            old(self).methods_spec().contains_key(name@) ==> old(self).methods_spec()[name@].accepts(),
        ensures
            final(self).methods_spec() == old(self).methods_spec(),
            final(self).state_spec().may_refuse() == old(self).state_spec().may_refuse(),
            !old(self).methods_spec().contains_key(name@) ==> r == Err::<V, Error<V>>(
                Error::MethodNotFound,
            ) && *final(self) == *old(self) && *final(ctx) == *old(ctx),
            old(self).methods_spec().contains_key(name@) ==> (r == Err::<V, Error<V>>(Error::Lock)
                && old(self).state_spec().may_refuse() && final(self).state_spec().held() == old(
                self,
            ).state_spec().held() && *final(ctx) == *old(ctx)) || exists|
                s: &mut T::State,
                c: &mut C,
            |
                *s == old(self).state_spec().held() && *final(s) == final(self).state_spec().held()
                    && *c == *old(ctx) && *final(c) == *final(ctx)
                    && #[trigger] old(self).methods_spec()[name@].gives(s, c, args@, r),
    {
        let method = match self.methods.get(name) {
            Some(m) => m,
            None => return Err(Error::MethodNotFound),
        };
        self.state.invoke(method, ctx, args)
    }

    /// Stores `value` under `name` in the state: refused access is `Lock` with
    /// the state as it was; otherwise the outcome is the store's.
    pub fn set_value<V: Value>(&mut self, name: &str, value: V) -> (r: Result<(), Error<V>>) where
        T: StateType<V>,
        T::State: State<V>,
        ensures
            final(self).methods_spec() == old(self).methods_spec(),
            final(self).state_spec().may_refuse() == old(self).state_spec().may_refuse(),
            (r == Err::<(), Error<V>>(Error::Lock) && old(self).state_spec().may_refuse()
                && final(self).state_spec().held() == old(self).state_spec().held()) || stored(
                old(self).state_spec().held(),
                final(self).state_spec().held(),
                name@,
                value,
                r,
            ),
    {
        self.state.set(name, value)
    }

    /// Reads the value stored under `name` in the state: refused access is
    /// `Lock`; otherwise the outcome is the read's.
    pub fn get_value<V: Value>(&self, name: &str) -> (r: Result<Option<V>, Error<V>>) where
        T: StateType<V>,
        T::State: State<V>,
        ensures
            (r == Err::<Option<V>, Error<V>>(Error::Lock) && self.state_spec().may_refuse()) || read(
                self.state_spec().held(),
                name@,
                r,
            ),
    {
        self.state.get(name)
    }
}

} // verus!
