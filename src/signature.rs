use vstd::prelude::*;

use crate::traits::Value;
use std::sync::Arc;

verus! {

/// The declared type of each positional parameter, in order; shared cheaply
/// between the signatures that report it.
#[derive(Debug, Clone, PartialEq, Eq)]
pub struct Parameters<V: Value>(Option<Arc<Vec<V::Type>>>);

impl<V: Value> View for Parameters<V> {
    type V = Seq<V::Type>;

    closed spec fn view(&self) -> Seq<V::Type> {
        match self.0 {
            Some(types) => types@,
            None => Seq::empty(),
        }
    }
}

impl<V: Value> Default for Parameters<V> {
    fn default() -> (r: Self)
        ensures
            r@ == Seq::<V::Type>::empty(),
    {
        Parameters(None)
    }
}

impl<V: Value> Parameters<V> {
    /// No declared parameters: what a function over raw arguments reports.
    pub fn new() -> (r: Parameters<V>)
        ensures
            r@ == Seq::<V::Type>::empty(),
    {
        Parameters(None)
    }

    pub fn build() -> (b: ParametersBuilder<V>)
        ensures
            b@ == Seq::<V::Type>::empty(),
    {
        ParametersBuilder { params: Vec::new() }
    }

    pub fn len(&self) -> (n: usize)
        ensures
            n == self@.len(),
    {
        match &self.0 {
            Some(types) => types.len(),
            None => 0,
        }
    }

    pub fn get(&self, idx: usize) -> (r: Option<&V::Type>)
        ensures
            idx < self@.len() ==> r == Some(&self@[idx as int]),
            idx >= self@.len() ==> r is None,
    {
        match &self.0 {
            Some(types) => {
                if idx < types.len() {
                    Some(&types[idx])
                } else {
                    None
                }
            },
            None => None,
        }
    }

    pub fn iter(&self) -> (it: ParamIter<'_, V::Type>)
        ensures
            it.wf(),
            it@ == self@,
    {
        match &self.0 {
            Some(types) => ParamIter { items: types.as_slice(), pos: 0 },
            None => ParamIter { items: &[], pos: 0 },
        }
    }
}

/// Walks the declared parameter types in order.
pub struct ParamIter<'a, T> {
    items: &'a [T],
    pos: usize,
}

impl<'a, T> View for ParamIter<'a, T> {
    type V = Seq<T>;

    /// What is still to come.
    closed spec fn view(&self) -> Seq<T> {
        self.items@.subrange(self.pos as int, self.items@.len() as int)
    }
}

impl<'a, T> ParamIter<'a, T> {
    pub closed spec fn wf(&self) -> bool {
        self.pos <= self.items@.len()
    }

    pub fn next(&mut self) -> (r: Option<&'a T>)
        requires
            old(self).wf(),
        ensures
            final(self).wf(),
            old(self)@.len() == 0 ==> r is None && final(self)@ == old(self)@,
            old(self)@.len() > 0 ==> r == Some(&old(self)@[0]) && final(self)@ == old(self)@.drop_first(),
    {
        if self.pos < self.items.len() {
            let item = &self.items[self.pos];
            self.pos = self.pos + 1;
            assert(self@ =~= old(self)@.drop_first());
            Some(item)
        } else {
            None
        }
    }
}

/// Collects parameter types one by one.
pub struct ParametersBuilder<V: Value> {
    params: Vec<V::Type>,
}

impl<V: Value> View for ParametersBuilder<V> {
    type V = Seq<V::Type>;

    closed spec fn view(&self) -> Seq<V::Type> {
        self.params@
    }
}

impl<V: Value> ParametersBuilder<V> {
    pub fn with(self, param: V::Type) -> (r: Self)
        ensures
            r@ == self@.push(param),
    {
        let mut params = self.params;
        params.push(param);
        ParametersBuilder { params }
    }

    pub fn add(&mut self, param: V::Type) -> (r: &mut Self)
        ensures
            r@ == old(self)@.push(param),
            *final(self) == *final(r),
    {
        self.params.push(param);
        self
    }

    pub fn build(self) -> (r: Parameters<V>)
        ensures
            r@ == self@,
    {
        Parameters(Some(Arc::new(self.params)))
    }
}

/// Declared parameter types and, where known, the return type of a callable.
/// Descriptive only: dispatch never checks a call against it.
#[derive(Debug, Clone, PartialEq, Eq)]
pub struct Signature<V: Value> {
    params: Parameters<V>,
    return_type: Option<V::Type>,
}

impl<V: Value> Signature<V> {
    pub closed spec fn params_spec(&self) -> Seq<V::Type> {
        self.params@
    }

    pub closed spec fn return_type_spec(&self) -> Option<V::Type> {
        self.return_type
    }

    pub fn new(params: Parameters<V>, return_type: V::Type) -> (s: Signature<V>)
        ensures
            s.params_spec() == params@,
            s.return_type_spec() == Some(return_type),
    {
        Signature { params, return_type: Some(return_type) }
    }

    pub fn params(&self) -> (p: &Parameters<V>)
        ensures
            p@ == self.params_spec(),
    {
        &self.params
    }

    pub fn return_type(&self) -> (t: Option<&V::Type>)
        ensures
            t == match self.return_type_spec() {
                Some(x) => Some(&x),
                None => None::<&V::Type>,
            },
    {
        match &self.return_type {
            Some(t) => Some(t),
            None => None,
        }
    }
}

impl<V: Value> Default for Signature<V> {
    fn default() -> (s: Self)
        ensures
            s.params_spec() == Seq::<V::Type>::empty(),
            s.return_type_spec() is None,
    {
        Signature { params: Parameters::new(), return_type: None }
    }
}

} // verus!
