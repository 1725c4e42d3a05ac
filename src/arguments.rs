use vstd::prelude::*;

use crate::error::ArgumentError;
use crate::traits::{FromValue, IntoValue, Value};

verus! {

/// An ordered sequence of values handed to one call; position is the only key.
#[derive(Debug, Clone, PartialEq, Eq, PartialOrd, Ord, Hash)]
pub struct Arguments<V> {
    args: Vec<V>,
}

impl<V> View for Arguments<V> {
    type V = Seq<V>;

    closed spec fn view(&self) -> Seq<V> {
        self.args@
    }
}

/// What reading position `index` of `args` as an `X` gives: `Missing` past the
/// end, otherwise the borrowed conversion of the value there.
pub open spec fn arg_at<'a, V: Value, X: FromValue<'a, V>>(args: Seq<V>, index: int) -> Result<
    X,
    ArgumentError<V>,
> {
    if 0 <= index < args.len() {
        X::from_value_spec(&args[index])
    } else {
        Err(ArgumentError::Missing { index: index as usize, arity: args.len() as usize })
    }
}

impl<V> Default for Arguments<V> {
    fn default() -> (r: Self)
        ensures
            r@ == Seq::<V>::empty(),
    {
        Arguments { args: Vec::new() }
    }
}

impl<V> Arguments<V> {
    pub fn new(args: Vec<V>) -> (r: Arguments<V>)
        ensures
            r@ == args@,
    {
        Arguments { args }
    }

    pub fn len(&self) -> (n: usize)
        ensures
            n == self@.len(),
    {
        self.args.len()
    }

    pub fn is_empty(&self) -> (b: bool)
        ensures
            b == (self@.len() == 0),
    {
        self.args.len() == 0
    }

    pub fn get(&self, idx: usize) -> (r: Option<&V>)
        ensures
            idx < self@.len() ==> r == Some(&self@[idx as int]),
            idx >= self@.len() ==> r is None,
    {
        if idx < self.args.len() {
            Some(&self.args[idx])
        } else {
            None
        }
    }

    pub fn get_mut(&mut self, idx: usize) -> (r: Option<&mut V>)
        ensures
            idx >= old(self)@.len() ==> r is None && final(self)@ == old(self)@,
            idx < old(self)@.len() ==> (r matches Some(x) && *x == old(self)@[idx as int]
                && final(self)@ == old(self)@.update(idx as int, *final(x))),
    {
        if idx < self.args.len() {
            Some(&mut self.args[idx])
        } else {
            None
        }
    }

    /// The values, in order.
    pub fn into_values(self) -> (v: Vec<V>)
        ensures
            v@ == self@,
    {
        self.args
    }
}

impl<V: Value> Arguments<V> {
    /// Reads position `idx` as an `X` by borrowed conversion.
    pub fn try_get_ref<'a, X: FromValue<'a, V>>(&'a self, idx: usize) -> (r: Result<
        X,
        ArgumentError<V>,
    >)
        ensures
            r == arg_at::<V, X>(self@, idx as int),
            idx >= self@.len() ==> r == Err::<X, ArgumentError<V>>(
                ArgumentError::Missing { index: idx, arity: self@.len() as usize },
            ),
    {
        if idx >= self.args.len() {
            return Err(ArgumentError::Missing { index: idx, arity: self.args.len() });
        }
        X::from_value(&self.args[idx])
    }

    /// The type tag of every value, in order.
    pub fn types(&self) -> (t: Vec<V::Type>)
        ensures
            t@.len() == self@.len(),
            forall|i: int| 0 <= i < self@.len() ==> #[trigger] t@[i] == self@[i].type_of(),
    {
        let mut t: Vec<V::Type> = Vec::new();
        let mut i: usize = 0;
        while i < self.args.len()
            invariant
                i <= self@.len(),
                t@.len() == i,
                forall|j: int| 0 <= j < i ==> #[trigger] t@[j] == self@[j].type_of(),
            decreases self@.len() - i,
        {
            t.push(self.args[i].get_type());
            i += 1;
        }
        t
    }
}

/// Builds an `Arguments` from native values, each turned into a value in turn.
#[derive(Debug)]
pub struct ArgumentsBuilder<V> {
    args: Vec<V>,
}

impl<V> View for ArgumentsBuilder<V> {
    type V = Seq<V>;

    closed spec fn view(&self) -> Seq<V> {
        self.args@
    }
}

impl<V> Default for ArgumentsBuilder<V> {
    fn default() -> (r: Self)
        ensures
            r@ == Seq::<V>::empty(),
    {
        ArgumentsBuilder { args: Vec::new() }
    }
}

impl<V> ArgumentsBuilder<V> {
    pub fn with<X: IntoValue<V>>(self, value: X) -> (r: Self)
        ensures
            r@ == self@.push(value.into_value_spec()),
    {
        let mut args = self.args;
        args.push(value.into_value());
        ArgumentsBuilder { args }
    }

    pub fn add<X: IntoValue<V>>(&mut self, value: X) -> (r: &mut Self)
        ensures
            r@ == old(self)@.push(value.into_value_spec()),
            *final(self) == *final(r),
    {
        self.args.push(value.into_value());
        self
    }

    pub fn build(self) -> (r: Arguments<V>)
        ensures
            r@ == self@,
    {
        Arguments { args: self.args }
    }
}

} // verus!
