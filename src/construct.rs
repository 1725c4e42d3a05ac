use vstd::prelude::*;

use crate::arguments::{Arguments, ArgumentsBuilder};
use crate::traits::{FromValue, IntoValue, Typed, Value};
use crate::error::ArgumentError;
use crate::extract::FromArguments;

verus! {

/// A statically typed tuple turned into an `Arguments` of the same arity, each
/// element converted in order: the dual of extraction.
///
/// An implementation that leaves one of its spec functions undefined (as any
/// implementation written outside `verus!` does) gets the default written
/// here; a default of `arbitrary()` is one fixed value, the same for every
/// argument, of which nothing is known.
pub trait ToArguments<V>: Sized {
    open spec fn to_arguments_spec(self) -> Seq<V> {
        arbitrary()
    }

    fn to_arguments(self) -> (r: Arguments<V>)
        ensures
            r@ == self.to_arguments_spec(),
    ;
}

impl<V> ToArguments<V> for () {
    open spec fn to_arguments_spec(self) -> Seq<V> {
        Seq::empty()
    }

    fn to_arguments(self) -> (r: Arguments<V>) {
        Arguments::default()
    }
}

impl<V> ToArguments<V> for Arguments<V> {
    open spec fn to_arguments_spec(self) -> Seq<V> {
        self@
    }

    fn to_arguments(self) -> (r: Arguments<V>) {
        self
    }
}

impl<V, T1: IntoValue<V>> ToArguments<V> for (T1,) {
    open spec fn to_arguments_spec(self) -> Seq<V> {
        seq![self.0.into_value_spec()]
    }

    fn to_arguments(self) -> (r: Arguments<V>) {
        let (x1,) = self;
        let b = ArgumentsBuilder::default();
        let b = b.with(x1);
        let r = b.build();
        assert(r@ =~= self.to_arguments_spec());
        r
    }
}

impl<V, T1: IntoValue<V>, T2: IntoValue<V>> ToArguments<V> for (T1, T2) {
    open spec fn to_arguments_spec(self) -> Seq<V> {
        seq![self.0.into_value_spec(), self.1.into_value_spec()]
    }

    fn to_arguments(self) -> (r: Arguments<V>) {
        let (x1, x2) = self;
        let b = ArgumentsBuilder::default();
        let b = b.with(x1);
        let b = b.with(x2);
        let r = b.build();
        assert(r@ =~= self.to_arguments_spec());
        r
    }
}

impl<V, T1: IntoValue<V>, T2: IntoValue<V>, T3: IntoValue<V>> ToArguments<V> for (T1, T2, T3) {
    open spec fn to_arguments_spec(self) -> Seq<V> {
        seq![self.0.into_value_spec(), self.1.into_value_spec(), self.2.into_value_spec()]
    }

    fn to_arguments(self) -> (r: Arguments<V>) {
        let (x1, x2, x3) = self;
        let b = ArgumentsBuilder::default();
        let b = b.with(x1);
        let b = b.with(x2);
        let b = b.with(x3);
        let r = b.build();
        assert(r@ =~= self.to_arguments_spec());
        r
    }
}

impl<V, T1: IntoValue<V>, T2: IntoValue<V>, T3: IntoValue<V>, T4: IntoValue<V>> ToArguments<V> for (T1, T2, T3, T4) {
    open spec fn to_arguments_spec(self) -> Seq<V> {
        seq![self.0.into_value_spec(), self.1.into_value_spec(), self.2.into_value_spec(), self.3.into_value_spec()]
    }

    fn to_arguments(self) -> (r: Arguments<V>) {
        let (x1, x2, x3, x4) = self;
        let b = ArgumentsBuilder::default();
        let b = b.with(x1);
        let b = b.with(x2);
        let b = b.with(x3);
        let b = b.with(x4);
        let r = b.build();
        assert(r@ =~= self.to_arguments_spec());
        r
    }
}

impl<V, T1: IntoValue<V>, T2: IntoValue<V>, T3: IntoValue<V>, T4: IntoValue<V>, T5: IntoValue<V>> ToArguments<V> for (T1, T2, T3, T4, T5) {
    open spec fn to_arguments_spec(self) -> Seq<V> {
        seq![self.0.into_value_spec(), self.1.into_value_spec(), self.2.into_value_spec(), self.3.into_value_spec(), self.4.into_value_spec()]
    }

    fn to_arguments(self) -> (r: Arguments<V>) {
        let (x1, x2, x3, x4, x5) = self;
        let b = ArgumentsBuilder::default();
        let b = b.with(x1);
        let b = b.with(x2);
        let b = b.with(x3);
        let b = b.with(x4);
        let b = b.with(x5);
        let r = b.build();
        assert(r@ =~= self.to_arguments_spec());
        r
    }
}

impl<V, T1: IntoValue<V>, T2: IntoValue<V>, T3: IntoValue<V>, T4: IntoValue<V>, T5: IntoValue<V>, T6: IntoValue<V>> ToArguments<V> for (T1, T2, T3, T4, T5, T6) {
    open spec fn to_arguments_spec(self) -> Seq<V> {
        seq![self.0.into_value_spec(), self.1.into_value_spec(), self.2.into_value_spec(), self.3.into_value_spec(), self.4.into_value_spec(), self.5.into_value_spec()]
    }

    fn to_arguments(self) -> (r: Arguments<V>) {
        let (x1, x2, x3, x4, x5, x6) = self;
        let b = ArgumentsBuilder::default();
        let b = b.with(x1);
        let b = b.with(x2);
        let b = b.with(x3);
        let b = b.with(x4);
        let b = b.with(x5);
        let b = b.with(x6);
        let r = b.build();
        assert(r@ =~= self.to_arguments_spec());
        r
    }
}

impl<V, T1: IntoValue<V>, T2: IntoValue<V>, T3: IntoValue<V>, T4: IntoValue<V>, T5: IntoValue<V>, T6: IntoValue<V>, T7: IntoValue<V>> ToArguments<V> for (T1, T2, T3, T4, T5, T6, T7) {
    open spec fn to_arguments_spec(self) -> Seq<V> {
        seq![self.0.into_value_spec(), self.1.into_value_spec(), self.2.into_value_spec(), self.3.into_value_spec(), self.4.into_value_spec(), self.5.into_value_spec(), self.6.into_value_spec()]
    }

    fn to_arguments(self) -> (r: Arguments<V>) {
        let (x1, x2, x3, x4, x5, x6, x7) = self;
        let b = ArgumentsBuilder::default();
        let b = b.with(x1);
        let b = b.with(x2);
        let b = b.with(x3);
        let b = b.with(x4);
        let b = b.with(x5);
        let b = b.with(x6);
        let b = b.with(x7);
        let r = b.build();
        assert(r@ =~= self.to_arguments_spec());
        r
    }
}

impl<V, T1: IntoValue<V>, T2: IntoValue<V>, T3: IntoValue<V>, T4: IntoValue<V>, T5: IntoValue<V>, T6: IntoValue<V>, T7: IntoValue<V>, T8: IntoValue<V>> ToArguments<V> for (T1, T2, T3, T4, T5, T6, T7, T8) {
    open spec fn to_arguments_spec(self) -> Seq<V> {
        seq![self.0.into_value_spec(), self.1.into_value_spec(), self.2.into_value_spec(), self.3.into_value_spec(), self.4.into_value_spec(), self.5.into_value_spec(), self.6.into_value_spec(), self.7.into_value_spec()]
    }

    fn to_arguments(self) -> (r: Arguments<V>) {
        let (x1, x2, x3, x4, x5, x6, x7, x8) = self;
        let b = ArgumentsBuilder::default();
        let b = b.with(x1);
        let b = b.with(x2);
        let b = b.with(x3);
        let b = b.with(x4);
        let b = b.with(x5);
        let b = b.with(x6);
        let b = b.with(x7);
        let b = b.with(x8);
        let r = b.build();
        assert(r@ =~= self.to_arguments_spec());
        r
    }
}

impl<V, T1: IntoValue<V>, T2: IntoValue<V>, T3: IntoValue<V>, T4: IntoValue<V>, T5: IntoValue<V>, T6: IntoValue<V>, T7: IntoValue<V>, T8: IntoValue<V>, T9: IntoValue<V>> ToArguments<V> for (T1, T2, T3, T4, T5, T6, T7, T8, T9) {
    open spec fn to_arguments_spec(self) -> Seq<V> {
        seq![self.0.into_value_spec(), self.1.into_value_spec(), self.2.into_value_spec(), self.3.into_value_spec(), self.4.into_value_spec(), self.5.into_value_spec(), self.6.into_value_spec(), self.7.into_value_spec(), self.8.into_value_spec()]
    }

    fn to_arguments(self) -> (r: Arguments<V>) {
        let (x1, x2, x3, x4, x5, x6, x7, x8, x9) = self;
        let b = ArgumentsBuilder::default();
        let b = b.with(x1);
        let b = b.with(x2);
        let b = b.with(x3);
        let b = b.with(x4);
        let b = b.with(x5);
        let b = b.with(x6);
        let b = b.with(x7);
        let b = b.with(x8);
        let b = b.with(x9);
        let r = b.build();
        assert(r@ =~= self.to_arguments_spec());
        r
    }
}

impl<V, T1: IntoValue<V>, T2: IntoValue<V>, T3: IntoValue<V>, T4: IntoValue<V>, T5: IntoValue<V>, T6: IntoValue<V>, T7: IntoValue<V>, T8: IntoValue<V>, T9: IntoValue<V>, T10: IntoValue<V>> ToArguments<V> for (T1, T2, T3, T4, T5, T6, T7, T8, T9, T10) {
    open spec fn to_arguments_spec(self) -> Seq<V> {
        seq![self.0.into_value_spec(), self.1.into_value_spec(), self.2.into_value_spec(), self.3.into_value_spec(), self.4.into_value_spec(), self.5.into_value_spec(), self.6.into_value_spec(), self.7.into_value_spec(), self.8.into_value_spec(), self.9.into_value_spec()]
    }

    fn to_arguments(self) -> (r: Arguments<V>) {
        let (x1, x2, x3, x4, x5, x6, x7, x8, x9, x10) = self;
        let b = ArgumentsBuilder::default();
        let b = b.with(x1);
        let b = b.with(x2);
        let b = b.with(x3);
        let b = b.with(x4);
        let b = b.with(x5);
        let b = b.with(x6);
        let b = b.with(x7);
        let b = b.with(x8);
        let b = b.with(x9);
        let b = b.with(x10);
        let r = b.build();
        assert(r@ =~= self.to_arguments_spec());
        r
    }
}

impl<V, T1: IntoValue<V>, T2: IntoValue<V>, T3: IntoValue<V>, T4: IntoValue<V>, T5: IntoValue<V>, T6: IntoValue<V>, T7: IntoValue<V>, T8: IntoValue<V>, T9: IntoValue<V>, T10: IntoValue<V>, T11: IntoValue<V>> ToArguments<V> for (T1, T2, T3, T4, T5, T6, T7, T8, T9, T10, T11) {
    open spec fn to_arguments_spec(self) -> Seq<V> {
        seq![self.0.into_value_spec(), self.1.into_value_spec(), self.2.into_value_spec(), self.3.into_value_spec(), self.4.into_value_spec(), self.5.into_value_spec(), self.6.into_value_spec(), self.7.into_value_spec(), self.8.into_value_spec(), self.9.into_value_spec(), self.10.into_value_spec()]
    }

    fn to_arguments(self) -> (r: Arguments<V>) {
        let (x1, x2, x3, x4, x5, x6, x7, x8, x9, x10, x11) = self;
        let b = ArgumentsBuilder::default();
        let b = b.with(x1);
        let b = b.with(x2);
        let b = b.with(x3);
        let b = b.with(x4);
        let b = b.with(x5);
        let b = b.with(x6);
        let b = b.with(x7);
        let b = b.with(x8);
        let b = b.with(x9);
        let b = b.with(x10);
        let b = b.with(x11);
        let r = b.build();
        assert(r@ =~= self.to_arguments_spec());
        r
    }
}

impl<V, T1: IntoValue<V>, T2: IntoValue<V>, T3: IntoValue<V>, T4: IntoValue<V>, T5: IntoValue<V>, T6: IntoValue<V>, T7: IntoValue<V>, T8: IntoValue<V>, T9: IntoValue<V>, T10: IntoValue<V>, T11: IntoValue<V>, T12: IntoValue<V>> ToArguments<V> for (T1, T2, T3, T4, T5, T6, T7, T8, T9, T10, T11, T12) {
    open spec fn to_arguments_spec(self) -> Seq<V> {
        seq![self.0.into_value_spec(), self.1.into_value_spec(), self.2.into_value_spec(), self.3.into_value_spec(), self.4.into_value_spec(), self.5.into_value_spec(), self.6.into_value_spec(), self.7.into_value_spec(), self.8.into_value_spec(), self.9.into_value_spec(), self.10.into_value_spec(), self.11.into_value_spec()]
    }

    fn to_arguments(self) -> (r: Arguments<V>) {
        let (x1, x2, x3, x4, x5, x6, x7, x8, x9, x10, x11, x12) = self;
        let b = ArgumentsBuilder::default();
        let b = b.with(x1);
        let b = b.with(x2);
        let b = b.with(x3);
        let b = b.with(x4);
        let b = b.with(x5);
        let b = b.with(x6);
        let b = b.with(x7);
        let b = b.with(x8);
        let b = b.with(x9);
        let b = b.with(x10);
        let b = b.with(x11);
        let b = b.with(x12);
        let r = b.build();
        assert(r@ =~= self.to_arguments_spec());
        r
    }
}

impl<V, T1: IntoValue<V>, T2: IntoValue<V>, T3: IntoValue<V>, T4: IntoValue<V>, T5: IntoValue<V>, T6: IntoValue<V>, T7: IntoValue<V>, T8: IntoValue<V>, T9: IntoValue<V>, T10: IntoValue<V>, T11: IntoValue<V>, T12: IntoValue<V>, T13: IntoValue<V>> ToArguments<V> for (T1, T2, T3, T4, T5, T6, T7, T8, T9, T10, T11, T12, T13) {
    open spec fn to_arguments_spec(self) -> Seq<V> {
        seq![self.0.into_value_spec(), self.1.into_value_spec(), self.2.into_value_spec(), self.3.into_value_spec(), self.4.into_value_spec(), self.5.into_value_spec(), self.6.into_value_spec(), self.7.into_value_spec(), self.8.into_value_spec(), self.9.into_value_spec(), self.10.into_value_spec(), self.11.into_value_spec(), self.12.into_value_spec()]
    }

    fn to_arguments(self) -> (r: Arguments<V>) {
        let (x1, x2, x3, x4, x5, x6, x7, x8, x9, x10, x11, x12, x13) = self;
        let b = ArgumentsBuilder::default();
        let b = b.with(x1);
        let b = b.with(x2);
        let b = b.with(x3);
        let b = b.with(x4);
        let b = b.with(x5);
        let b = b.with(x6);
        let b = b.with(x7);
        let b = b.with(x8);
        let b = b.with(x9);
        let b = b.with(x10);
        let b = b.with(x11);
        let b = b.with(x12);
        let b = b.with(x13);
        let r = b.build();
        assert(r@ =~= self.to_arguments_spec());
        r
    }
}

impl<V, T1: IntoValue<V>, T2: IntoValue<V>, T3: IntoValue<V>, T4: IntoValue<V>, T5: IntoValue<V>, T6: IntoValue<V>, T7: IntoValue<V>, T8: IntoValue<V>, T9: IntoValue<V>, T10: IntoValue<V>, T11: IntoValue<V>, T12: IntoValue<V>, T13: IntoValue<V>, T14: IntoValue<V>> ToArguments<V> for (T1, T2, T3, T4, T5, T6, T7, T8, T9, T10, T11, T12, T13, T14) {
    open spec fn to_arguments_spec(self) -> Seq<V> {
        seq![self.0.into_value_spec(), self.1.into_value_spec(), self.2.into_value_spec(), self.3.into_value_spec(), self.4.into_value_spec(), self.5.into_value_spec(), self.6.into_value_spec(), self.7.into_value_spec(), self.8.into_value_spec(), self.9.into_value_spec(), self.10.into_value_spec(), self.11.into_value_spec(), self.12.into_value_spec(), self.13.into_value_spec()]
    }

    fn to_arguments(self) -> (r: Arguments<V>) {
        let (x1, x2, x3, x4, x5, x6, x7, x8, x9, x10, x11, x12, x13, x14) = self;
        let b = ArgumentsBuilder::default();
        let b = b.with(x1);
        let b = b.with(x2);
        let b = b.with(x3);
        let b = b.with(x4);
        let b = b.with(x5);
        let b = b.with(x6);
        let b = b.with(x7);
        let b = b.with(x8);
        let b = b.with(x9);
        let b = b.with(x10);
        let b = b.with(x11);
        let b = b.with(x12);
        let b = b.with(x13);
        let b = b.with(x14);
        let r = b.build();
        assert(r@ =~= self.to_arguments_spec());
        r
    }
}

impl<V, T1: IntoValue<V>, T2: IntoValue<V>, T3: IntoValue<V>, T4: IntoValue<V>, T5: IntoValue<V>, T6: IntoValue<V>, T7: IntoValue<V>, T8: IntoValue<V>, T9: IntoValue<V>, T10: IntoValue<V>, T11: IntoValue<V>, T12: IntoValue<V>, T13: IntoValue<V>, T14: IntoValue<V>, T15: IntoValue<V>> ToArguments<V> for (T1, T2, T3, T4, T5, T6, T7, T8, T9, T10, T11, T12, T13, T14, T15) {
    open spec fn to_arguments_spec(self) -> Seq<V> {
        seq![self.0.into_value_spec(), self.1.into_value_spec(), self.2.into_value_spec(), self.3.into_value_spec(), self.4.into_value_spec(), self.5.into_value_spec(), self.6.into_value_spec(), self.7.into_value_spec(), self.8.into_value_spec(), self.9.into_value_spec(), self.10.into_value_spec(), self.11.into_value_spec(), self.12.into_value_spec(), self.13.into_value_spec(), self.14.into_value_spec()]
    }

    fn to_arguments(self) -> (r: Arguments<V>) {
        let (x1, x2, x3, x4, x5, x6, x7, x8, x9, x10, x11, x12, x13, x14, x15) = self;
        let b = ArgumentsBuilder::default();
        let b = b.with(x1);
        let b = b.with(x2);
        let b = b.with(x3);
        let b = b.with(x4);
        let b = b.with(x5);
        let b = b.with(x6);
        let b = b.with(x7);
        let b = b.with(x8);
        let b = b.with(x9);
        let b = b.with(x10);
        let b = b.with(x11);
        let b = b.with(x12);
        let b = b.with(x13);
        let b = b.with(x14);
        let b = b.with(x15);
        let r = b.build();
        assert(r@ =~= self.to_arguments_spec());
        r
    }
}

impl<V, T1: IntoValue<V>, T2: IntoValue<V>, T3: IntoValue<V>, T4: IntoValue<V>, T5: IntoValue<V>, T6: IntoValue<V>, T7: IntoValue<V>, T8: IntoValue<V>, T9: IntoValue<V>, T10: IntoValue<V>, T11: IntoValue<V>, T12: IntoValue<V>, T13: IntoValue<V>, T14: IntoValue<V>, T15: IntoValue<V>, T16: IntoValue<V>> ToArguments<V> for (T1, T2, T3, T4, T5, T6, T7, T8, T9, T10, T11, T12, T13, T14, T15, T16) {
    open spec fn to_arguments_spec(self) -> Seq<V> {
        seq![self.0.into_value_spec(), self.1.into_value_spec(), self.2.into_value_spec(), self.3.into_value_spec(), self.4.into_value_spec(), self.5.into_value_spec(), self.6.into_value_spec(), self.7.into_value_spec(), self.8.into_value_spec(), self.9.into_value_spec(), self.10.into_value_spec(), self.11.into_value_spec(), self.12.into_value_spec(), self.13.into_value_spec(), self.14.into_value_spec(), self.15.into_value_spec()]
    }

    fn to_arguments(self) -> (r: Arguments<V>) {
        let (x1, x2, x3, x4, x5, x6, x7, x8, x9, x10, x11, x12, x13, x14, x15, x16) = self;
        let b = ArgumentsBuilder::default();
        let b = b.with(x1);
        let b = b.with(x2);
        let b = b.with(x3);
        let b = b.with(x4);
        let b = b.with(x5);
        let b = b.with(x6);
        let b = b.with(x7);
        let b = b.with(x8);
        let b = b.with(x9);
        let b = b.with(x10);
        let b = b.with(x11);
        let b = b.with(x12);
        let b = b.with(x13);
        let b = b.with(x14);
        let b = b.with(x15);
        let b = b.with(x16);
        let r = b.build();
        assert(r@ =~= self.to_arguments_spec());
        r
    }
}

/// `x` comes back unchanged when turned into a value and read back.
pub open spec fn round_trips<'a, V: Value, X: FromValue<'a, V> + IntoValue<V>>(x: X) -> bool {
    X::from_value_spec(&x.into_value_spec()) == Ok::<X, ArgumentError<V>>(x)
}

/// Reading the empty tuple back out of what it builds gives it again.
pub proof fn lemma_round_trip_0<'a, V: Value>(t: ())
    ensures
        <() as FromArguments<'a, V>>::extract_spec(<() as ToArguments<V>>::to_arguments_spec(t)) == Ok::<(), ArgumentError<V>>(t),
{
}

/// Reading a 1-tuple back out of the arguments it builds gives the tuple
/// again, provided each element survives its own conversion both ways.
pub proof fn lemma_round_trip_1<'a, V: Value, T1: Typed<V> + FromValue<'a, V> + IntoValue<V>>(t: (T1,))
    requires
        round_trips::<V, T1>(t.0),
    ensures
        <(T1,) as FromArguments<'a, V>>::extract_spec(t.to_arguments_spec()) == Ok::<(T1,), ArgumentError<V>>(t),
{
    let args = t.to_arguments_spec();
    assert(args[0] == t.0.into_value_spec());
}

/// Reading a 2-tuple back out of the arguments it builds gives the tuple
/// again, provided each element survives its own conversion both ways.
pub proof fn lemma_round_trip_2<'a, V: Value, T1: Typed<V> + FromValue<'a, V> + IntoValue<V>, T2: Typed<V> + FromValue<'a, V> + IntoValue<V>>(t: (T1, T2))
    requires
        round_trips::<V, T1>(t.0),
        round_trips::<V, T2>(t.1),
    ensures
        <(T1, T2) as FromArguments<'a, V>>::extract_spec(t.to_arguments_spec()) == Ok::<(T1, T2), ArgumentError<V>>(t),
{
    let args = t.to_arguments_spec();
    assert(args[0] == t.0.into_value_spec());
    assert(args[1] == t.1.into_value_spec());
}

/// Reading a 3-tuple back out of the arguments it builds gives the tuple
/// again, provided each element survives its own conversion both ways.
pub proof fn lemma_round_trip_3<'a, V: Value, T1: Typed<V> + FromValue<'a, V> + IntoValue<V>, T2: Typed<V> + FromValue<'a, V> + IntoValue<V>, T3: Typed<V> + FromValue<'a, V> + IntoValue<V>>(t: (T1, T2, T3))
    requires
        round_trips::<V, T1>(t.0),
        round_trips::<V, T2>(t.1),
        round_trips::<V, T3>(t.2),
    ensures
        <(T1, T2, T3) as FromArguments<'a, V>>::extract_spec(t.to_arguments_spec()) == Ok::<(T1, T2, T3), ArgumentError<V>>(t),
{
    let args = t.to_arguments_spec();
    assert(args[0] == t.0.into_value_spec());
    assert(args[1] == t.1.into_value_spec());
    assert(args[2] == t.2.into_value_spec());
}

/// Reading a 4-tuple back out of the arguments it builds gives the tuple
/// again, provided each element survives its own conversion both ways.
pub proof fn lemma_round_trip_4<'a, V: Value, T1: Typed<V> + FromValue<'a, V> + IntoValue<V>, T2: Typed<V> + FromValue<'a, V> + IntoValue<V>, T3: Typed<V> + FromValue<'a, V> + IntoValue<V>, T4: Typed<V> + FromValue<'a, V> + IntoValue<V>>(t: (T1, T2, T3, T4))
    requires
        round_trips::<V, T1>(t.0),
        round_trips::<V, T2>(t.1),
        round_trips::<V, T3>(t.2),
        round_trips::<V, T4>(t.3),
    ensures
        <(T1, T2, T3, T4) as FromArguments<'a, V>>::extract_spec(t.to_arguments_spec()) == Ok::<(T1, T2, T3, T4), ArgumentError<V>>(t),
{
    let args = t.to_arguments_spec();
    assert(args[0] == t.0.into_value_spec());
    assert(args[1] == t.1.into_value_spec());
    assert(args[2] == t.2.into_value_spec());
    assert(args[3] == t.3.into_value_spec());
}

/// Reading a 5-tuple back out of the arguments it builds gives the tuple
/// again, provided each element survives its own conversion both ways.
pub proof fn lemma_round_trip_5<'a, V: Value, T1: Typed<V> + FromValue<'a, V> + IntoValue<V>, T2: Typed<V> + FromValue<'a, V> + IntoValue<V>, T3: Typed<V> + FromValue<'a, V> + IntoValue<V>, T4: Typed<V> + FromValue<'a, V> + IntoValue<V>, T5: Typed<V> + FromValue<'a, V> + IntoValue<V>>(t: (T1, T2, T3, T4, T5))
    requires
        round_trips::<V, T1>(t.0),
        round_trips::<V, T2>(t.1),
        round_trips::<V, T3>(t.2),
        round_trips::<V, T4>(t.3),
        round_trips::<V, T5>(t.4),
    ensures
        <(T1, T2, T3, T4, T5) as FromArguments<'a, V>>::extract_spec(t.to_arguments_spec()) == Ok::<(T1, T2, T3, T4, T5), ArgumentError<V>>(t),
{
    let args = t.to_arguments_spec();
    assert(args[0] == t.0.into_value_spec());
    assert(args[1] == t.1.into_value_spec());
    assert(args[2] == t.2.into_value_spec());
    assert(args[3] == t.3.into_value_spec());
    assert(args[4] == t.4.into_value_spec());
}

/// Reading a 6-tuple back out of the arguments it builds gives the tuple
/// again, provided each element survives its own conversion both ways.
pub proof fn lemma_round_trip_6<'a, V: Value, T1: Typed<V> + FromValue<'a, V> + IntoValue<V>, T2: Typed<V> + FromValue<'a, V> + IntoValue<V>, T3: Typed<V> + FromValue<'a, V> + IntoValue<V>, T4: Typed<V> + FromValue<'a, V> + IntoValue<V>, T5: Typed<V> + FromValue<'a, V> + IntoValue<V>, T6: Typed<V> + FromValue<'a, V> + IntoValue<V>>(t: (T1, T2, T3, T4, T5, T6))
    requires
        round_trips::<V, T1>(t.0),
        round_trips::<V, T2>(t.1),
        round_trips::<V, T3>(t.2),
        round_trips::<V, T4>(t.3),
        round_trips::<V, T5>(t.4),
        round_trips::<V, T6>(t.5),
    ensures
        <(T1, T2, T3, T4, T5, T6) as FromArguments<'a, V>>::extract_spec(t.to_arguments_spec()) == Ok::<(T1, T2, T3, T4, T5, T6), ArgumentError<V>>(t),
{
    let args = t.to_arguments_spec();
    assert(args[0] == t.0.into_value_spec());
    assert(args[1] == t.1.into_value_spec());
    assert(args[2] == t.2.into_value_spec());
    assert(args[3] == t.3.into_value_spec());
    assert(args[4] == t.4.into_value_spec());
    assert(args[5] == t.5.into_value_spec());
}

/// Reading a 7-tuple back out of the arguments it builds gives the tuple
/// again, provided each element survives its own conversion both ways.
pub proof fn lemma_round_trip_7<'a, V: Value, T1: Typed<V> + FromValue<'a, V> + IntoValue<V>, T2: Typed<V> + FromValue<'a, V> + IntoValue<V>, T3: Typed<V> + FromValue<'a, V> + IntoValue<V>, T4: Typed<V> + FromValue<'a, V> + IntoValue<V>, T5: Typed<V> + FromValue<'a, V> + IntoValue<V>, T6: Typed<V> + FromValue<'a, V> + IntoValue<V>, T7: Typed<V> + FromValue<'a, V> + IntoValue<V>>(t: (T1, T2, T3, T4, T5, T6, T7))
    requires
        round_trips::<V, T1>(t.0),
        round_trips::<V, T2>(t.1),
        round_trips::<V, T3>(t.2),
        round_trips::<V, T4>(t.3),
        round_trips::<V, T5>(t.4),
        round_trips::<V, T6>(t.5),
        round_trips::<V, T7>(t.6),
    ensures
        <(T1, T2, T3, T4, T5, T6, T7) as FromArguments<'a, V>>::extract_spec(t.to_arguments_spec()) == Ok::<(T1, T2, T3, T4, T5, T6, T7), ArgumentError<V>>(t),
{
    let args = t.to_arguments_spec();
    assert(args[0] == t.0.into_value_spec());
    assert(args[1] == t.1.into_value_spec());
    assert(args[2] == t.2.into_value_spec());
    assert(args[3] == t.3.into_value_spec());
    assert(args[4] == t.4.into_value_spec());
    assert(args[5] == t.5.into_value_spec());
    assert(args[6] == t.6.into_value_spec());
}

/// Reading a 8-tuple back out of the arguments it builds gives the tuple
/// again, provided each element survives its own conversion both ways.
pub proof fn lemma_round_trip_8<'a, V: Value, T1: Typed<V> + FromValue<'a, V> + IntoValue<V>, T2: Typed<V> + FromValue<'a, V> + IntoValue<V>, T3: Typed<V> + FromValue<'a, V> + IntoValue<V>, T4: Typed<V> + FromValue<'a, V> + IntoValue<V>, T5: Typed<V> + FromValue<'a, V> + IntoValue<V>, T6: Typed<V> + FromValue<'a, V> + IntoValue<V>, T7: Typed<V> + FromValue<'a, V> + IntoValue<V>, T8: Typed<V> + FromValue<'a, V> + IntoValue<V>>(t: (T1, T2, T3, T4, T5, T6, T7, T8))
    requires
        round_trips::<V, T1>(t.0),
        round_trips::<V, T2>(t.1),
        round_trips::<V, T3>(t.2),
        round_trips::<V, T4>(t.3),
        round_trips::<V, T5>(t.4),
        round_trips::<V, T6>(t.5),
        round_trips::<V, T7>(t.6),
        round_trips::<V, T8>(t.7),
    ensures
        <(T1, T2, T3, T4, T5, T6, T7, T8) as FromArguments<'a, V>>::extract_spec(t.to_arguments_spec()) == Ok::<(T1, T2, T3, T4, T5, T6, T7, T8), ArgumentError<V>>(t),
{
    let args = t.to_arguments_spec();
    assert(args[0] == t.0.into_value_spec());
    assert(args[1] == t.1.into_value_spec());
    assert(args[2] == t.2.into_value_spec());
    assert(args[3] == t.3.into_value_spec());
    assert(args[4] == t.4.into_value_spec());
    assert(args[5] == t.5.into_value_spec());
    assert(args[6] == t.6.into_value_spec());
    assert(args[7] == t.7.into_value_spec());
}

/// Reading a 9-tuple back out of the arguments it builds gives the tuple
/// again, provided each element survives its own conversion both ways.
pub proof fn lemma_round_trip_9<'a, V: Value, T1: Typed<V> + FromValue<'a, V> + IntoValue<V>, T2: Typed<V> + FromValue<'a, V> + IntoValue<V>, T3: Typed<V> + FromValue<'a, V> + IntoValue<V>, T4: Typed<V> + FromValue<'a, V> + IntoValue<V>, T5: Typed<V> + FromValue<'a, V> + IntoValue<V>, T6: Typed<V> + FromValue<'a, V> + IntoValue<V>, T7: Typed<V> + FromValue<'a, V> + IntoValue<V>, T8: Typed<V> + FromValue<'a, V> + IntoValue<V>, T9: Typed<V> + FromValue<'a, V> + IntoValue<V>>(t: (T1, T2, T3, T4, T5, T6, T7, T8, T9))
    requires
        round_trips::<V, T1>(t.0),
        round_trips::<V, T2>(t.1),
        round_trips::<V, T3>(t.2),
        round_trips::<V, T4>(t.3),
        round_trips::<V, T5>(t.4),
        round_trips::<V, T6>(t.5),
        round_trips::<V, T7>(t.6),
        round_trips::<V, T8>(t.7),
        round_trips::<V, T9>(t.8),
    ensures
        <(T1, T2, T3, T4, T5, T6, T7, T8, T9) as FromArguments<'a, V>>::extract_spec(t.to_arguments_spec()) == Ok::<(T1, T2, T3, T4, T5, T6, T7, T8, T9), ArgumentError<V>>(t),
{
    let args = t.to_arguments_spec();
    assert(args[0] == t.0.into_value_spec());
    assert(args[1] == t.1.into_value_spec());
    assert(args[2] == t.2.into_value_spec());
    assert(args[3] == t.3.into_value_spec());
    assert(args[4] == t.4.into_value_spec());
    assert(args[5] == t.5.into_value_spec());
    assert(args[6] == t.6.into_value_spec());
    assert(args[7] == t.7.into_value_spec());
    assert(args[8] == t.8.into_value_spec());
}

/// Reading a 10-tuple back out of the arguments it builds gives the tuple
/// again, provided each element survives its own conversion both ways.
pub proof fn lemma_round_trip_10<'a, V: Value, T1: Typed<V> + FromValue<'a, V> + IntoValue<V>, T2: Typed<V> + FromValue<'a, V> + IntoValue<V>, T3: Typed<V> + FromValue<'a, V> + IntoValue<V>, T4: Typed<V> + FromValue<'a, V> + IntoValue<V>, T5: Typed<V> + FromValue<'a, V> + IntoValue<V>, T6: Typed<V> + FromValue<'a, V> + IntoValue<V>, T7: Typed<V> + FromValue<'a, V> + IntoValue<V>, T8: Typed<V> + FromValue<'a, V> + IntoValue<V>, T9: Typed<V> + FromValue<'a, V> + IntoValue<V>, T10: Typed<V> + FromValue<'a, V> + IntoValue<V>>(t: (T1, T2, T3, T4, T5, T6, T7, T8, T9, T10))
    requires
        round_trips::<V, T1>(t.0),
        round_trips::<V, T2>(t.1),
        round_trips::<V, T3>(t.2),
        round_trips::<V, T4>(t.3),
        round_trips::<V, T5>(t.4),
        round_trips::<V, T6>(t.5),
        round_trips::<V, T7>(t.6),
        round_trips::<V, T8>(t.7),
        round_trips::<V, T9>(t.8),
        round_trips::<V, T10>(t.9),
    ensures
        <(T1, T2, T3, T4, T5, T6, T7, T8, T9, T10) as FromArguments<'a, V>>::extract_spec(t.to_arguments_spec()) == Ok::<(T1, T2, T3, T4, T5, T6, T7, T8, T9, T10), ArgumentError<V>>(t),
{
    let args = t.to_arguments_spec();
    assert(args[0] == t.0.into_value_spec());
    assert(args[1] == t.1.into_value_spec());
    assert(args[2] == t.2.into_value_spec());
    assert(args[3] == t.3.into_value_spec());
    assert(args[4] == t.4.into_value_spec());
    assert(args[5] == t.5.into_value_spec());
    assert(args[6] == t.6.into_value_spec());
    assert(args[7] == t.7.into_value_spec());
    assert(args[8] == t.8.into_value_spec());
    assert(args[9] == t.9.into_value_spec());
}

/// Reading a 11-tuple back out of the arguments it builds gives the tuple
/// again, provided each element survives its own conversion both ways.
pub proof fn lemma_round_trip_11<'a, V: Value, T1: Typed<V> + FromValue<'a, V> + IntoValue<V>, T2: Typed<V> + FromValue<'a, V> + IntoValue<V>, T3: Typed<V> + FromValue<'a, V> + IntoValue<V>, T4: Typed<V> + FromValue<'a, V> + IntoValue<V>, T5: Typed<V> + FromValue<'a, V> + IntoValue<V>, T6: Typed<V> + FromValue<'a, V> + IntoValue<V>, T7: Typed<V> + FromValue<'a, V> + IntoValue<V>, T8: Typed<V> + FromValue<'a, V> + IntoValue<V>, T9: Typed<V> + FromValue<'a, V> + IntoValue<V>, T10: Typed<V> + FromValue<'a, V> + IntoValue<V>, T11: Typed<V> + FromValue<'a, V> + IntoValue<V>>(t: (T1, T2, T3, T4, T5, T6, T7, T8, T9, T10, T11))
    requires
        round_trips::<V, T1>(t.0),
        round_trips::<V, T2>(t.1),
        round_trips::<V, T3>(t.2),
        round_trips::<V, T4>(t.3),
        round_trips::<V, T5>(t.4),
        round_trips::<V, T6>(t.5),
        round_trips::<V, T7>(t.6),
        round_trips::<V, T8>(t.7),
        round_trips::<V, T9>(t.8),
        round_trips::<V, T10>(t.9),
        round_trips::<V, T11>(t.10),
    ensures
        <(T1, T2, T3, T4, T5, T6, T7, T8, T9, T10, T11) as FromArguments<'a, V>>::extract_spec(t.to_arguments_spec()) == Ok::<(T1, T2, T3, T4, T5, T6, T7, T8, T9, T10, T11), ArgumentError<V>>(t),
{
    let args = t.to_arguments_spec();
    assert(args[0] == t.0.into_value_spec());
    assert(args[1] == t.1.into_value_spec());
    assert(args[2] == t.2.into_value_spec());
    assert(args[3] == t.3.into_value_spec());
    assert(args[4] == t.4.into_value_spec());
    assert(args[5] == t.5.into_value_spec());
    assert(args[6] == t.6.into_value_spec());
    assert(args[7] == t.7.into_value_spec());
    assert(args[8] == t.8.into_value_spec());
    assert(args[9] == t.9.into_value_spec());
    assert(args[10] == t.10.into_value_spec());
}

/// Reading a 12-tuple back out of the arguments it builds gives the tuple
/// again, provided each element survives its own conversion both ways.
pub proof fn lemma_round_trip_12<'a, V: Value, T1: Typed<V> + FromValue<'a, V> + IntoValue<V>, T2: Typed<V> + FromValue<'a, V> + IntoValue<V>, T3: Typed<V> + FromValue<'a, V> + IntoValue<V>, T4: Typed<V> + FromValue<'a, V> + IntoValue<V>, T5: Typed<V> + FromValue<'a, V> + IntoValue<V>, T6: Typed<V> + FromValue<'a, V> + IntoValue<V>, T7: Typed<V> + FromValue<'a, V> + IntoValue<V>, T8: Typed<V> + FromValue<'a, V> + IntoValue<V>, T9: Typed<V> + FromValue<'a, V> + IntoValue<V>, T10: Typed<V> + FromValue<'a, V> + IntoValue<V>, T11: Typed<V> + FromValue<'a, V> + IntoValue<V>, T12: Typed<V> + FromValue<'a, V> + IntoValue<V>>(t: (T1, T2, T3, T4, T5, T6, T7, T8, T9, T10, T11, T12))
    requires
        round_trips::<V, T1>(t.0),
        round_trips::<V, T2>(t.1),
        round_trips::<V, T3>(t.2),
        round_trips::<V, T4>(t.3),
        round_trips::<V, T5>(t.4),
        round_trips::<V, T6>(t.5),
        round_trips::<V, T7>(t.6),
        round_trips::<V, T8>(t.7),
        round_trips::<V, T9>(t.8),
        round_trips::<V, T10>(t.9),
        round_trips::<V, T11>(t.10),
        round_trips::<V, T12>(t.11),
    ensures
        <(T1, T2, T3, T4, T5, T6, T7, T8, T9, T10, T11, T12) as FromArguments<'a, V>>::extract_spec(t.to_arguments_spec()) == Ok::<(T1, T2, T3, T4, T5, T6, T7, T8, T9, T10, T11, T12), ArgumentError<V>>(t),
{
    let args = t.to_arguments_spec();
    assert(args[0] == t.0.into_value_spec());
    assert(args[1] == t.1.into_value_spec());
    assert(args[2] == t.2.into_value_spec());
    assert(args[3] == t.3.into_value_spec());
    assert(args[4] == t.4.into_value_spec());
    assert(args[5] == t.5.into_value_spec());
    assert(args[6] == t.6.into_value_spec());
    assert(args[7] == t.7.into_value_spec());
    assert(args[8] == t.8.into_value_spec());
    assert(args[9] == t.9.into_value_spec());
    assert(args[10] == t.10.into_value_spec());
    assert(args[11] == t.11.into_value_spec());
}

/// Reading a 13-tuple back out of the arguments it builds gives the tuple
/// again, provided each element survives its own conversion both ways.
pub proof fn lemma_round_trip_13<'a, V: Value, T1: Typed<V> + FromValue<'a, V> + IntoValue<V>, T2: Typed<V> + FromValue<'a, V> + IntoValue<V>, T3: Typed<V> + FromValue<'a, V> + IntoValue<V>, T4: Typed<V> + FromValue<'a, V> + IntoValue<V>, T5: Typed<V> + FromValue<'a, V> + IntoValue<V>, T6: Typed<V> + FromValue<'a, V> + IntoValue<V>, T7: Typed<V> + FromValue<'a, V> + IntoValue<V>, T8: Typed<V> + FromValue<'a, V> + IntoValue<V>, T9: Typed<V> + FromValue<'a, V> + IntoValue<V>, T10: Typed<V> + FromValue<'a, V> + IntoValue<V>, T11: Typed<V> + FromValue<'a, V> + IntoValue<V>, T12: Typed<V> + FromValue<'a, V> + IntoValue<V>, T13: Typed<V> + FromValue<'a, V> + IntoValue<V>>(t: (T1, T2, T3, T4, T5, T6, T7, T8, T9, T10, T11, T12, T13))
    requires
        round_trips::<V, T1>(t.0),
        round_trips::<V, T2>(t.1),
        round_trips::<V, T3>(t.2),
        round_trips::<V, T4>(t.3),
        round_trips::<V, T5>(t.4),
        round_trips::<V, T6>(t.5),
        round_trips::<V, T7>(t.6),
        round_trips::<V, T8>(t.7),
        round_trips::<V, T9>(t.8),
        round_trips::<V, T10>(t.9),
        round_trips::<V, T11>(t.10),
        round_trips::<V, T12>(t.11),
        round_trips::<V, T13>(t.12),
    ensures
        <(T1, T2, T3, T4, T5, T6, T7, T8, T9, T10, T11, T12, T13) as FromArguments<'a, V>>::extract_spec(t.to_arguments_spec()) == Ok::<(T1, T2, T3, T4, T5, T6, T7, T8, T9, T10, T11, T12, T13), ArgumentError<V>>(t),
{
    let args = t.to_arguments_spec();
    assert(args[0] == t.0.into_value_spec());
    assert(args[1] == t.1.into_value_spec());
    assert(args[2] == t.2.into_value_spec());
    assert(args[3] == t.3.into_value_spec());
    assert(args[4] == t.4.into_value_spec());
    assert(args[5] == t.5.into_value_spec());
    assert(args[6] == t.6.into_value_spec());
    assert(args[7] == t.7.into_value_spec());
    assert(args[8] == t.8.into_value_spec());
    assert(args[9] == t.9.into_value_spec());
    assert(args[10] == t.10.into_value_spec());
    assert(args[11] == t.11.into_value_spec());
    assert(args[12] == t.12.into_value_spec());
}

/// Reading a 14-tuple back out of the arguments it builds gives the tuple
/// again, provided each element survives its own conversion both ways.
pub proof fn lemma_round_trip_14<'a, V: Value, T1: Typed<V> + FromValue<'a, V> + IntoValue<V>, T2: Typed<V> + FromValue<'a, V> + IntoValue<V>, T3: Typed<V> + FromValue<'a, V> + IntoValue<V>, T4: Typed<V> + FromValue<'a, V> + IntoValue<V>, T5: Typed<V> + FromValue<'a, V> + IntoValue<V>, T6: Typed<V> + FromValue<'a, V> + IntoValue<V>, T7: Typed<V> + FromValue<'a, V> + IntoValue<V>, T8: Typed<V> + FromValue<'a, V> + IntoValue<V>, T9: Typed<V> + FromValue<'a, V> + IntoValue<V>, T10: Typed<V> + FromValue<'a, V> + IntoValue<V>, T11: Typed<V> + FromValue<'a, V> + IntoValue<V>, T12: Typed<V> + FromValue<'a, V> + IntoValue<V>, T13: Typed<V> + FromValue<'a, V> + IntoValue<V>, T14: Typed<V> + FromValue<'a, V> + IntoValue<V>>(t: (T1, T2, T3, T4, T5, T6, T7, T8, T9, T10, T11, T12, T13, T14))
    requires
        round_trips::<V, T1>(t.0),
        round_trips::<V, T2>(t.1),
        round_trips::<V, T3>(t.2),
        round_trips::<V, T4>(t.3),
        round_trips::<V, T5>(t.4),
        round_trips::<V, T6>(t.5),
        round_trips::<V, T7>(t.6),
        round_trips::<V, T8>(t.7),
        round_trips::<V, T9>(t.8),
        round_trips::<V, T10>(t.9),
        round_trips::<V, T11>(t.10),
        round_trips::<V, T12>(t.11),
        round_trips::<V, T13>(t.12),
        round_trips::<V, T14>(t.13),
    ensures
        <(T1, T2, T3, T4, T5, T6, T7, T8, T9, T10, T11, T12, T13, T14) as FromArguments<'a, V>>::extract_spec(t.to_arguments_spec()) == Ok::<(T1, T2, T3, T4, T5, T6, T7, T8, T9, T10, T11, T12, T13, T14), ArgumentError<V>>(t),
{
    let args = t.to_arguments_spec();
    assert(args[0] == t.0.into_value_spec());
    assert(args[1] == t.1.into_value_spec());
    assert(args[2] == t.2.into_value_spec());
    assert(args[3] == t.3.into_value_spec());
    assert(args[4] == t.4.into_value_spec());
    assert(args[5] == t.5.into_value_spec());
    assert(args[6] == t.6.into_value_spec());
    assert(args[7] == t.7.into_value_spec());
    assert(args[8] == t.8.into_value_spec());
    assert(args[9] == t.9.into_value_spec());
    assert(args[10] == t.10.into_value_spec());
    assert(args[11] == t.11.into_value_spec());
    assert(args[12] == t.12.into_value_spec());
    assert(args[13] == t.13.into_value_spec());
}

/// Reading a 15-tuple back out of the arguments it builds gives the tuple
/// again, provided each element survives its own conversion both ways.
pub proof fn lemma_round_trip_15<'a, V: Value, T1: Typed<V> + FromValue<'a, V> + IntoValue<V>, T2: Typed<V> + FromValue<'a, V> + IntoValue<V>, T3: Typed<V> + FromValue<'a, V> + IntoValue<V>, T4: Typed<V> + FromValue<'a, V> + IntoValue<V>, T5: Typed<V> + FromValue<'a, V> + IntoValue<V>, T6: Typed<V> + FromValue<'a, V> + IntoValue<V>, T7: Typed<V> + FromValue<'a, V> + IntoValue<V>, T8: Typed<V> + FromValue<'a, V> + IntoValue<V>, T9: Typed<V> + FromValue<'a, V> + IntoValue<V>, T10: Typed<V> + FromValue<'a, V> + IntoValue<V>, T11: Typed<V> + FromValue<'a, V> + IntoValue<V>, T12: Typed<V> + FromValue<'a, V> + IntoValue<V>, T13: Typed<V> + FromValue<'a, V> + IntoValue<V>, T14: Typed<V> + FromValue<'a, V> + IntoValue<V>, T15: Typed<V> + FromValue<'a, V> + IntoValue<V>>(t: (T1, T2, T3, T4, T5, T6, T7, T8, T9, T10, T11, T12, T13, T14, T15))
    requires
        round_trips::<V, T1>(t.0),
        round_trips::<V, T2>(t.1),
        round_trips::<V, T3>(t.2),
        round_trips::<V, T4>(t.3),
        round_trips::<V, T5>(t.4),
        round_trips::<V, T6>(t.5),
        round_trips::<V, T7>(t.6),
        round_trips::<V, T8>(t.7),
        round_trips::<V, T9>(t.8),
        round_trips::<V, T10>(t.9),
        round_trips::<V, T11>(t.10),
        round_trips::<V, T12>(t.11),
        round_trips::<V, T13>(t.12),
        round_trips::<V, T14>(t.13),
        round_trips::<V, T15>(t.14),
    ensures
        <(T1, T2, T3, T4, T5, T6, T7, T8, T9, T10, T11, T12, T13, T14, T15) as FromArguments<'a, V>>::extract_spec(t.to_arguments_spec()) == Ok::<(T1, T2, T3, T4, T5, T6, T7, T8, T9, T10, T11, T12, T13, T14, T15), ArgumentError<V>>(t),
{
    let args = t.to_arguments_spec();
    assert(args[0] == t.0.into_value_spec());
    assert(args[1] == t.1.into_value_spec());
    assert(args[2] == t.2.into_value_spec());
    assert(args[3] == t.3.into_value_spec());
    assert(args[4] == t.4.into_value_spec());
    assert(args[5] == t.5.into_value_spec());
    assert(args[6] == t.6.into_value_spec());
    assert(args[7] == t.7.into_value_spec());
    assert(args[8] == t.8.into_value_spec());
    assert(args[9] == t.9.into_value_spec());
    assert(args[10] == t.10.into_value_spec());
    assert(args[11] == t.11.into_value_spec());
    assert(args[12] == t.12.into_value_spec());
    assert(args[13] == t.13.into_value_spec());
    assert(args[14] == t.14.into_value_spec());
}

/// Reading a 16-tuple back out of the arguments it builds gives the tuple
/// again, provided each element survives its own conversion both ways.
pub proof fn lemma_round_trip_16<'a, V: Value, T1: Typed<V> + FromValue<'a, V> + IntoValue<V>, T2: Typed<V> + FromValue<'a, V> + IntoValue<V>, T3: Typed<V> + FromValue<'a, V> + IntoValue<V>, T4: Typed<V> + FromValue<'a, V> + IntoValue<V>, T5: Typed<V> + FromValue<'a, V> + IntoValue<V>, T6: Typed<V> + FromValue<'a, V> + IntoValue<V>, T7: Typed<V> + FromValue<'a, V> + IntoValue<V>, T8: Typed<V> + FromValue<'a, V> + IntoValue<V>, T9: Typed<V> + FromValue<'a, V> + IntoValue<V>, T10: Typed<V> + FromValue<'a, V> + IntoValue<V>, T11: Typed<V> + FromValue<'a, V> + IntoValue<V>, T12: Typed<V> + FromValue<'a, V> + IntoValue<V>, T13: Typed<V> + FromValue<'a, V> + IntoValue<V>, T14: Typed<V> + FromValue<'a, V> + IntoValue<V>, T15: Typed<V> + FromValue<'a, V> + IntoValue<V>, T16: Typed<V> + FromValue<'a, V> + IntoValue<V>>(t: (T1, T2, T3, T4, T5, T6, T7, T8, T9, T10, T11, T12, T13, T14, T15, T16))
    requires
        round_trips::<V, T1>(t.0),
        round_trips::<V, T2>(t.1),
        round_trips::<V, T3>(t.2),
        round_trips::<V, T4>(t.3),
        round_trips::<V, T5>(t.4),
        round_trips::<V, T6>(t.5),
        round_trips::<V, T7>(t.6),
        round_trips::<V, T8>(t.7),
        round_trips::<V, T9>(t.8),
        round_trips::<V, T10>(t.9),
        round_trips::<V, T11>(t.10),
        round_trips::<V, T12>(t.11),
        round_trips::<V, T13>(t.12),
        round_trips::<V, T14>(t.13),
        round_trips::<V, T15>(t.14),
        round_trips::<V, T16>(t.15),
    ensures
        <(T1, T2, T3, T4, T5, T6, T7, T8, T9, T10, T11, T12, T13, T14, T15, T16) as FromArguments<'a, V>>::extract_spec(t.to_arguments_spec()) == Ok::<(T1, T2, T3, T4, T5, T6, T7, T8, T9, T10, T11, T12, T13, T14, T15, T16), ArgumentError<V>>(t),
{
    let args = t.to_arguments_spec();
    assert(args[0] == t.0.into_value_spec());
    assert(args[1] == t.1.into_value_spec());
    assert(args[2] == t.2.into_value_spec());
    assert(args[3] == t.3.into_value_spec());
    assert(args[4] == t.4.into_value_spec());
    assert(args[5] == t.5.into_value_spec());
    assert(args[6] == t.6.into_value_spec());
    assert(args[7] == t.7.into_value_spec());
    assert(args[8] == t.8.into_value_spec());
    assert(args[9] == t.9.into_value_spec());
    assert(args[10] == t.10.into_value_spec());
    assert(args[11] == t.11.into_value_spec());
    assert(args[12] == t.12.into_value_spec());
    assert(args[13] == t.13.into_value_spec());
    assert(args[14] == t.14.into_value_spec());
    assert(args[15] == t.15.into_value_spec());
}

} // verus!
