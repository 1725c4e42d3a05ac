use vstd::prelude::*;

use crate::arguments::{arg_at, Arguments};
use crate::error::ArgumentError;
use crate::signature::Parameters;
use crate::traits::{FromValue, Typed, Value};

verus! {

/// A tuple of native types that can be read, position by position, out of an
/// `Arguments`. Reading stops at the first position that fails and yields its
/// error; no partial tuple is ever produced. The declared parameter types are a
/// property of the tuple's shape alone.
///
/// An implementation that leaves one of its spec functions undefined (as any
/// implementation written outside `verus!` does) gets the default written
/// here; a default of `arbitrary()` is one fixed value, the same for every
/// argument, of which nothing is known.
pub trait FromArguments<'a, V: Value>: Sized {
    /// Number of positions the tuple reads.
    open spec fn arity() -> nat {
        arbitrary()
    }

    /// What reading the tuple out of `args` gives.
    open spec fn extract_spec(args: Seq<V>) -> Result<Self, ArgumentError<V>> {
        arbitrary()
    }

    /// The declared type of each position.
    open spec fn parameters_spec() -> Seq<V::Type> {
        arbitrary()
    }

    fn from_arguments(args: &'a Arguments<V>) -> (r: Result<Self, ArgumentError<V>>)
        ensures
            r == Self::extract_spec(args@),
    ;

    fn parameters() -> (p: Parameters<V>)
        ensures
            p@ == Self::parameters_spec(),
            p@.len() == Self::arity(),
    ;
}

impl<'a, V: Value> FromArguments<'a, V> for () {
    open spec fn arity() -> nat {
        0
    }

    open spec fn extract_spec(args: Seq<V>) -> Result<(), ArgumentError<V>> {
        Ok(())
    }

    open spec fn parameters_spec() -> Seq<V::Type> {
        Seq::empty()
    }

    fn from_arguments(args: &'a Arguments<V>) -> (r: Result<(), ArgumentError<V>>) {
        Ok(())
    }

    fn parameters() -> (p: Parameters<V>) {
        Parameters::new()
    }
}

impl<'a, V: Value, T1: Typed<V> + FromValue<'a, V>> FromArguments<'a, V> for (T1,) {
    open spec fn arity() -> nat {
        1
    }

    open spec fn extract_spec(args: Seq<V>) -> Result<(T1,), ArgumentError<V>> {
        match arg_at::<V, T1>(args, 0) {
            Err(e) => Err(e),
            Ok(x1) => {
                Ok((x1,))
            },
        }
    }

    open spec fn parameters_spec() -> Seq<V::Type> {
        seq![T1::static_type()]
    }

    fn from_arguments(args: &'a Arguments<V>) -> (r: Result<(T1,), ArgumentError<V>>) {
        let x1 = args.try_get_ref::<T1>(0)?;
        Ok((x1,))
    }

    fn parameters() -> (p: Parameters<V>) {
        let b = Parameters::build();
        let b = b.with(T1::get_type());
        let p = b.build();
        assert(p@ =~= Self::parameters_spec());
        p
    }
}

impl<'a, V: Value, T1: Typed<V> + FromValue<'a, V>, T2: Typed<V> + FromValue<'a, V>> FromArguments<'a, V> for (T1, T2) {
    open spec fn arity() -> nat {
        2
    }

    open spec fn extract_spec(args: Seq<V>) -> Result<(T1, T2), ArgumentError<V>> {
        match arg_at::<V, T1>(args, 0) {
            Err(e) => Err(e),
            Ok(x1) => {
                match arg_at::<V, T2>(args, 1) {
                    Err(e) => Err(e),
                    Ok(x2) => {
                        Ok((x1, x2))
                    },
                }
            },
        }
    }

    open spec fn parameters_spec() -> Seq<V::Type> {
        seq![T1::static_type(), T2::static_type()]
    }

    fn from_arguments(args: &'a Arguments<V>) -> (r: Result<(T1, T2), ArgumentError<V>>) {
        let x1 = args.try_get_ref::<T1>(0)?;
        let x2 = args.try_get_ref::<T2>(1)?;
        Ok((x1, x2))
    }

    fn parameters() -> (p: Parameters<V>) {
        let b = Parameters::build();
        let b = b.with(T1::get_type());
        let b = b.with(T2::get_type());
        let p = b.build();
        assert(p@ =~= Self::parameters_spec());
        p
    }
}

impl<'a, V: Value, T1: Typed<V> + FromValue<'a, V>, T2: Typed<V> + FromValue<'a, V>, T3: Typed<V> + FromValue<'a, V>> FromArguments<'a, V> for (T1, T2, T3) {
    open spec fn arity() -> nat {
        3
    }

    open spec fn extract_spec(args: Seq<V>) -> Result<(T1, T2, T3), ArgumentError<V>> {
        match arg_at::<V, T1>(args, 0) {
            Err(e) => Err(e),
            Ok(x1) => {
                match arg_at::<V, T2>(args, 1) {
                    Err(e) => Err(e),
                    Ok(x2) => {
                        match arg_at::<V, T3>(args, 2) {
                            Err(e) => Err(e),
                            Ok(x3) => {
                                Ok((x1, x2, x3))
                            },
                        }
                    },
                }
            },
        }
    }

    open spec fn parameters_spec() -> Seq<V::Type> {
        seq![T1::static_type(), T2::static_type(), T3::static_type()]
    }

    fn from_arguments(args: &'a Arguments<V>) -> (r: Result<(T1, T2, T3), ArgumentError<V>>) {
        let x1 = args.try_get_ref::<T1>(0)?;
        let x2 = args.try_get_ref::<T2>(1)?;
        let x3 = args.try_get_ref::<T3>(2)?;
        Ok((x1, x2, x3))
    }

    fn parameters() -> (p: Parameters<V>) {
        let b = Parameters::build();
        let b = b.with(T1::get_type());
        let b = b.with(T2::get_type());
        let b = b.with(T3::get_type());
        let p = b.build();
        assert(p@ =~= Self::parameters_spec());
        p
    }
}

impl<'a, V: Value, T1: Typed<V> + FromValue<'a, V>, T2: Typed<V> + FromValue<'a, V>, T3: Typed<V> + FromValue<'a, V>, T4: Typed<V> + FromValue<'a, V>> FromArguments<'a, V> for (T1, T2, T3, T4) {
    open spec fn arity() -> nat {
        4
    }

    open spec fn extract_spec(args: Seq<V>) -> Result<(T1, T2, T3, T4), ArgumentError<V>> {
        match arg_at::<V, T1>(args, 0) {
            Err(e) => Err(e),
            Ok(x1) => {
                match arg_at::<V, T2>(args, 1) {
                    Err(e) => Err(e),
                    Ok(x2) => {
                        match arg_at::<V, T3>(args, 2) {
                            Err(e) => Err(e),
                            Ok(x3) => {
                                match arg_at::<V, T4>(args, 3) {
                                    Err(e) => Err(e),
                                    Ok(x4) => {
                                        Ok((x1, x2, x3, x4))
                                    },
                                }
                            },
                        }
                    },
                }
            },
        }
    }

    open spec fn parameters_spec() -> Seq<V::Type> {
        seq![T1::static_type(), T2::static_type(), T3::static_type(), T4::static_type()]
    }

    fn from_arguments(args: &'a Arguments<V>) -> (r: Result<(T1, T2, T3, T4), ArgumentError<V>>) {
        let x1 = args.try_get_ref::<T1>(0)?;
        let x2 = args.try_get_ref::<T2>(1)?;
        let x3 = args.try_get_ref::<T3>(2)?;
        let x4 = args.try_get_ref::<T4>(3)?;
        Ok((x1, x2, x3, x4))
    }

    fn parameters() -> (p: Parameters<V>) {
        let b = Parameters::build();
        let b = b.with(T1::get_type());
        let b = b.with(T2::get_type());
        let b = b.with(T3::get_type());
        let b = b.with(T4::get_type());
        let p = b.build();
        assert(p@ =~= Self::parameters_spec());
        p
    }
}

impl<'a, V: Value, T1: Typed<V> + FromValue<'a, V>, T2: Typed<V> + FromValue<'a, V>, T3: Typed<V> + FromValue<'a, V>, T4: Typed<V> + FromValue<'a, V>, T5: Typed<V> + FromValue<'a, V>> FromArguments<'a, V> for (T1, T2, T3, T4, T5) {
    open spec fn arity() -> nat {
        5
    }

    open spec fn extract_spec(args: Seq<V>) -> Result<(T1, T2, T3, T4, T5), ArgumentError<V>> {
        match arg_at::<V, T1>(args, 0) {
            Err(e) => Err(e),
            Ok(x1) => {
                match arg_at::<V, T2>(args, 1) {
                    Err(e) => Err(e),
                    Ok(x2) => {
                        match arg_at::<V, T3>(args, 2) {
                            Err(e) => Err(e),
                            Ok(x3) => {
                                match arg_at::<V, T4>(args, 3) {
                                    Err(e) => Err(e),
                                    Ok(x4) => {
                                        match arg_at::<V, T5>(args, 4) {
                                            Err(e) => Err(e),
                                            Ok(x5) => {
                                                Ok((x1, x2, x3, x4, x5))
                                            },
                                        }
                                    },
                                }
                            },
                        }
                    },
                }
            },
        }
    }

    open spec fn parameters_spec() -> Seq<V::Type> {
        seq![T1::static_type(), T2::static_type(), T3::static_type(), T4::static_type(), T5::static_type()]
    }

    fn from_arguments(args: &'a Arguments<V>) -> (r: Result<(T1, T2, T3, T4, T5), ArgumentError<V>>) {
        let x1 = args.try_get_ref::<T1>(0)?;
        let x2 = args.try_get_ref::<T2>(1)?;
        let x3 = args.try_get_ref::<T3>(2)?;
        let x4 = args.try_get_ref::<T4>(3)?;
        let x5 = args.try_get_ref::<T5>(4)?;
        Ok((x1, x2, x3, x4, x5))
    }

    fn parameters() -> (p: Parameters<V>) {
        let b = Parameters::build();
        let b = b.with(T1::get_type());
        let b = b.with(T2::get_type());
        let b = b.with(T3::get_type());
        let b = b.with(T4::get_type());
        let b = b.with(T5::get_type());
        let p = b.build();
        assert(p@ =~= Self::parameters_spec());
        p
    }
}

impl<'a, V: Value, T1: Typed<V> + FromValue<'a, V>, T2: Typed<V> + FromValue<'a, V>, T3: Typed<V> + FromValue<'a, V>, T4: Typed<V> + FromValue<'a, V>, T5: Typed<V> + FromValue<'a, V>, T6: Typed<V> + FromValue<'a, V>> FromArguments<'a, V> for (T1, T2, T3, T4, T5, T6) {
    open spec fn arity() -> nat {
        6
    }

    open spec fn extract_spec(args: Seq<V>) -> Result<(T1, T2, T3, T4, T5, T6), ArgumentError<V>> {
        match arg_at::<V, T1>(args, 0) {
            Err(e) => Err(e),
            Ok(x1) => {
                match arg_at::<V, T2>(args, 1) {
                    Err(e) => Err(e),
                    Ok(x2) => {
                        match arg_at::<V, T3>(args, 2) {
                            Err(e) => Err(e),
                            Ok(x3) => {
                                match arg_at::<V, T4>(args, 3) {
                                    Err(e) => Err(e),
                                    Ok(x4) => {
                                        match arg_at::<V, T5>(args, 4) {
                                            Err(e) => Err(e),
                                            Ok(x5) => {
                                                match arg_at::<V, T6>(args, 5) {
                                                    Err(e) => Err(e),
                                                    Ok(x6) => {
                                                        Ok((x1, x2, x3, x4, x5, x6))
                                                    },
                                                }
                                            },
                                        }
                                    },
                                }
                            },
                        }
                    },
                }
            },
        }
    }

    open spec fn parameters_spec() -> Seq<V::Type> {
        seq![T1::static_type(), T2::static_type(), T3::static_type(), T4::static_type(), T5::static_type(), T6::static_type()]
    }

    fn from_arguments(args: &'a Arguments<V>) -> (r: Result<(T1, T2, T3, T4, T5, T6), ArgumentError<V>>) {
        let x1 = args.try_get_ref::<T1>(0)?;
        let x2 = args.try_get_ref::<T2>(1)?;
        let x3 = args.try_get_ref::<T3>(2)?;
        let x4 = args.try_get_ref::<T4>(3)?;
        let x5 = args.try_get_ref::<T5>(4)?;
        let x6 = args.try_get_ref::<T6>(5)?;
        Ok((x1, x2, x3, x4, x5, x6))
    }

    fn parameters() -> (p: Parameters<V>) {
        let b = Parameters::build();
        let b = b.with(T1::get_type());
        let b = b.with(T2::get_type());
        let b = b.with(T3::get_type());
        let b = b.with(T4::get_type());
        let b = b.with(T5::get_type());
        let b = b.with(T6::get_type());
        let p = b.build();
        assert(p@ =~= Self::parameters_spec());
        p
    }
}

impl<'a, V: Value, T1: Typed<V> + FromValue<'a, V>, T2: Typed<V> + FromValue<'a, V>, T3: Typed<V> + FromValue<'a, V>, T4: Typed<V> + FromValue<'a, V>, T5: Typed<V> + FromValue<'a, V>, T6: Typed<V> + FromValue<'a, V>, T7: Typed<V> + FromValue<'a, V>> FromArguments<'a, V> for (T1, T2, T3, T4, T5, T6, T7) {
    open spec fn arity() -> nat {
        7
    }

    open spec fn extract_spec(args: Seq<V>) -> Result<(T1, T2, T3, T4, T5, T6, T7), ArgumentError<V>> {
        match arg_at::<V, T1>(args, 0) {
            Err(e) => Err(e),
            Ok(x1) => {
                match arg_at::<V, T2>(args, 1) {
                    Err(e) => Err(e),
                    Ok(x2) => {
                        match arg_at::<V, T3>(args, 2) {
                            Err(e) => Err(e),
                            Ok(x3) => {
                                match arg_at::<V, T4>(args, 3) {
                                    Err(e) => Err(e),
                                    Ok(x4) => {
                                        match arg_at::<V, T5>(args, 4) {
                                            Err(e) => Err(e),
                                            Ok(x5) => {
                                                match arg_at::<V, T6>(args, 5) {
                                                    Err(e) => Err(e),
                                                    Ok(x6) => {
                                                        match arg_at::<V, T7>(args, 6) {
                                                            Err(e) => Err(e),
                                                            Ok(x7) => {
                                                                Ok((x1, x2, x3, x4, x5, x6, x7))
                                                            },
                                                        }
                                                    },
                                                }
                                            },
                                        }
                                    },
                                }
                            },
                        }
                    },
                }
            },
        }
    }

    open spec fn parameters_spec() -> Seq<V::Type> {
        seq![T1::static_type(), T2::static_type(), T3::static_type(), T4::static_type(), T5::static_type(), T6::static_type(), T7::static_type()]
    }

    fn from_arguments(args: &'a Arguments<V>) -> (r: Result<(T1, T2, T3, T4, T5, T6, T7), ArgumentError<V>>) {
        let x1 = args.try_get_ref::<T1>(0)?;
        let x2 = args.try_get_ref::<T2>(1)?;
        let x3 = args.try_get_ref::<T3>(2)?;
        let x4 = args.try_get_ref::<T4>(3)?;
        let x5 = args.try_get_ref::<T5>(4)?;
        let x6 = args.try_get_ref::<T6>(5)?;
        let x7 = args.try_get_ref::<T7>(6)?;
        Ok((x1, x2, x3, x4, x5, x6, x7))
    }

    fn parameters() -> (p: Parameters<V>) {
        let b = Parameters::build();
        let b = b.with(T1::get_type());
        let b = b.with(T2::get_type());
        let b = b.with(T3::get_type());
        let b = b.with(T4::get_type());
        let b = b.with(T5::get_type());
        let b = b.with(T6::get_type());
        let b = b.with(T7::get_type());
        let p = b.build();
        assert(p@ =~= Self::parameters_spec());
        p
    }
}

impl<'a, V: Value, T1: Typed<V> + FromValue<'a, V>, T2: Typed<V> + FromValue<'a, V>, T3: Typed<V> + FromValue<'a, V>, T4: Typed<V> + FromValue<'a, V>, T5: Typed<V> + FromValue<'a, V>, T6: Typed<V> + FromValue<'a, V>, T7: Typed<V> + FromValue<'a, V>, T8: Typed<V> + FromValue<'a, V>> FromArguments<'a, V> for (T1, T2, T3, T4, T5, T6, T7, T8) {
    open spec fn arity() -> nat {
        8
    }

    open spec fn extract_spec(args: Seq<V>) -> Result<(T1, T2, T3, T4, T5, T6, T7, T8), ArgumentError<V>> {
        match arg_at::<V, T1>(args, 0) {
            Err(e) => Err(e),
            Ok(x1) => {
                match arg_at::<V, T2>(args, 1) {
                    Err(e) => Err(e),
                    Ok(x2) => {
                        match arg_at::<V, T3>(args, 2) {
                            Err(e) => Err(e),
                            Ok(x3) => {
                                match arg_at::<V, T4>(args, 3) {
                                    Err(e) => Err(e),
                                    Ok(x4) => {
                                        match arg_at::<V, T5>(args, 4) {
                                            Err(e) => Err(e),
                                            Ok(x5) => {
                                                match arg_at::<V, T6>(args, 5) {
                                                    Err(e) => Err(e),
                                                    Ok(x6) => {
                                                        match arg_at::<V, T7>(args, 6) {
                                                            Err(e) => Err(e),
                                                            Ok(x7) => {
                                                                match arg_at::<V, T8>(args, 7) {
                                                                    Err(e) => Err(e),
                                                                    Ok(x8) => {
                                                                        Ok((x1, x2, x3, x4, x5, x6, x7, x8))
                                                                    },
                                                                }
                                                            },
                                                        }
                                                    },
                                                }
                                            },
                                        }
                                    },
                                }
                            },
                        }
                    },
                }
            },
        }
    }

    open spec fn parameters_spec() -> Seq<V::Type> {
        seq![T1::static_type(), T2::static_type(), T3::static_type(), T4::static_type(), T5::static_type(), T6::static_type(), T7::static_type(), T8::static_type()]
    }

    fn from_arguments(args: &'a Arguments<V>) -> (r: Result<(T1, T2, T3, T4, T5, T6, T7, T8), ArgumentError<V>>) {
        let x1 = args.try_get_ref::<T1>(0)?;
        let x2 = args.try_get_ref::<T2>(1)?;
        let x3 = args.try_get_ref::<T3>(2)?;
        let x4 = args.try_get_ref::<T4>(3)?;
        let x5 = args.try_get_ref::<T5>(4)?;
        let x6 = args.try_get_ref::<T6>(5)?;
        let x7 = args.try_get_ref::<T7>(6)?;
        let x8 = args.try_get_ref::<T8>(7)?;
        Ok((x1, x2, x3, x4, x5, x6, x7, x8))
    }

    fn parameters() -> (p: Parameters<V>) {
        let b = Parameters::build();
        let b = b.with(T1::get_type());
        let b = b.with(T2::get_type());
        let b = b.with(T3::get_type());
        let b = b.with(T4::get_type());
        let b = b.with(T5::get_type());
        let b = b.with(T6::get_type());
        let b = b.with(T7::get_type());
        let b = b.with(T8::get_type());
        let p = b.build();
        assert(p@ =~= Self::parameters_spec());
        p
    }
}

impl<'a, V: Value, T1: Typed<V> + FromValue<'a, V>, T2: Typed<V> + FromValue<'a, V>, T3: Typed<V> + FromValue<'a, V>, T4: Typed<V> + FromValue<'a, V>, T5: Typed<V> + FromValue<'a, V>, T6: Typed<V> + FromValue<'a, V>, T7: Typed<V> + FromValue<'a, V>, T8: Typed<V> + FromValue<'a, V>, T9: Typed<V> + FromValue<'a, V>> FromArguments<'a, V> for (T1, T2, T3, T4, T5, T6, T7, T8, T9) {
    open spec fn arity() -> nat {
        9
    }

    open spec fn extract_spec(args: Seq<V>) -> Result<(T1, T2, T3, T4, T5, T6, T7, T8, T9), ArgumentError<V>> {
        match arg_at::<V, T1>(args, 0) {
            Err(e) => Err(e),
            Ok(x1) => {
                match arg_at::<V, T2>(args, 1) {
                    Err(e) => Err(e),
                    Ok(x2) => {
                        match arg_at::<V, T3>(args, 2) {
                            Err(e) => Err(e),
                            Ok(x3) => {
                                match arg_at::<V, T4>(args, 3) {
                                    Err(e) => Err(e),
                                    Ok(x4) => {
                                        match arg_at::<V, T5>(args, 4) {
                                            Err(e) => Err(e),
                                            Ok(x5) => {
                                                match arg_at::<V, T6>(args, 5) {
                                                    Err(e) => Err(e),
                                                    Ok(x6) => {
                                                        match arg_at::<V, T7>(args, 6) {
                                                            Err(e) => Err(e),
                                                            Ok(x7) => {
                                                                match arg_at::<V, T8>(args, 7) {
                                                                    Err(e) => Err(e),
                                                                    Ok(x8) => {
                                                                        match arg_at::<V, T9>(args, 8) {
                                                                            Err(e) => Err(e),
                                                                            Ok(x9) => {
                                                                                Ok((x1, x2, x3, x4, x5, x6, x7, x8, x9))
                                                                            },
                                                                        }
                                                                    },
                                                                }
                                                            },
                                                        }
                                                    },
                                                }
                                            },
                                        }
                                    },
                                }
                            },
                        }
                    },
                }
            },
        }
    }

    open spec fn parameters_spec() -> Seq<V::Type> {
        seq![T1::static_type(), T2::static_type(), T3::static_type(), T4::static_type(), T5::static_type(), T6::static_type(), T7::static_type(), T8::static_type(), T9::static_type()]
    }

    fn from_arguments(args: &'a Arguments<V>) -> (r: Result<(T1, T2, T3, T4, T5, T6, T7, T8, T9), ArgumentError<V>>) {
        let x1 = args.try_get_ref::<T1>(0)?;
        let x2 = args.try_get_ref::<T2>(1)?;
        let x3 = args.try_get_ref::<T3>(2)?;
        let x4 = args.try_get_ref::<T4>(3)?;
        let x5 = args.try_get_ref::<T5>(4)?;
        let x6 = args.try_get_ref::<T6>(5)?;
        let x7 = args.try_get_ref::<T7>(6)?;
        let x8 = args.try_get_ref::<T8>(7)?;
        let x9 = args.try_get_ref::<T9>(8)?;
        Ok((x1, x2, x3, x4, x5, x6, x7, x8, x9))
    }

    fn parameters() -> (p: Parameters<V>) {
        let b = Parameters::build();
        let b = b.with(T1::get_type());
        let b = b.with(T2::get_type());
        let b = b.with(T3::get_type());
        let b = b.with(T4::get_type());
        let b = b.with(T5::get_type());
        let b = b.with(T6::get_type());
        let b = b.with(T7::get_type());
        let b = b.with(T8::get_type());
        let b = b.with(T9::get_type());
        let p = b.build();
        assert(p@ =~= Self::parameters_spec());
        p
    }
}

impl<'a, V: Value, T1: Typed<V> + FromValue<'a, V>, T2: Typed<V> + FromValue<'a, V>, T3: Typed<V> + FromValue<'a, V>, T4: Typed<V> + FromValue<'a, V>, T5: Typed<V> + FromValue<'a, V>, T6: Typed<V> + FromValue<'a, V>, T7: Typed<V> + FromValue<'a, V>, T8: Typed<V> + FromValue<'a, V>, T9: Typed<V> + FromValue<'a, V>, T10: Typed<V> + FromValue<'a, V>> FromArguments<'a, V> for (T1, T2, T3, T4, T5, T6, T7, T8, T9, T10) {
    open spec fn arity() -> nat {
        10
    }

    open spec fn extract_spec(args: Seq<V>) -> Result<(T1, T2, T3, T4, T5, T6, T7, T8, T9, T10), ArgumentError<V>> {
        match arg_at::<V, T1>(args, 0) {
            Err(e) => Err(e),
            Ok(x1) => {
                match arg_at::<V, T2>(args, 1) {
                    Err(e) => Err(e),
                    Ok(x2) => {
                        match arg_at::<V, T3>(args, 2) {
                            Err(e) => Err(e),
                            Ok(x3) => {
                                match arg_at::<V, T4>(args, 3) {
                                    Err(e) => Err(e),
                                    Ok(x4) => {
                                        match arg_at::<V, T5>(args, 4) {
                                            Err(e) => Err(e),
                                            Ok(x5) => {
                                                match arg_at::<V, T6>(args, 5) {
                                                    Err(e) => Err(e),
                                                    Ok(x6) => {
                                                        match arg_at::<V, T7>(args, 6) {
                                                            Err(e) => Err(e),
                                                            Ok(x7) => {
                                                                match arg_at::<V, T8>(args, 7) {
                                                                    Err(e) => Err(e),
                                                                    Ok(x8) => {
                                                                        match arg_at::<V, T9>(args, 8) {
                                                                            Err(e) => Err(e),
                                                                            Ok(x9) => {
                                                                                match arg_at::<V, T10>(args, 9) {
                                                                                    Err(e) => Err(e),
                                                                                    Ok(x10) => {
                                                                                        Ok((x1, x2, x3, x4, x5, x6, x7, x8, x9, x10))
                                                                                    },
                                                                                }
                                                                            },
                                                                        }
                                                                    },
                                                                }
                                                            },
                                                        }
                                                    },
                                                }
                                            },
                                        }
                                    },
                                }
                            },
                        }
                    },
                }
            },
        }
    }

    open spec fn parameters_spec() -> Seq<V::Type> {
        seq![T1::static_type(), T2::static_type(), T3::static_type(), T4::static_type(), T5::static_type(), T6::static_type(), T7::static_type(), T8::static_type(), T9::static_type(), T10::static_type()]
    }

    fn from_arguments(args: &'a Arguments<V>) -> (r: Result<(T1, T2, T3, T4, T5, T6, T7, T8, T9, T10), ArgumentError<V>>) {
        let x1 = args.try_get_ref::<T1>(0)?;
        let x2 = args.try_get_ref::<T2>(1)?;
        let x3 = args.try_get_ref::<T3>(2)?;
        let x4 = args.try_get_ref::<T4>(3)?;
        let x5 = args.try_get_ref::<T5>(4)?;
        let x6 = args.try_get_ref::<T6>(5)?;
        let x7 = args.try_get_ref::<T7>(6)?;
        let x8 = args.try_get_ref::<T8>(7)?;
        let x9 = args.try_get_ref::<T9>(8)?;
        let x10 = args.try_get_ref::<T10>(9)?;
        Ok((x1, x2, x3, x4, x5, x6, x7, x8, x9, x10))
    }

    fn parameters() -> (p: Parameters<V>) {
        let b = Parameters::build();
        let b = b.with(T1::get_type());
        let b = b.with(T2::get_type());
        let b = b.with(T3::get_type());
        let b = b.with(T4::get_type());
        let b = b.with(T5::get_type());
        let b = b.with(T6::get_type());
        let b = b.with(T7::get_type());
        let b = b.with(T8::get_type());
        let b = b.with(T9::get_type());
        let b = b.with(T10::get_type());
        let p = b.build();
        assert(p@ =~= Self::parameters_spec());
        p
    }
}

impl<'a, V: Value, T1: Typed<V> + FromValue<'a, V>, T2: Typed<V> + FromValue<'a, V>, T3: Typed<V> + FromValue<'a, V>, T4: Typed<V> + FromValue<'a, V>, T5: Typed<V> + FromValue<'a, V>, T6: Typed<V> + FromValue<'a, V>, T7: Typed<V> + FromValue<'a, V>, T8: Typed<V> + FromValue<'a, V>, T9: Typed<V> + FromValue<'a, V>, T10: Typed<V> + FromValue<'a, V>, T11: Typed<V> + FromValue<'a, V>> FromArguments<'a, V> for (T1, T2, T3, T4, T5, T6, T7, T8, T9, T10, T11) {
    open spec fn arity() -> nat {
        11
    }

    open spec fn extract_spec(args: Seq<V>) -> Result<(T1, T2, T3, T4, T5, T6, T7, T8, T9, T10, T11), ArgumentError<V>> {
        match arg_at::<V, T1>(args, 0) {
            Err(e) => Err(e),
            Ok(x1) => {
                match arg_at::<V, T2>(args, 1) {
                    Err(e) => Err(e),
                    Ok(x2) => {
                        match arg_at::<V, T3>(args, 2) {
                            Err(e) => Err(e),
                            Ok(x3) => {
                                match arg_at::<V, T4>(args, 3) {
                                    Err(e) => Err(e),
                                    Ok(x4) => {
                                        match arg_at::<V, T5>(args, 4) {
                                            Err(e) => Err(e),
                                            Ok(x5) => {
                                                match arg_at::<V, T6>(args, 5) {
                                                    Err(e) => Err(e),
                                                    Ok(x6) => {
                                                        match arg_at::<V, T7>(args, 6) {
                                                            Err(e) => Err(e),
                                                            Ok(x7) => {
                                                                match arg_at::<V, T8>(args, 7) {
                                                                    Err(e) => Err(e),
                                                                    Ok(x8) => {
                                                                        match arg_at::<V, T9>(args, 8) {
                                                                            Err(e) => Err(e),
                                                                            Ok(x9) => {
                                                                                match arg_at::<V, T10>(args, 9) {
                                                                                    Err(e) => Err(e),
                                                                                    Ok(x10) => {
                                                                                        match arg_at::<V, T11>(args, 10) {
                                                                                            Err(e) => Err(e),
                                                                                            Ok(x11) => {
                                                                                                Ok((x1, x2, x3, x4, x5, x6, x7, x8, x9, x10, x11))
                                                                                            },
                                                                                        }
                                                                                    },
                                                                                }
                                                                            },
                                                                        }
                                                                    },
                                                                }
                                                            },
                                                        }
                                                    },
                                                }
                                            },
                                        }
                                    },
                                }
                            },
                        }
                    },
                }
            },
        }
    }

    open spec fn parameters_spec() -> Seq<V::Type> {
        seq![T1::static_type(), T2::static_type(), T3::static_type(), T4::static_type(), T5::static_type(), T6::static_type(), T7::static_type(), T8::static_type(), T9::static_type(), T10::static_type(), T11::static_type()]
    }

    fn from_arguments(args: &'a Arguments<V>) -> (r: Result<(T1, T2, T3, T4, T5, T6, T7, T8, T9, T10, T11), ArgumentError<V>>) {
        let x1 = args.try_get_ref::<T1>(0)?;
        let x2 = args.try_get_ref::<T2>(1)?;
        let x3 = args.try_get_ref::<T3>(2)?;
        let x4 = args.try_get_ref::<T4>(3)?;
        let x5 = args.try_get_ref::<T5>(4)?;
        let x6 = args.try_get_ref::<T6>(5)?;
        let x7 = args.try_get_ref::<T7>(6)?;
        let x8 = args.try_get_ref::<T8>(7)?;
        let x9 = args.try_get_ref::<T9>(8)?;
        let x10 = args.try_get_ref::<T10>(9)?;
        let x11 = args.try_get_ref::<T11>(10)?;
        Ok((x1, x2, x3, x4, x5, x6, x7, x8, x9, x10, x11))
    }

    fn parameters() -> (p: Parameters<V>) {
        let b = Parameters::build();
        let b = b.with(T1::get_type());
        let b = b.with(T2::get_type());
        let b = b.with(T3::get_type());
        let b = b.with(T4::get_type());
        let b = b.with(T5::get_type());
        let b = b.with(T6::get_type());
        let b = b.with(T7::get_type());
        let b = b.with(T8::get_type());
        let b = b.with(T9::get_type());
        let b = b.with(T10::get_type());
        let b = b.with(T11::get_type());
        let p = b.build();
        assert(p@ =~= Self::parameters_spec());
        p
    }
}

impl<'a, V: Value, T1: Typed<V> + FromValue<'a, V>, T2: Typed<V> + FromValue<'a, V>, T3: Typed<V> + FromValue<'a, V>, T4: Typed<V> + FromValue<'a, V>, T5: Typed<V> + FromValue<'a, V>, T6: Typed<V> + FromValue<'a, V>, T7: Typed<V> + FromValue<'a, V>, T8: Typed<V> + FromValue<'a, V>, T9: Typed<V> + FromValue<'a, V>, T10: Typed<V> + FromValue<'a, V>, T11: Typed<V> + FromValue<'a, V>, T12: Typed<V> + FromValue<'a, V>> FromArguments<'a, V> for (T1, T2, T3, T4, T5, T6, T7, T8, T9, T10, T11, T12) {
    open spec fn arity() -> nat {
        12
    }

    open spec fn extract_spec(args: Seq<V>) -> Result<(T1, T2, T3, T4, T5, T6, T7, T8, T9, T10, T11, T12), ArgumentError<V>> {
        match arg_at::<V, T1>(args, 0) {
            Err(e) => Err(e),
            Ok(x1) => {
                match arg_at::<V, T2>(args, 1) {
                    Err(e) => Err(e),
                    Ok(x2) => {
                        match arg_at::<V, T3>(args, 2) {
                            Err(e) => Err(e),
                            Ok(x3) => {
                                match arg_at::<V, T4>(args, 3) {
                                    Err(e) => Err(e),
                                    Ok(x4) => {
                                        match arg_at::<V, T5>(args, 4) {
                                            Err(e) => Err(e),
                                            Ok(x5) => {
                                                match arg_at::<V, T6>(args, 5) {
                                                    Err(e) => Err(e),
                                                    Ok(x6) => {
                                                        match arg_at::<V, T7>(args, 6) {
                                                            Err(e) => Err(e),
                                                            Ok(x7) => {
                                                                match arg_at::<V, T8>(args, 7) {
                                                                    Err(e) => Err(e),
                                                                    Ok(x8) => {
                                                                        match arg_at::<V, T9>(args, 8) {
                                                                            Err(e) => Err(e),
                                                                            Ok(x9) => {
                                                                                match arg_at::<V, T10>(args, 9) {
                                                                                    Err(e) => Err(e),
                                                                                    Ok(x10) => {
                                                                                        match arg_at::<V, T11>(args, 10) {
                                                                                            Err(e) => Err(e),
                                                                                            Ok(x11) => {
                                                                                                match arg_at::<V, T12>(args, 11) {
                                                                                                    Err(e) => Err(e),
                                                                                                    Ok(x12) => {
                                                                                                        Ok((x1, x2, x3, x4, x5, x6, x7, x8, x9, x10, x11, x12))
                                                                                                    },
                                                                                                }
                                                                                            },
                                                                                        }
                                                                                    },
                                                                                }
                                                                            },
                                                                        }
                                                                    },
                                                                }
                                                            },
                                                        }
                                                    },
                                                }
                                            },
                                        }
                                    },
                                }
                            },
                        }
                    },
                }
            },
        }
    }

    open spec fn parameters_spec() -> Seq<V::Type> {
        seq![T1::static_type(), T2::static_type(), T3::static_type(), T4::static_type(), T5::static_type(), T6::static_type(), T7::static_type(), T8::static_type(), T9::static_type(), T10::static_type(), T11::static_type(), T12::static_type()]
    }

    fn from_arguments(args: &'a Arguments<V>) -> (r: Result<(T1, T2, T3, T4, T5, T6, T7, T8, T9, T10, T11, T12), ArgumentError<V>>) {
        let x1 = args.try_get_ref::<T1>(0)?;
        let x2 = args.try_get_ref::<T2>(1)?;
        let x3 = args.try_get_ref::<T3>(2)?;
        let x4 = args.try_get_ref::<T4>(3)?;
        let x5 = args.try_get_ref::<T5>(4)?;
        let x6 = args.try_get_ref::<T6>(5)?;
        let x7 = args.try_get_ref::<T7>(6)?;
        let x8 = args.try_get_ref::<T8>(7)?;
        let x9 = args.try_get_ref::<T9>(8)?;
        let x10 = args.try_get_ref::<T10>(9)?;
        let x11 = args.try_get_ref::<T11>(10)?;
        let x12 = args.try_get_ref::<T12>(11)?;
        Ok((x1, x2, x3, x4, x5, x6, x7, x8, x9, x10, x11, x12))
    }

    fn parameters() -> (p: Parameters<V>) {
        let b = Parameters::build();
        let b = b.with(T1::get_type());
        let b = b.with(T2::get_type());
        let b = b.with(T3::get_type());
        let b = b.with(T4::get_type());
        let b = b.with(T5::get_type());
        let b = b.with(T6::get_type());
        let b = b.with(T7::get_type());
        let b = b.with(T8::get_type());
        let b = b.with(T9::get_type());
        let b = b.with(T10::get_type());
        let b = b.with(T11::get_type());
        let b = b.with(T12::get_type());
        let p = b.build();
        assert(p@ =~= Self::parameters_spec());
        p
    }
}

impl<'a, V: Value, T1: Typed<V> + FromValue<'a, V>, T2: Typed<V> + FromValue<'a, V>, T3: Typed<V> + FromValue<'a, V>, T4: Typed<V> + FromValue<'a, V>, T5: Typed<V> + FromValue<'a, V>, T6: Typed<V> + FromValue<'a, V>, T7: Typed<V> + FromValue<'a, V>, T8: Typed<V> + FromValue<'a, V>, T9: Typed<V> + FromValue<'a, V>, T10: Typed<V> + FromValue<'a, V>, T11: Typed<V> + FromValue<'a, V>, T12: Typed<V> + FromValue<'a, V>, T13: Typed<V> + FromValue<'a, V>> FromArguments<'a, V> for (T1, T2, T3, T4, T5, T6, T7, T8, T9, T10, T11, T12, T13) {
    open spec fn arity() -> nat {
        13
    }

    open spec fn extract_spec(args: Seq<V>) -> Result<(T1, T2, T3, T4, T5, T6, T7, T8, T9, T10, T11, T12, T13), ArgumentError<V>> {
        match arg_at::<V, T1>(args, 0) {
            Err(e) => Err(e),
            Ok(x1) => {
                match arg_at::<V, T2>(args, 1) {
                    Err(e) => Err(e),
                    Ok(x2) => {
                        match arg_at::<V, T3>(args, 2) {
                            Err(e) => Err(e),
                            Ok(x3) => {
                                match arg_at::<V, T4>(args, 3) {
                                    Err(e) => Err(e),
                                    Ok(x4) => {
                                        match arg_at::<V, T5>(args, 4) {
                                            Err(e) => Err(e),
                                            Ok(x5) => {
                                                match arg_at::<V, T6>(args, 5) {
                                                    Err(e) => Err(e),
                                                    Ok(x6) => {
                                                        match arg_at::<V, T7>(args, 6) {
                                                            Err(e) => Err(e),
                                                            Ok(x7) => {
                                                                match arg_at::<V, T8>(args, 7) {
                                                                    Err(e) => Err(e),
                                                                    Ok(x8) => {
                                                                        match arg_at::<V, T9>(args, 8) {
                                                                            Err(e) => Err(e),
                                                                            Ok(x9) => {
                                                                                match arg_at::<V, T10>(args, 9) {
                                                                                    Err(e) => Err(e),
                                                                                    Ok(x10) => {
                                                                                        match arg_at::<V, T11>(args, 10) {
                                                                                            Err(e) => Err(e),
                                                                                            Ok(x11) => {
                                                                                                match arg_at::<V, T12>(args, 11) {
                                                                                                    Err(e) => Err(e),
                                                                                                    Ok(x12) => {
                                                                                                        match arg_at::<V, T13>(args, 12) {
                                                                                                            Err(e) => Err(e),
                                                                                                            Ok(x13) => {
                                                                                                                Ok((x1, x2, x3, x4, x5, x6, x7, x8, x9, x10, x11, x12, x13))
                                                                                                            },
                                                                                                        }
                                                                                                    },
                                                                                                }
                                                                                            },
                                                                                        }
                                                                                    },
                                                                                }
                                                                            },
                                                                        }
                                                                    },
                                                                }
                                                            },
                                                        }
                                                    },
                                                }
                                            },
                                        }
                                    },
                                }
                            },
                        }
                    },
                }
            },
        }
    }

    open spec fn parameters_spec() -> Seq<V::Type> {
        seq![T1::static_type(), T2::static_type(), T3::static_type(), T4::static_type(), T5::static_type(), T6::static_type(), T7::static_type(), T8::static_type(), T9::static_type(), T10::static_type(), T11::static_type(), T12::static_type(), T13::static_type()]
    }

    fn from_arguments(args: &'a Arguments<V>) -> (r: Result<(T1, T2, T3, T4, T5, T6, T7, T8, T9, T10, T11, T12, T13), ArgumentError<V>>) {
        let x1 = args.try_get_ref::<T1>(0)?;
        let x2 = args.try_get_ref::<T2>(1)?;
        let x3 = args.try_get_ref::<T3>(2)?;
        let x4 = args.try_get_ref::<T4>(3)?;
        let x5 = args.try_get_ref::<T5>(4)?;
        let x6 = args.try_get_ref::<T6>(5)?;
        let x7 = args.try_get_ref::<T7>(6)?;
        let x8 = args.try_get_ref::<T8>(7)?;
        let x9 = args.try_get_ref::<T9>(8)?;
        let x10 = args.try_get_ref::<T10>(9)?;
        let x11 = args.try_get_ref::<T11>(10)?;
        let x12 = args.try_get_ref::<T12>(11)?;
        let x13 = args.try_get_ref::<T13>(12)?;
        Ok((x1, x2, x3, x4, x5, x6, x7, x8, x9, x10, x11, x12, x13))
    }

    fn parameters() -> (p: Parameters<V>) {
        let b = Parameters::build();
        let b = b.with(T1::get_type());
        let b = b.with(T2::get_type());
        let b = b.with(T3::get_type());
        let b = b.with(T4::get_type());
        let b = b.with(T5::get_type());
        let b = b.with(T6::get_type());
        let b = b.with(T7::get_type());
        let b = b.with(T8::get_type());
        let b = b.with(T9::get_type());
        let b = b.with(T10::get_type());
        let b = b.with(T11::get_type());
        let b = b.with(T12::get_type());
        let b = b.with(T13::get_type());
        let p = b.build();
        assert(p@ =~= Self::parameters_spec());
        p
    }
}

impl<'a, V: Value, T1: Typed<V> + FromValue<'a, V>, T2: Typed<V> + FromValue<'a, V>, T3: Typed<V> + FromValue<'a, V>, T4: Typed<V> + FromValue<'a, V>, T5: Typed<V> + FromValue<'a, V>, T6: Typed<V> + FromValue<'a, V>, T7: Typed<V> + FromValue<'a, V>, T8: Typed<V> + FromValue<'a, V>, T9: Typed<V> + FromValue<'a, V>, T10: Typed<V> + FromValue<'a, V>, T11: Typed<V> + FromValue<'a, V>, T12: Typed<V> + FromValue<'a, V>, T13: Typed<V> + FromValue<'a, V>, T14: Typed<V> + FromValue<'a, V>> FromArguments<'a, V> for (T1, T2, T3, T4, T5, T6, T7, T8, T9, T10, T11, T12, T13, T14) {
    open spec fn arity() -> nat {
        14
    }

    open spec fn extract_spec(args: Seq<V>) -> Result<(T1, T2, T3, T4, T5, T6, T7, T8, T9, T10, T11, T12, T13, T14), ArgumentError<V>> {
        match arg_at::<V, T1>(args, 0) {
            Err(e) => Err(e),
            Ok(x1) => {
                match arg_at::<V, T2>(args, 1) {
                    Err(e) => Err(e),
                    Ok(x2) => {
                        match arg_at::<V, T3>(args, 2) {
                            Err(e) => Err(e),
                            Ok(x3) => {
                                match arg_at::<V, T4>(args, 3) {
                                    Err(e) => Err(e),
                                    Ok(x4) => {
                                        match arg_at::<V, T5>(args, 4) {
                                            Err(e) => Err(e),
                                            Ok(x5) => {
                                                match arg_at::<V, T6>(args, 5) {
                                                    Err(e) => Err(e),
                                                    Ok(x6) => {
                                                        match arg_at::<V, T7>(args, 6) {
                                                            Err(e) => Err(e),
                                                            Ok(x7) => {
                                                                match arg_at::<V, T8>(args, 7) {
                                                                    Err(e) => Err(e),
                                                                    Ok(x8) => {
                                                                        match arg_at::<V, T9>(args, 8) {
                                                                            Err(e) => Err(e),
                                                                            Ok(x9) => {
                                                                                match arg_at::<V, T10>(args, 9) {
                                                                                    Err(e) => Err(e),
                                                                                    Ok(x10) => {
                                                                                        match arg_at::<V, T11>(args, 10) {
                                                                                            Err(e) => Err(e),
                                                                                            Ok(x11) => {
                                                                                                match arg_at::<V, T12>(args, 11) {
                                                                                                    Err(e) => Err(e),
                                                                                                    Ok(x12) => {
                                                                                                        match arg_at::<V, T13>(args, 12) {
                                                                                                            Err(e) => Err(e),
                                                                                                            Ok(x13) => {
                                                                                                                match arg_at::<V, T14>(args, 13) {
                                                                                                                    Err(e) => Err(e),
                                                                                                                    Ok(x14) => {
                                                                                                                        Ok((x1, x2, x3, x4, x5, x6, x7, x8, x9, x10, x11, x12, x13, x14))
                                                                                                                    },
                                                                                                                }
                                                                                                            },
                                                                                                        }
                                                                                                    },
                                                                                                }
                                                                                            },
                                                                                        }
                                                                                    },
                                                                                }
                                                                            },
                                                                        }
                                                                    },
                                                                }
                                                            },
                                                        }
                                                    },
                                                }
                                            },
                                        }
                                    },
                                }
                            },
                        }
                    },
                }
            },
        }
    }

    open spec fn parameters_spec() -> Seq<V::Type> {
        seq![T1::static_type(), T2::static_type(), T3::static_type(), T4::static_type(), T5::static_type(), T6::static_type(), T7::static_type(), T8::static_type(), T9::static_type(), T10::static_type(), T11::static_type(), T12::static_type(), T13::static_type(), T14::static_type()]
    }

    fn from_arguments(args: &'a Arguments<V>) -> (r: Result<(T1, T2, T3, T4, T5, T6, T7, T8, T9, T10, T11, T12, T13, T14), ArgumentError<V>>) {
        let x1 = args.try_get_ref::<T1>(0)?;
        let x2 = args.try_get_ref::<T2>(1)?;
        let x3 = args.try_get_ref::<T3>(2)?;
        let x4 = args.try_get_ref::<T4>(3)?;
        let x5 = args.try_get_ref::<T5>(4)?;
        let x6 = args.try_get_ref::<T6>(5)?;
        let x7 = args.try_get_ref::<T7>(6)?;
        let x8 = args.try_get_ref::<T8>(7)?;
        let x9 = args.try_get_ref::<T9>(8)?;
        let x10 = args.try_get_ref::<T10>(9)?;
        let x11 = args.try_get_ref::<T11>(10)?;
        let x12 = args.try_get_ref::<T12>(11)?;
        let x13 = args.try_get_ref::<T13>(12)?;
        let x14 = args.try_get_ref::<T14>(13)?;
        Ok((x1, x2, x3, x4, x5, x6, x7, x8, x9, x10, x11, x12, x13, x14))
    }

    fn parameters() -> (p: Parameters<V>) {
        let b = Parameters::build();
        let b = b.with(T1::get_type());
        let b = b.with(T2::get_type());
        let b = b.with(T3::get_type());
        let b = b.with(T4::get_type());
        let b = b.with(T5::get_type());
        let b = b.with(T6::get_type());
        let b = b.with(T7::get_type());
        let b = b.with(T8::get_type());
        let b = b.with(T9::get_type());
        let b = b.with(T10::get_type());
        let b = b.with(T11::get_type());
        let b = b.with(T12::get_type());
        let b = b.with(T13::get_type());
        let b = b.with(T14::get_type());
        let p = b.build();
        assert(p@ =~= Self::parameters_spec());
        p
    }
}

impl<'a, V: Value, T1: Typed<V> + FromValue<'a, V>, T2: Typed<V> + FromValue<'a, V>, T3: Typed<V> + FromValue<'a, V>, T4: Typed<V> + FromValue<'a, V>, T5: Typed<V> + FromValue<'a, V>, T6: Typed<V> + FromValue<'a, V>, T7: Typed<V> + FromValue<'a, V>, T8: Typed<V> + FromValue<'a, V>, T9: Typed<V> + FromValue<'a, V>, T10: Typed<V> + FromValue<'a, V>, T11: Typed<V> + FromValue<'a, V>, T12: Typed<V> + FromValue<'a, V>, T13: Typed<V> + FromValue<'a, V>, T14: Typed<V> + FromValue<'a, V>, T15: Typed<V> + FromValue<'a, V>> FromArguments<'a, V> for (T1, T2, T3, T4, T5, T6, T7, T8, T9, T10, T11, T12, T13, T14, T15) {
    open spec fn arity() -> nat {
        15
    }

    open spec fn extract_spec(args: Seq<V>) -> Result<(T1, T2, T3, T4, T5, T6, T7, T8, T9, T10, T11, T12, T13, T14, T15), ArgumentError<V>> {
        match arg_at::<V, T1>(args, 0) {
            Err(e) => Err(e),
            Ok(x1) => {
                match arg_at::<V, T2>(args, 1) {
                    Err(e) => Err(e),
                    Ok(x2) => {
                        match arg_at::<V, T3>(args, 2) {
                            Err(e) => Err(e),
                            Ok(x3) => {
                                match arg_at::<V, T4>(args, 3) {
                                    Err(e) => Err(e),
                                    Ok(x4) => {
                                        match arg_at::<V, T5>(args, 4) {
                                            Err(e) => Err(e),
                                            Ok(x5) => {
                                                match arg_at::<V, T6>(args, 5) {
                                                    Err(e) => Err(e),
                                                    Ok(x6) => {
                                                        match arg_at::<V, T7>(args, 6) {
                                                            Err(e) => Err(e),
                                                            Ok(x7) => {
                                                                match arg_at::<V, T8>(args, 7) {
                                                                    Err(e) => Err(e),
                                                                    Ok(x8) => {
                                                                        match arg_at::<V, T9>(args, 8) {
                                                                            Err(e) => Err(e),
                                                                            Ok(x9) => {
                                                                                match arg_at::<V, T10>(args, 9) {
                                                                                    Err(e) => Err(e),
                                                                                    Ok(x10) => {
                                                                                        match arg_at::<V, T11>(args, 10) {
                                                                                            Err(e) => Err(e),
                                                                                            Ok(x11) => {
                                                                                                match arg_at::<V, T12>(args, 11) {
                                                                                                    Err(e) => Err(e),
                                                                                                    Ok(x12) => {
                                                                                                        match arg_at::<V, T13>(args, 12) {
                                                                                                            Err(e) => Err(e),
                                                                                                            Ok(x13) => {
                                                                                                                match arg_at::<V, T14>(args, 13) {
                                                                                                                    Err(e) => Err(e),
                                                                                                                    Ok(x14) => {
                                                                                                                        match arg_at::<V, T15>(args, 14) {
                                                                                                                            Err(e) => Err(e),
                                                                                                                            Ok(x15) => {
                                                                                                                                Ok((x1, x2, x3, x4, x5, x6, x7, x8, x9, x10, x11, x12, x13, x14, x15))
                                                                                                                            },
                                                                                                                        }
                                                                                                                    },
                                                                                                                }
                                                                                                            },
                                                                                                        }
                                                                                                    },
                                                                                                }
                                                                                            },
                                                                                        }
                                                                                    },
                                                                                }
                                                                            },
                                                                        }
                                                                    },
                                                                }
                                                            },
                                                        }
                                                    },
                                                }
                                            },
                                        }
                                    },
                                }
                            },
                        }
                    },
                }
            },
        }
    }

    open spec fn parameters_spec() -> Seq<V::Type> {
        seq![T1::static_type(), T2::static_type(), T3::static_type(), T4::static_type(), T5::static_type(), T6::static_type(), T7::static_type(), T8::static_type(), T9::static_type(), T10::static_type(), T11::static_type(), T12::static_type(), T13::static_type(), T14::static_type(), T15::static_type()]
    }

    fn from_arguments(args: &'a Arguments<V>) -> (r: Result<(T1, T2, T3, T4, T5, T6, T7, T8, T9, T10, T11, T12, T13, T14, T15), ArgumentError<V>>) {
        let x1 = args.try_get_ref::<T1>(0)?;
        let x2 = args.try_get_ref::<T2>(1)?;
        let x3 = args.try_get_ref::<T3>(2)?;
        let x4 = args.try_get_ref::<T4>(3)?;
        let x5 = args.try_get_ref::<T5>(4)?;
        let x6 = args.try_get_ref::<T6>(5)?;
        let x7 = args.try_get_ref::<T7>(6)?;
        let x8 = args.try_get_ref::<T8>(7)?;
        let x9 = args.try_get_ref::<T9>(8)?;
        let x10 = args.try_get_ref::<T10>(9)?;
        let x11 = args.try_get_ref::<T11>(10)?;
        let x12 = args.try_get_ref::<T12>(11)?;
        let x13 = args.try_get_ref::<T13>(12)?;
        let x14 = args.try_get_ref::<T14>(13)?;
        let x15 = args.try_get_ref::<T15>(14)?;
        Ok((x1, x2, x3, x4, x5, x6, x7, x8, x9, x10, x11, x12, x13, x14, x15))
    }

    fn parameters() -> (p: Parameters<V>) {
        let b = Parameters::build();
        let b = b.with(T1::get_type());
        let b = b.with(T2::get_type());
        let b = b.with(T3::get_type());
        let b = b.with(T4::get_type());
        let b = b.with(T5::get_type());
        let b = b.with(T6::get_type());
        let b = b.with(T7::get_type());
        let b = b.with(T8::get_type());
        let b = b.with(T9::get_type());
        let b = b.with(T10::get_type());
        let b = b.with(T11::get_type());
        let b = b.with(T12::get_type());
        let b = b.with(T13::get_type());
        let b = b.with(T14::get_type());
        let b = b.with(T15::get_type());
        let p = b.build();
        assert(p@ =~= Self::parameters_spec());
        p
    }
}

impl<'a, V: Value, T1: Typed<V> + FromValue<'a, V>, T2: Typed<V> + FromValue<'a, V>, T3: Typed<V> + FromValue<'a, V>, T4: Typed<V> + FromValue<'a, V>, T5: Typed<V> + FromValue<'a, V>, T6: Typed<V> + FromValue<'a, V>, T7: Typed<V> + FromValue<'a, V>, T8: Typed<V> + FromValue<'a, V>, T9: Typed<V> + FromValue<'a, V>, T10: Typed<V> + FromValue<'a, V>, T11: Typed<V> + FromValue<'a, V>, T12: Typed<V> + FromValue<'a, V>, T13: Typed<V> + FromValue<'a, V>, T14: Typed<V> + FromValue<'a, V>, T15: Typed<V> + FromValue<'a, V>, T16: Typed<V> + FromValue<'a, V>> FromArguments<'a, V> for (T1, T2, T3, T4, T5, T6, T7, T8, T9, T10, T11, T12, T13, T14, T15, T16) {
    open spec fn arity() -> nat {
        16
    }

    open spec fn extract_spec(args: Seq<V>) -> Result<(T1, T2, T3, T4, T5, T6, T7, T8, T9, T10, T11, T12, T13, T14, T15, T16), ArgumentError<V>> {
        match arg_at::<V, T1>(args, 0) {
            Err(e) => Err(e),
            Ok(x1) => {
                match arg_at::<V, T2>(args, 1) {
                    Err(e) => Err(e),
                    Ok(x2) => {
                        match arg_at::<V, T3>(args, 2) {
                            Err(e) => Err(e),
                            Ok(x3) => {
                                match arg_at::<V, T4>(args, 3) {
                                    Err(e) => Err(e),
                                    Ok(x4) => {
                                        match arg_at::<V, T5>(args, 4) {
                                            Err(e) => Err(e),
                                            Ok(x5) => {
                                                match arg_at::<V, T6>(args, 5) {
                                                    Err(e) => Err(e),
                                                    Ok(x6) => {
                                                        match arg_at::<V, T7>(args, 6) {
                                                            Err(e) => Err(e),
                                                            Ok(x7) => {
                                                                match arg_at::<V, T8>(args, 7) {
                                                                    Err(e) => Err(e),
                                                                    Ok(x8) => {
                                                                        match arg_at::<V, T9>(args, 8) {
                                                                            Err(e) => Err(e),
                                                                            Ok(x9) => {
                                                                                match arg_at::<V, T10>(args, 9) {
                                                                                    Err(e) => Err(e),
                                                                                    Ok(x10) => {
                                                                                        match arg_at::<V, T11>(args, 10) {
                                                                                            Err(e) => Err(e),
                                                                                            Ok(x11) => {
                                                                                                match arg_at::<V, T12>(args, 11) {
                                                                                                    Err(e) => Err(e),
                                                                                                    Ok(x12) => {
                                                                                                        match arg_at::<V, T13>(args, 12) {
                                                                                                            Err(e) => Err(e),
                                                                                                            Ok(x13) => {
                                                                                                                match arg_at::<V, T14>(args, 13) {
                                                                                                                    Err(e) => Err(e),
                                                                                                                    Ok(x14) => {
                                                                                                                        match arg_at::<V, T15>(args, 14) {
                                                                                                                            Err(e) => Err(e),
                                                                                                                            Ok(x15) => {
                                                                                                                                match arg_at::<V, T16>(args, 15) {
                                                                                                                                    Err(e) => Err(e),
                                                                                                                                    Ok(x16) => {
                                                                                                                                        Ok((x1, x2, x3, x4, x5, x6, x7, x8, x9, x10, x11, x12, x13, x14, x15, x16))
                                                                                                                                    },
                                                                                                                                }
                                                                                                                            },
                                                                                                                        }
                                                                                                                    },
                                                                                                                }
                                                                                                            },
                                                                                                        }
                                                                                                    },
                                                                                                }
                                                                                            },
                                                                                        }
                                                                                    },
                                                                                }
                                                                            },
                                                                        }
                                                                    },
                                                                }
                                                            },
                                                        }
                                                    },
                                                }
                                            },
                                        }
                                    },
                                }
                            },
                        }
                    },
                }
            },
        }
    }

    open spec fn parameters_spec() -> Seq<V::Type> {
        seq![T1::static_type(), T2::static_type(), T3::static_type(), T4::static_type(), T5::static_type(), T6::static_type(), T7::static_type(), T8::static_type(), T9::static_type(), T10::static_type(), T11::static_type(), T12::static_type(), T13::static_type(), T14::static_type(), T15::static_type(), T16::static_type()]
    }

    fn from_arguments(args: &'a Arguments<V>) -> (r: Result<(T1, T2, T3, T4, T5, T6, T7, T8, T9, T10, T11, T12, T13, T14, T15, T16), ArgumentError<V>>) {
        let x1 = args.try_get_ref::<T1>(0)?;
        let x2 = args.try_get_ref::<T2>(1)?;
        let x3 = args.try_get_ref::<T3>(2)?;
        let x4 = args.try_get_ref::<T4>(3)?;
        let x5 = args.try_get_ref::<T5>(4)?;
        let x6 = args.try_get_ref::<T6>(5)?;
        let x7 = args.try_get_ref::<T7>(6)?;
        let x8 = args.try_get_ref::<T8>(7)?;
        let x9 = args.try_get_ref::<T9>(8)?;
        let x10 = args.try_get_ref::<T10>(9)?;
        let x11 = args.try_get_ref::<T11>(10)?;
        let x12 = args.try_get_ref::<T12>(11)?;
        let x13 = args.try_get_ref::<T13>(12)?;
        let x14 = args.try_get_ref::<T14>(13)?;
        let x15 = args.try_get_ref::<T15>(14)?;
        let x16 = args.try_get_ref::<T16>(15)?;
        Ok((x1, x2, x3, x4, x5, x6, x7, x8, x9, x10, x11, x12, x13, x14, x15, x16))
    }

    fn parameters() -> (p: Parameters<V>) {
        let b = Parameters::build();
        let b = b.with(T1::get_type());
        let b = b.with(T2::get_type());
        let b = b.with(T3::get_type());
        let b = b.with(T4::get_type());
        let b = b.with(T5::get_type());
        let b = b.with(T6::get_type());
        let b = b.with(T7::get_type());
        let b = b.with(T8::get_type());
        let b = b.with(T9::get_type());
        let b = b.with(T10::get_type());
        let b = b.with(T11::get_type());
        let b = b.with(T12::get_type());
        let b = b.with(T13::get_type());
        let b = b.with(T14::get_type());
        let b = b.with(T15::get_type());
        let b = b.with(T16::get_type());
        let p = b.build();
        assert(p@ =~= Self::parameters_spec());
        p
    }
}

} // verus!
