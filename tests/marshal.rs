use gerning::{
    ArgumentError, Arguments, ArgumentsBuilder, Callable, CallableFunc, Error, FromArguments,
    FromValue, FuncExt, IntoValue, Parameters, ToArguments, Typed, Value,
};

#[derive(Debug, Clone, PartialEq)]
enum Val {
    Text(String),
    Int(i64),
}

#[derive(Debug, Clone, Copy, PartialEq)]
enum Ty {
    Text,
    Int,
}

impl Value for Val {
    type Type = Ty;

    fn get_type(&self) -> Ty {
        match self {
            Val::Text(_) => Ty::Text,
            Val::Int(_) => Ty::Int,
        }
    }
}

impl Typed<Val> for String {
    fn get_type() -> Ty {
        Ty::Text
    }
}

impl Typed<Val> for i64 {
    fn get_type() -> Ty {
        Ty::Int
    }
}

impl<'a> Typed<Val> for &'a str {
    fn get_type() -> Ty {
        Ty::Text
    }
}

impl<'a> FromValue<'a, Val> for String {
    fn from_value(value: &'a Val) -> Result<String, ArgumentError<Val>> {
        match value {
            Val::Text(s) => Ok(s.clone()),
            other => Err(ArgumentError::InvalidType { expected: Ty::Text, found: other.get_type() }),
        }
    }
}

impl<'a> FromValue<'a, Val> for &'a str {
    fn from_value(value: &'a Val) -> Result<&'a str, ArgumentError<Val>> {
        match value {
            Val::Text(s) => Ok(s.as_str()),
            other => Err(ArgumentError::InvalidType { expected: Ty::Text, found: other.get_type() }),
        }
    }
}

impl<'a> FromValue<'a, Val> for i64 {
    fn from_value(value: &'a Val) -> Result<i64, ArgumentError<Val>> {
        match value {
            Val::Int(n) => Ok(*n),
            other => Err(ArgumentError::InvalidType { expected: Ty::Int, found: other.get_type() }),
        }
    }
}

impl IntoValue<Val> for String {
    fn into_value(self) -> Val {
        Val::Text(self)
    }
}

impl<'a> IntoValue<Val> for &'a str {
    fn into_value(self) -> Val {
        Val::Text(self.to_string())
    }
}

impl IntoValue<Val> for i64 {
    fn into_value(self) -> Val {
        Val::Int(self)
    }
}

fn text(s: &str) -> Val {
    Val::Text(s.to_string())
}

fn greet(_ctx: &mut (), name: String) -> Result<String, Error<Val>> {
    Ok(format!("Hello, {}", name))
}

#[test]
fn arguments_access() {
    let mut args = Arguments::new(vec![text("a"), Val::Int(2)]);
    assert_eq!(args.len(), 2);
    assert!(!args.is_empty());
    assert_eq!(args.get(1), Some(&Val::Int(2)));
    assert_eq!(args.get(2), None);
    if let Some(v) = args.get_mut(0) {
        *v = Val::Int(7);
    }
    assert_eq!(args.get(0), Some(&Val::Int(7)));
    assert!(args.get_mut(5).is_none());
    assert_eq!(args.types(), vec![Ty::Int, Ty::Int]);
    assert!(Arguments::<Val>::default().is_empty());
}

#[test]
fn try_get_ref_past_the_end_is_missing() {
    let args = Arguments::new(vec![text("a")]);
    for idx in [1usize, 2, 100, usize::MAX] {
        match args.try_get_ref::<String>(idx) {
            Err(ArgumentError::Missing { index, arity }) => {
                assert_eq!(index, idx);
                assert_eq!(arity, 1);
            }
            _ => panic!("expected Missing"),
        }
    }
    let empty: Arguments<Val> = Arguments::default();
    assert!(matches!(
        empty.try_get_ref::<i64>(0),
        Err(ArgumentError::Missing { index: 0, arity: 0 })
    ));
}

#[test]
fn try_get_ref_converts_or_refuses() {
    let args = Arguments::new(vec![text("hi"), Val::Int(5)]);
    assert_eq!(args.try_get_ref::<&str>(0).ok(), Some("hi"));
    assert_eq!(args.try_get_ref::<i64>(1).ok(), Some(5));
    assert!(matches!(
        args.try_get_ref::<i64>(0),
        Err(ArgumentError::InvalidType { expected: Ty::Int, found: Ty::Text })
    ));
}

#[test]
fn extraction_reads_in_order_and_stops_at_first_failure() {
    let args = Arguments::new(vec![text("x"), Val::Int(3)]);
    let t = <(String, i64) as FromArguments<Val>>::from_arguments(&args);
    assert_eq!(t.ok(), Some((String::from("x"), 3)));

    let bad = Arguments::new(vec![Val::Int(1), Val::Int(2)]);
    let r = <(String, String) as FromArguments<Val>>::from_arguments(&bad);
    assert!(matches!(r, Err(ArgumentError::InvalidType { expected: Ty::Text, found: Ty::Int })));

    let short = Arguments::new(vec![text("only")]);
    let r = <(String, i64, i64) as FromArguments<Val>>::from_arguments(&short);
    assert!(matches!(r, Err(ArgumentError::Missing { index: 1, arity: 1 })));

    let unit = <() as FromArguments<Val>>::from_arguments(&short);
    assert!(unit.is_ok());
}

#[test]
fn extraction_borrows_text_without_copying() {
    let args = Arguments::new(vec![text("borrowed")]);
    let (s,) = <(&str,) as FromArguments<Val>>::from_arguments(&args).ok().unwrap();
    assert_eq!(s, "borrowed");
}

#[test]
fn parameters_length_is_the_declared_arity() {
    let p = <(String, i64, String) as FromArguments<Val>>::parameters();
    assert_eq!(p.len(), 3);
    assert_eq!(p.get(0), Some(&Ty::Text));
    assert_eq!(p.get(1), Some(&Ty::Int));
    assert_eq!(p.get(2), Some(&Ty::Text));
    assert_eq!(p.get(3), None);
    assert_eq!(<() as FromArguments<Val>>::parameters().len(), 0);
    let p16 = <(i64, i64, i64, i64, i64, i64, i64, i64, i64, i64, i64, i64, i64, i64, i64, i64)
        as FromArguments<Val>>::parameters();
    assert_eq!(p16.len(), 16);
}

#[test]
fn parameters_iterate_in_order() {
    let p = Parameters::<Val>::build().with(Ty::Int).with(Ty::Text).build();
    let mut it = p.iter();
    assert_eq!(it.next(), Some(&Ty::Int));
    assert_eq!(it.next(), Some(&Ty::Text));
    assert_eq!(it.next(), None);
    let none = Parameters::<Val>::new();
    assert_eq!(none.iter().next(), None);
    let mut b = Parameters::<Val>::build();
    b.add(Ty::Text).add(Ty::Text);
    assert_eq!(b.build().len(), 2);
}

#[test]
fn construction_builds_in_order() {
    let args = (String::from("a"), 4i64, "b").to_arguments();
    assert_eq!(args.into_values(), vec![text("a"), Val::Int(4), text("b")]);
    let unit: Arguments<Val> = ().to_arguments();
    assert!(unit.is_empty());
    let mut b = ArgumentsBuilder::<Val>::default();
    b.add(1i64).add("z");
    let built = b.with(String::from("w")).build();
    assert_eq!(built.into_values(), vec![Val::Int(1), text("z"), text("w")]);
}

#[test]
fn round_trip_gives_the_tuple_back() {
    let t1 = (String::from("one"),);
    let a1 = t1.clone().to_arguments();
    assert_eq!(<(String,) as FromArguments<Val>>::from_arguments(&a1).ok(), Some(t1));

    let t3 = (7i64, String::from("x"), -2i64);
    let a3 = t3.clone().to_arguments();
    assert_eq!(<(i64, String, i64) as FromArguments<Val>>::from_arguments(&a3).ok(), Some(t3));

    let t12 = (1i64, 2i64, 3i64, 4i64, 5i64, 6i64, 7i64, 8i64, 9i64, 10i64, 11i64, 12i64);
    let a12 = t12.to_arguments();
    assert_eq!(a12.len(), 12);
    let back = <(i64, i64, i64, i64, i64, i64, i64, i64, i64, i64, i64, i64) as FromArguments<Val>>
        ::from_arguments(&a12);
    assert_eq!(back.ok(), Some(t12));
}

#[test]
fn greet_scenario() {
    let callable = CallableFunc::<_, (), (String,), Val>::new(greet);
    let r = callable.call(&mut (), Arguments::new(vec![text("World")]));
    assert_eq!(r.ok(), Some(text("Hello, World")));
}

#[test]
fn greet_without_arguments_is_missing() {
    let callable = greet.callable::<Val>();
    let r = Callable::<(), Val>::call(&callable, &mut (), Arguments::default());
    assert!(matches!(r, Err(Error::Argument(ArgumentError::Missing { index: 0, arity: 0 }))));
}

#[test]
fn bad_input_never_reaches_the_function() {
    let callable = CallableFunc::<_, u32, (i64,), Val>::new(|ctx: &mut u32, n: i64| {
        *ctx += 1;
        Ok::<i64, Error<Val>>(n * 2)
    });
    let mut calls = 0u32;
    let r = callable.call(&mut calls, Arguments::new(vec![text("nope")]));
    assert!(matches!(r, Err(Error::Argument(ArgumentError::InvalidType { .. }))));
    assert_eq!(calls, 0);
    let r = callable.call(&mut calls, Arguments::new(vec![Val::Int(21)]));
    assert_eq!(r.ok(), Some(Val::Int(42)));
    assert_eq!(calls, 1);
}

#[test]
fn inner_failure_is_passed_through() {
    let callable = CallableFunc::<_, (), (i64,), Val>::new(|_: &mut (), _n: i64| {
        Err::<i64, Error<Val>>(Error::new(String::from("boom")))
    });
    match callable.call(&mut (), Arguments::new(vec![Val::Int(1)])) {
        Err(Error::Runtime(m)) => assert_eq!(m, "boom"),
        _ => panic!("expected a runtime error"),
    }
}

#[test]
fn signatures_declare_what_they_know() {
    let tuple = CallableFunc::<_, (), (String,), Val>::new(greet);
    let sig = tuple.signature();
    assert_eq!(sig.params().len(), 1);
    assert_eq!(sig.params().get(0), Some(&Ty::Text));
    assert_eq!(sig.return_type(), Some(&Ty::Text));

    let raw = |_: &mut (), args: Arguments<Val>| Ok::<i64, Error<Val>>(args.len() as i64);
    let sig = Callable::<(), Val>::signature(&raw);
    assert_eq!(sig.params().len(), 0);
    assert_eq!(sig.return_type(), Some(&Ty::Int));
    let r = Callable::<(), Val>::call(&raw, &mut (), Arguments::new(vec![text("a"), text("b")]));
    assert_eq!(r.ok(), Some(Val::Int(2)));

    let none = gerning::Signature::<Val>::default();
    assert_eq!(none.params().len(), 0);
    assert_eq!(none.return_type(), None);
}

#[test]
fn errors_describe_themselves() {
    let e: ArgumentError<Val> = ArgumentError::Missing { index: 12, arity: 3 };
    assert_eq!(e.describe(), "missing argument at index: 12");
    let e: ArgumentError<Val> = ArgumentError::IndexOutOfBounds(0);
    assert_eq!(e.describe(), "index out of bounds: 0");
    let e: ArgumentError<Val> = ArgumentError::InvalidType { expected: Ty::Int, found: Ty::Text };
    assert_eq!(e.describe(), "invalid type. Expected: Int, found: Text");
    let e: ArgumentError<Val> = ArgumentError::Infallible;
    assert_eq!(e.describe(), "infallible");
    assert_eq!(Error::<Val>::MethodNotFound.describe(), "method not found");
    assert_eq!(Error::<Val>::Lock.describe(), "lock");
    assert_eq!(Error::<Val>::Infallible.describe(), "infallible");
    assert_eq!(Error::<Val>::new(String::from("bad")).describe(), "bad");
    let wrapped: Error<Val> = ArgumentError::Missing { index: 4096, arity: 0 }.into();
    assert_eq!(wrapped.describe(), "missing argument at index: 4096");
}

#[test]
fn arguments_and_signatures_compare_and_clone() {
    let a = Arguments::new(vec![text("x"), Val::Int(1)]);
    let b = a.clone();
    assert_eq!(a, b);
    assert_ne!(a, Arguments::new(vec![text("x")]));
    let p = Parameters::<Val>::build().with(Ty::Int).build();
    assert_eq!(p.clone(), p);
    let s = gerning::Signature::new(p.clone(), Ty::Text);
    assert_eq!(s.clone(), s);
}

#[test]
fn round_trip_at_the_largest_arity() {
    let t = (1i64, 2i64, 3i64, 4i64, 5i64, 6i64, 7i64, 8i64, 9i64, 10i64, 11i64, 12i64, 13i64, 14i64,
        String::from("fifteen"), 16i64);
    let args = t.clone().to_arguments();
    assert_eq!(args.len(), 16);
    let back = <(i64, i64, i64, i64, i64, i64, i64, i64, i64, i64, i64, i64, i64, i64, String, i64)
        as FromArguments<Val>>::from_arguments(&args);
    let back = back.ok().unwrap();
    assert_eq!((back.0, back.1, back.2, back.3, back.4, back.5, back.6, back.7),
        (t.0, t.1, t.2, t.3, t.4, t.5, t.6, t.7));
    assert_eq!((back.8, back.9, back.10, back.11, back.12, back.13, back.15), (t.8, t.9, t.10, t.11, t.12, t.13, t.15));
    assert_eq!(back.14, t.14);
}
