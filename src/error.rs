use vstd::prelude::*;

use crate::traits::Value;

verus! {

/// Why an argument could not be read.
#[derive(Debug)]
pub enum ArgumentError<V: Value> {
    Infallible,
    InvalidType { expected: V::Type, found: V::Type },
    Missing { index: usize, arity: usize },
    IndexOutOfBounds(usize),
}

/// Every failure of a call.
#[derive(Debug)]
pub enum Error<V: Value> {
    Argument(ArgumentError<V>),
    /// A failure of the native function, carried as its message.
    Runtime(String),
    MethodNotFound,
    Lock,
    Infallible,
}

/// The decimal digit for `d` below ten.
pub open spec fn digit_char(d: nat) -> char {
    if d == 0 { '0' } else if d == 1 { '1' } else if d == 2 { '2' } else if d == 3 { '3' }
    else if d == 4 { '4' } else if d == 5 { '5' } else if d == 6 { '6' } else if d == 7 { '7' }
    else if d == 8 { '8' } else { '9' }
}

/// `n` written in decimal, without leading zeros.
pub open spec fn decimal(n: nat) -> Seq<char>
    decreases n,
{
    if n < 10 {
        seq![digit_char(n)]
    } else {
        decimal(n / 10).push(digit_char(n % 10))
    }
}

/// The decimal digit `d`, below ten, as text.
fn digit_text(d: usize) -> (s: &'static str)
    requires
        d < 10,
    ensures
        s@ == seq![digit_char(d as nat)],
{
    if d == 0 {
        proof {
            reveal_strlit("0");
        }
        "0"
    } else if d == 1 {
        proof {
            reveal_strlit("1");
        }
        "1"
    } else if d == 2 {
        proof {
            reveal_strlit("2");
        }
        "2"
    } else if d == 3 {
        proof {
            reveal_strlit("3");
        }
        "3"
    } else if d == 4 {
        proof {
            reveal_strlit("4");
        }
        "4"
    } else if d == 5 {
        proof {
            reveal_strlit("5");
        }
        "5"
    } else if d == 6 {
        proof {
            reveal_strlit("6");
        }
        "6"
    } else if d == 7 {
        proof {
            reveal_strlit("7");
        }
        "7"
    } else if d == 8 {
        proof {
            reveal_strlit("8");
        }
        "8"
    } else {
        proof {
            reveal_strlit("9");
        }
        "9"
    }
}

/// `n` written in decimal.
fn decimal_string(n: usize) -> (s: String)
    ensures
        s@ == decimal(n as nat),
    decreases n,
{
    if n < 10 {
        String::from_str(digit_text(n))
    } else {
        let mut s = decimal_string(n / 10);
        s.append(digit_text(n % 10));
        proof {
            assert(s@ =~= decimal((n / 10) as nat).push(digit_char((n % 10) as nat)));
        }
        s
    }
}

/// Relies on the `Debug` impl of `T` through `format!`: nothing is known of the
/// text.
#[verifier::external_body]
fn debug_string<T: core::fmt::Debug>(t: &T) -> (s: String) {
    format!("{:?}", t)
}

/// `s` is how `a` is described; the type tags of an invalid type are written
/// by their `Debug` impl, of which nothing is known here.
pub open spec fn describes<V: Value>(a: ArgumentError<V>, s: Seq<char>) -> bool {
    match a {
        ArgumentError::Infallible => s == "infallible"@,
        ArgumentError::InvalidType { .. } => exists|e: Seq<char>, f: Seq<char>|
            s == "invalid type. Expected: "@ + e + ", found: "@ + f,
        ArgumentError::Missing { index, .. } => s == "missing argument at index: "@ + decimal(
            index as nat,
        ),
        ArgumentError::IndexOutOfBounds(index) => s == "index out of bounds: "@ + decimal(
            index as nat,
        ),
    }
}

impl<V: Value> ArgumentError<V> {
    /// A sentence that says what went wrong.
    pub fn describe(&self) -> (s: String)
        ensures
            describes(*self, s@),
    {
        match self {
            ArgumentError::Infallible => String::from_str("infallible"),
            ArgumentError::InvalidType { expected, found } => {
                let mut s = String::from_str("invalid type. Expected: ");
                let e = debug_string(expected);
                s.append(e.as_str());
                s.append(", found: ");
                let f = debug_string(found);
                s.append(f.as_str());
                s
            },
            ArgumentError::Missing { index, .. } => {
                let mut s = String::from_str("missing argument at index: ");
                let n = decimal_string(*index);
                s.append(n.as_str());
                s
            },
            ArgumentError::IndexOutOfBounds(index) => {
                let mut s = String::from_str("index out of bounds: ");
                let n = decimal_string(*index);
                s.append(n.as_str());
                s
            },
        }
    }
}

impl<V: Value> Error<V> {
    pub fn new(message: String) -> (e: Error<V>)
        ensures
            e == Error::<V>::Runtime(message),
    {
        Error::Runtime(message)
    }

    /// A sentence that says what went wrong; a runtime failure is its message.
    pub fn describe(&self) -> (s: String)
        ensures
            self matches Error::Argument(a) ==> describes(*a, s@),
            self matches Error::Runtime(m) ==> s@ == m@,
            *self is MethodNotFound ==> s@ == "method not found"@,
            *self is Lock ==> s@ == "lock"@,
            *self is Infallible ==> s@ == "infallible"@,
    {
        match self {
            Error::Argument(a) => a.describe(),
            Error::Runtime(m) => m.clone(),
            Error::MethodNotFound => String::from_str("method not found"),
            Error::Lock => String::from_str("lock"),
            Error::Infallible => String::from_str("infallible"),
        }
    }
}

impl<V: Value> From<ArgumentError<V>> for Error<V> {
    fn from(value: ArgumentError<V>) -> (e: Error<V>)
        ensures
            e == Error::<V>::Argument(value),
    {
        Error::Argument(value)
    }
}

impl<V: Value> From<core::convert::Infallible> for Error<V> {
    fn from(value: core::convert::Infallible) -> (e: Error<V>)
        ensures
            e == Error::<V>::Infallible,
    {
        Error::Infallible
    }
}

impl<V: Value> vstd::std_specs::convert::FromSpecImpl<core::convert::Infallible> for Error<V> {
    open spec fn obeys_from_spec() -> bool {
        true
    }

    open spec fn from_spec(v: core::convert::Infallible) -> Error<V> {
        Error::Infallible
    }
}

impl<V: Value> From<core::convert::Infallible> for ArgumentError<V> {
    fn from(value: core::convert::Infallible) -> (e: ArgumentError<V>)
        ensures
            e == ArgumentError::<V>::Infallible,
    {
        ArgumentError::Infallible
    }
}

impl<V: Value> vstd::std_specs::convert::FromSpecImpl<core::convert::Infallible> for ArgumentError<V> {
    open spec fn obeys_from_spec() -> bool {
        true
    }

    open spec fn from_spec(v: core::convert::Infallible) -> ArgumentError<V> {
        ArgumentError::Infallible
    }
}

impl<V: Value> vstd::std_specs::convert::FromSpecImpl<ArgumentError<V>> for Error<V> {
    open spec fn obeys_from_spec() -> bool {
        true
    }

    open spec fn from_spec(v: ArgumentError<V>) -> Error<V> {
        Error::Argument(v)
    }
}

} // verus!
