//! A marshaling and dispatch core: native functions and service state exposed
//! to callers that supply positional, dynamically typed arguments.
pub mod arguments;
pub mod callable;
pub mod construct;
pub mod error;
pub mod extract;
pub mod func;
pub mod method;
pub mod names;
pub mod pending;
pub mod service;
pub mod state;
pub mod signature;
pub mod traits;

pub use arguments::{Arguments, ArgumentsBuilder};
pub use error::{ArgumentError, Error};
pub use callable::{convert_output, Callable, CallableFunc, FuncExt};
pub use construct::ToArguments;
pub use extract::FromArguments;
pub use func::Func;
pub use method::{MethodCallable, Signed};
pub use names::NameMap;
pub use pending::{finish_blocking, CallPhase, IntoAsync, Smol, Tokio};
pub use service::{Async, DynService, SendAsync, ServiceSignature, ServiceType, Sync};
pub use signature::{ParamIter, Parameters, ParametersBuilder, Signature};
pub use state::{HasState, State, StateType, SyncState};
pub use traits::{FromValue, IntoValue, Typed, Value};
