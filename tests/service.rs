use gerning::{
    convert_output, finish_blocking, ArgumentError, Arguments, CallPhase, Callable, CallableFunc,
    DynService, Error, FromValue, HasState, IntoAsync, IntoValue, MethodCallable, NameMap, State,
    StateType, SyncState, Tokio, Typed, Value,
};

#[derive(Debug, Clone, PartialEq)]
enum Val {
    Text(String),
    Int(i64),
}

#[derive(Debug, Clone, Copy, PartialEq)]
enum Ty {
    Text,
    Int,
}

impl Value for Val {
    type Type = Ty;

    fn get_type(&self) -> Ty {
        match self {
            Val::Text(_) => Ty::Text,
            Val::Int(_) => Ty::Int,
        }
    }
}

impl Typed<Val> for Val {
    fn get_type() -> Ty {
        Ty::Text
    }
}

impl Typed<Val> for String {
    fn get_type() -> Ty {
        Ty::Text
    }
}

impl IntoValue<Val> for Val {
    fn into_value(self) -> Val {
        self
    }
}

impl IntoValue<Val> for String {
    fn into_value(self) -> Val {
        Val::Text(self)
    }
}

impl<'a> FromValue<'a, Val> for String {
    fn from_value(value: &'a Val) -> Result<String, ArgumentError<Val>> {
        match value {
            Val::Text(s) => Ok(s.clone()),
            other => Err(ArgumentError::InvalidType { expected: Ty::Text, found: other.get_type() }),
        }
    }
}

type Store = NameMap<Val>;
type Method = Box<dyn Fn(&mut Store, &mut (), Arguments<Val>) -> Result<Val, Error<Val>>>;

fn text(s: &str) -> Val {
    Val::Text(s.to_string())
}

fn read_state(this: &mut Store, _: &mut (), _: Arguments<Val>) -> Result<Val, Error<Val>> {
    match State::get(this, "state")? {
        Some(v) => Ok(v),
        None => Err(Error::Infallible),
    }
}

fn increment(this: &mut Store, _: &mut (), _: Arguments<Val>) -> Result<Val, Error<Val>> {
    let n = match State::get(this, "count")? {
        Some(Val::Int(n)) => n,
        _ => 0,
    };
    State::set(this, "count", Val::Int(n + 1))?;
    Ok(Val::Int(n + 1))
}

/// A state holder that counts every access to what it holds.
struct Counting {
    inner: Store,
    accesses: u32,
}

impl HasState for Counting {
    type State = Store;
}

impl StateType<Val> for Counting {
    fn set(&mut self, name: &str, value: Val) -> Result<(), Error<Val>> {
        self.accesses += 1;
        State::set(&mut self.inner, name, value)
    }

    fn get(&self, name: &str) -> Result<Option<Val>, Error<Val>> {
        State::get(&self.inner, name)
    }

    fn invoke<C, M: MethodCallable<Store, C, Val>>(
        &mut self,
        method: &M,
        ctx: &mut C,
        args: Arguments<Val>,
    ) -> Result<Val, Error<Val>> {
        self.accesses += 1;
        method.call(&mut self.inner, ctx, args)
    }
}

#[test]
fn unknown_method_touches_no_state() {
    let counting = Counting { inner: NameMap::new(), accesses: 0 };
    let mut service: DynService<Counting, gerning::Sync, Method> = DynService::new(counting);
    service.register("known", Box::new(increment));
    let r = service.call(&mut (), "unknown", Arguments::default());
    assert!(matches!(r, Err(Error::MethodNotFound)));
    assert_eq!(service.state().accesses, 0);
    let r = service.call(&mut (), "known", Arguments::default());
    assert_eq!(r.ok(), Some(Val::Int(1)));
    assert_eq!(service.state().accesses, 1);
}

#[test]
fn stored_value_is_read_back_by_a_method() {
    let mut service: DynService<SyncState<Store>, gerning::Sync, Method> =
        DynService::new(SyncState::new(NameMap::new()));
    service.register("test", Box::new(read_state));
    assert!(service.set_value("state", text("wonderful")).is_ok());
    let r = service.call(&mut (), "test", Arguments::default());
    assert_eq!(r.ok(), Some(text("wonderful")));
    assert_eq!(service.get_value("state").ok(), Some(Some(text("wonderful"))));
    assert_eq!(service.get_value("absent").ok(), Some(None));
}

#[test]
fn sequential_increments_lose_no_update() {
    let mut service: DynService<SyncState<Store>, gerning::Sync, Method> =
        DynService::new(SyncState::new(NameMap::new()));
    service.register("incr", Box::new(increment));
    let first = service.call(&mut (), "incr", Arguments::default());
    let second = service.call(&mut (), "incr", Arguments::default());
    assert_eq!(first.ok(), Some(Val::Int(1)));
    assert_eq!(second.ok(), Some(Val::Int(2)));
    for expected in 3..=20 {
        let r = service.call(&mut (), "incr", Arguments::default());
        assert_eq!(r.ok(), Some(Val::Int(expected)));
    }
}

#[test]
fn later_registration_wins() {
    let mut service: DynService<SyncState<Store>, gerning::Sync, Method> =
        DynService::new(SyncState::new(NameMap::new()));
    service
        .register("v", Box::new(|_: &mut Store, _: &mut (), _: Arguments<Val>| Ok(Val::Int(1))))
        .register("v", Box::new(|_: &mut Store, _: &mut (), _: Arguments<Val>| Ok(Val::Int(2))));
    assert_eq!(service.call(&mut (), "v", Arguments::default()).ok(), Some(Val::Int(2)));
    assert!(service.method("v").is_some());
    assert!(service.method("w").is_none());
}

#[test]
fn service_signature_lists_every_method() {
    let mut service: DynService<SyncState<Store>, gerning::Sync, Method> =
        DynService::new(SyncState::new(NameMap::new()));
    service.register("a", Box::new(read_state)).register("b", Box::new(increment));
    let sig = service.signature::<(), Val>();
    assert_eq!(sig.functions(), vec![String::from("a"), String::from("b")]);
    let a = sig.get("a").unwrap();
    assert_eq!(a.params().len(), 0);
    assert_eq!(a.return_type(), Some(&Ty::Text));
    assert!(sig.get("c").is_none());
}

#[test]
fn async_flavors_start_empty() {
    let s: DynService<SyncState<Store>, gerning::Async, Method> =
        DynService::new_async(SyncState::new(NameMap::new()));
    assert!(s.method("x").is_none());
    let s: DynService<SyncState<Store>, gerning::SendAsync, Method> =
        DynService::<SyncState<Store>, gerning::Async, Method>::new_async_send(SyncState::new(
            NameMap::new(),
        ));
    assert!(s.method("x").is_none());
}

#[test]
fn name_map_replaces_and_keeps_order() {
    let mut m: NameMap<i64> = NameMap::new();
    m.insert("x", 1);
    m.insert("y", 2);
    m.insert("x", 3);
    assert_eq!(m.len(), 2);
    assert_eq!(m.get("x"), Some(&3));
    assert_eq!(m.get("y"), Some(&2));
    assert_eq!(m.get("z"), None);
    assert!(m.contains("y"));
    assert!(!m.contains("z"));
    assert_eq!(m.name_at(0), "x");
    assert_eq!(*m.value_at(1), 2);
}

#[test]
fn failed_call_hands_back_its_error_once() {
    let args: Arguments<Val> = Arguments::new(vec![Val::Int(3)]);
    let (mut phase, input) = CallPhase::<Val>::start::<(String,)>(&args);
    assert!(input.is_none());
    let r = phase.resume(None);
    assert!(matches!(
        r,
        Some(Err(Error::Argument(ArgumentError::InvalidType { expected: Ty::Text, found: Ty::Int })))
    ));
    assert!(phase.is_done());
}

#[test]
fn running_call_waits_for_its_inner_computation() {
    let args: Arguments<Val> = Arguments::new(vec![text("a")]);
    let (mut phase, input) = CallPhase::<Val>::start::<(String,)>(&args);
    assert_eq!(input, Some((String::from("a"),)));
    assert!(phase.resume(None).is_none());
    assert!(!phase.is_done());
    assert_eq!(phase.resume(Some(Ok(Val::Int(9)))).map(|r| r.ok()), Some(Some(Val::Int(9))));
    assert!(phase.is_done());
}

#[test]
fn unknown_method_in_a_suspending_dispatch() {
    let mut phase = CallPhase::<Val>::dispatch(false);
    assert!(matches!(phase.resume(None), Some(Err(Error::MethodNotFound))));
    let mut found = CallPhase::<Val>::dispatch(true);
    assert!(found.resume(None).is_none());
}

fn greet(_ctx: &mut (), name: String) -> Result<String, Error<Val>> {
    Ok(format!("Hello, {}", name))
}

#[test]
fn sync_and_suspending_adapters_agree() {
    for args in [vec![text("World")], vec![], vec![Val::Int(1)]] {
        let sync = CallableFunc::<_, (), (String,), Val>::new(greet)
            .call(&mut (), Arguments::new(args.clone()));

        let args = Arguments::new(args);
        let (mut phase, input) = CallPhase::<Val>::start::<(String,)>(&args);
        let inner = input.map(|(name,)| convert_output(greet(&mut (), name)));
        let handed = phase.resume(inner).unwrap();
        match (sync, handed) {
            (Ok(a), Ok(b)) => assert_eq!(a, b),
            (Err(a), Err(b)) => assert_eq!(a.describe(), b.describe()),
            _ => panic!("the adapters disagree"),
        }
    }
}

#[test]
fn executor_failure_becomes_runtime_error() {
    let ok = finish_blocking::<Val>(Ok(Ok(Val::Int(4))));
    assert_eq!(ok.ok(), Some(Val::Int(4)));
    match finish_blocking::<Val>(Err(String::from("cancelled"))) {
        Err(Error::Runtime(m)) => assert_eq!(m, "cancelled"),
        _ => panic!("expected a runtime error"),
    }
    let inner = finish_blocking::<Val>(Ok(Err(Error::Lock)));
    assert!(matches!(inner, Err(Error::Lock)));
    let wrapped: IntoAsync<u8, (), Tokio, Val> = IntoAsync::new(5);
    assert_eq!(*wrapped.callable(), 5);
}

#[test]
fn functions_follow_first_registration_once_each() {
    let mut service: DynService<SyncState<Store>, gerning::Sync, Method> =
        DynService::new(SyncState::new(NameMap::new()));
    service
        .register("b", Box::new(increment))
        .register("a", Box::new(read_state))
        .register("b", Box::new(read_state));
    let sig = service.signature::<(), Val>();
    assert_eq!(sig.functions(), vec![String::from("b"), String::from("a")]);
    let copy = sig.clone();
    assert_eq!(copy.functions(), sig.functions());
}

#[test]
fn name_table_storing_never_fails() {
    let mut m: Store = NameMap::new();
    assert!(State::set(&mut m, "k", Val::Int(1)).is_ok());
    assert_eq!(State::get(&m, "k").ok(), Some(Some(Val::Int(1))));
    assert_eq!(State::get(&m, "other").ok(), Some(None));
    let copy = m.clone();
    assert_eq!(copy.get("k"), Some(&Val::Int(1)));
    assert_eq!(copy.len(), 1);
}

#[test]
fn extraction_failure_leaves_the_context() {
    let callable = CallableFunc::<_, Vec<i64>, (String,), Val>::new(|ctx: &mut Vec<i64>, _s: String| {
        ctx.push(1);
        Ok::<Val, Error<Val>>(Val::Int(0))
    });
    let mut ctx: Vec<i64> = vec![7];
    let r = callable.call(&mut ctx, Arguments::new(vec![Val::Int(3)]));
    assert!(r.is_err());
    assert_eq!(ctx, vec![7]);
    let r = callable.call(&mut ctx, Arguments::new(vec![text("s")]));
    assert!(r.is_ok());
    assert_eq!(ctx, vec![7, 1]);
}

#[test]
fn signature_entries_in_registration_order() {
    let mut service: DynService<SyncState<Store>, gerning::Sync, Method> =
        DynService::new(SyncState::new(NameMap::new()));
    service.register("first", Box::new(read_state)).register("second", Box::new(increment));
    let sig = service.signature::<(), Val>();
    assert_eq!(sig.len(), 2);
    let (name, s) = sig.entry_at(1);
    assert_eq!(name, "second");
    assert_eq!(s.return_type(), Some(&Ty::Text));
    assert_eq!(sig.entry_at(0).0, "first");
}
