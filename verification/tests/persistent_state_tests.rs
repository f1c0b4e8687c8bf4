use cluster_node::persistence::{
    InmemoryStatePersistence, PersistentState, StatePersistenceError, StateSerializer,
    VirtualActorState, VirtualActorWithState,
};
use cluster_node::virtual_actor::{VirtualActor, VirtualActorFactory, VirtualActorFactoryError};

#[derive(Debug, Default, Clone, PartialEq)]
struct CounterState {
    counter: u8,
}

impl VirtualActorState for CounterState {}

struct CounterActor {
    id: String,
}

struct CounterFactory;

impl VirtualActorFactory<CounterActor> for CounterFactory {
    fn create(&self, id: String) -> Result<CounterActor, VirtualActorFactoryError> {
        Ok(CounterActor { id })
    }
}

impl VirtualActor for CounterActor {
    type Factory = CounterFactory;

    fn name() -> &'static str {
        "CounterActor"
    }

    fn id(&self) -> String {
        self.id.clone()
    }
}

impl VirtualActorWithState for CounterActor {
    type State = CounterState;
    type StatePersistence = InmemoryStatePersistence;
}

struct ByteSerializer;

impl StateSerializer<CounterActor> for ByteSerializer {
    fn new() -> Self {
        ByteSerializer
    }

    fn serialize_state(&self, state: &CounterState) -> Result<Vec<u8>, StatePersistenceError> {
        Ok(vec![state.counter])
    }

    fn deserialize_state(&self, data: &[u8]) -> Result<CounterState, StatePersistenceError> {
        match data {
            [c] => Ok(CounterState { counter: *c }),
            _ => Err(StatePersistenceError::Deserialization("one byte expected".to_string())),
        }
    }
}

#[test]
fn new_state_starts_at_default() {
    let p: PersistentState<CounterActor, ByteSerializer> = PersistentState::new("a".to_string());
    assert_eq!(p.id(), "a");
    assert_eq!(p.select(|s| s.counter), 0);
}

#[test]
fn modify_then_select() {
    let mut p: PersistentState<CounterActor, ByteSerializer> = PersistentState::new("a".to_string());
    p.modify(|mut s| {
        s.counter += 1;
        s
    });
    p.modify(|mut s| {
        s.counter += 1;
        s
    });
    assert_eq!(p.select(|s| s.counter), 2);
    assert_eq!(p.select(|s| s.counter), 2);
}

#[test]
fn saved_state_is_loaded_back() {
    let mut store = InmemoryStatePersistence::new();
    let mut p: PersistentState<CounterActor, ByteSerializer> = PersistentState::new("a".to_string());
    p.modify(|_| CounterState { counter: 5 });
    assert!(p.save(&mut store).is_ok());

    let mut q: PersistentState<CounterActor, ByteSerializer> = PersistentState::new("a".to_string());
    assert!(q.load(&store).is_ok());
    assert_eq!(q.select(|s| s.counter), 5);
    assert_eq!(q.id(), "a");

    let mut other: PersistentState<CounterActor, ByteSerializer> = PersistentState::new("b".to_string());
    other.modify(|_| CounterState { counter: 9 });
    assert!(other.load(&store).is_ok());
    assert_eq!(other.select(|s| s.counter), 0);
}

#[test]
fn unreadable_bytes_leave_the_state() {
    let mut p: PersistentState<CounterActor, ByteSerializer> = PersistentState::new("a".to_string());
    p.modify(|_| CounterState { counter: 3 });
    let r = p.restore(Some(vec![1, 2]));
    assert!(matches!(r, Err(StatePersistenceError::Deserialization(_))));
    assert_eq!(p.select(|s| s.counter), 3);
    assert!(p.restore(Some(vec![8])).is_ok());
    assert_eq!(p.select(|s| s.counter), 8);
}
