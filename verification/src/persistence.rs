//! Persistent state of virtual actors: the state an actor keeps between
//! activations, where it is stored, and how it is turned into bytes.

use std::marker::PhantomData;
use vstd::prelude::*;

use crate::table::StringTable;
use crate::virtual_actor::VirtualActor;

verus! {

/// Why a state could not be saved, loaded or (de)serialized; each variant
/// carries the message of the underlying failure.
#[derive(Debug)]
pub enum StatePersistenceError {
    SaveError(String),
    LoadError(String),
    SerializationError(String),
    Deserialization(String),
}

/// The state of a virtual actor. `Default` gives the state of an actor that
/// has never been saved.
pub trait VirtualActorState: Default {
}

/// Where the states of actors are kept, by actor id.
pub trait StatePersistence {
    /// Stores `state` as the state of actor `id`.
    fn save_state(&mut self, id: &str, state: Vec<u8>) -> Result<(), StatePersistenceError>;

    /// The stored state of actor `id`, if one was stored.
    fn load_state(&self, id: &str) -> Result<Option<Vec<u8>>, StatePersistenceError>;
}

/// A virtual actor whose state persists between activations.
pub trait VirtualActorWithState: VirtualActor {
    type State: VirtualActorState;

    type StatePersistence: StatePersistence;
}

/// How the state of actors of type `V` is turned into bytes and back.
pub trait StateSerializer<V: VirtualActorWithState>: Sized {
    fn new() -> Self;

    fn serialize_state(&self, state: &V::State) -> Result<Vec<u8>, StatePersistenceError>;

    fn deserialize_state(&self, data: &[u8]) -> Result<V::State, StatePersistenceError>;
}

/// The serializer that writes states as JSON documents.
pub struct JsonStateSerializer<V> {
    phantom_data: PhantomData<V>,
}

impl<V> JsonStateSerializer<V> {
    pub fn new() -> JsonStateSerializer<V> {
        JsonStateSerializer { phantom_data: PhantomData }
    }
}

/// States kept in memory, for as long as the process runs.
pub struct InmemoryStatePersistence {
    states: StringTable<Vec<u8>>,
}

impl InmemoryStatePersistence {
    /// The stored state of each actor, by actor id.
    pub closed spec fn states(&self) -> Map<Seq<char>, Seq<u8>> {
        self.states.map().map_values(|v: Vec<u8>| v@)
    }

    /// Nothing stored yet.
    pub fn new() -> (p: InmemoryStatePersistence)
        ensures
            p.states() == Map::<Seq<char>, Seq<u8>>::empty(),
    {
        let p = InmemoryStatePersistence { states: StringTable::new() };
        assert(p.states() =~= Map::<Seq<char>, Seq<u8>>::empty());
        p
    }
}

impl StatePersistence for InmemoryStatePersistence {
    /// Stores `state` for actor `id`, replacing what was stored for it; this
    /// never fails.
    fn save_state(&mut self, id: &str, state: Vec<u8>) -> (r: Result<(), StatePersistenceError>)
        ensures
            r is Ok,
            final(self).states() == old(self).states().insert(id@, state@),
    {
        let ghost bytes = state@;
        let _ = self.states.insert(id.to_owned(), state);
        assert(self.states() =~= old(self).states().insert(id@, bytes));
        Ok(())
    }

    /// The state stored for actor `id`, if any; this never fails.
    fn load_state(&self, id: &str) -> (r: Result<Option<Vec<u8>>, StatePersistenceError>)
        ensures
            r matches Ok(loaded) && match loaded {
                Some(bytes) => self.states().dom().contains(id@) && bytes@ == self.states()[id@],
                None => !self.states().dom().contains(id@),
            },
    {
        match self.states.get(id) {
            Some(s) => Ok(Some(s.clone())),
            None => Ok(None),
        }
    }
}

/// The bytes a store's answer to a load gives, if it gives any.
pub open spec fn stored_bytes(r: Result<Option<Vec<u8>>, StatePersistenceError>) -> Option<
    Seq<u8>,
> {
    match r {
        Ok(Some(bytes)) => Some(bytes@),
        _ => None,
    }
}

/// Loading from the in-memory store after saving to it gives back the saved
/// bytes, and saving one actor's state leaves what a load gives for every
/// other actor as it was.
pub proof fn lemma_load_after_save()
    ensures
        forall|
            store: &mut InmemoryStatePersistence,
            key: &str,
            bytes: Vec<u8>,
            r: Result<(), StatePersistenceError>,
            lr: Result<Option<Vec<u8>>, StatePersistenceError>,
        |
            #![trigger call_ensures(InmemoryStatePersistence::save_state, (store, key, bytes), r), load_answer(*final(store), key@, lr)]
            call_ensures(InmemoryStatePersistence::save_state, (store, key, bytes), r)
                && load_answer(*final(store), key@, lr) ==> r is Ok && lr is Ok && stored_bytes(lr)
                == Some(bytes@),
        forall|
            store: &mut InmemoryStatePersistence,
            key: &str,
            bytes: Vec<u8>,
            r: Result<(), StatePersistenceError>,
            other: Seq<char>,
            after: Result<Option<Vec<u8>>, StatePersistenceError>,
            before: Result<Option<Vec<u8>>, StatePersistenceError>,
        |
            #![trigger call_ensures(InmemoryStatePersistence::save_state, (store, key, bytes), r), load_answer(*final(store), other, after), load_answer(*store, other, before)]
            call_ensures(InmemoryStatePersistence::save_state, (store, key, bytes), r) && other
                != key@ && load_answer(*final(store), other, after) && load_answer(
                *store,
                other,
                before,
            ) ==> after is Ok && before is Ok && stored_bytes(after) == stored_bytes(before),
{
    assert forall|
        store: &mut InmemoryStatePersistence,
        key: &str,
        bytes: Vec<u8>,
        r: Result<(), StatePersistenceError>,
        lr: Result<Option<Vec<u8>>, StatePersistenceError>,
    |
        call_ensures(InmemoryStatePersistence::save_state, (store, key, bytes), r) && load_answer(
            *final(store),
            key@,
            lr,
        ) implies r is Ok && lr is Ok && stored_bytes(lr) == Some(bytes@) by {
        let k = choose|k: &str|
            k@ == key@ && call_ensures(InmemoryStatePersistence::load_state, (&*final(store), k), lr);
        assert(final(store).states() == store.states().insert(key@, bytes@));
    }
    assert forall|
        store: &mut InmemoryStatePersistence,
        key: &str,
        bytes: Vec<u8>,
        r: Result<(), StatePersistenceError>,
        other: Seq<char>,
        after: Result<Option<Vec<u8>>, StatePersistenceError>,
        before: Result<Option<Vec<u8>>, StatePersistenceError>,
    |
        call_ensures(InmemoryStatePersistence::save_state, (store, key, bytes), r) && other
            != key@ && load_answer(*final(store), other, after) && load_answer(
            *store,
            other,
            before,
        ) implies after is Ok && before is Ok && stored_bytes(after) == stored_bytes(before) by {
        let ka = choose|k: &str|
            k@ == other && call_ensures(InmemoryStatePersistence::load_state, (&*final(store), k), after);
        let kb = choose|k: &str|
            k@ == other && call_ensures(InmemoryStatePersistence::load_state, (&*store, k), before);
        assert(final(store).states() == store.states().insert(key@, bytes@));
    }
}

/// `{name}_{id}.json`, the file name of the state of actor `id` of type
/// `name`.
pub open spec fn state_file_name(name: Seq<char>, id: Seq<char>) -> Seq<char> {
    name + "_"@ + id + ".json"@
}

/// The path of the state file of actor `id` of type `name`: the file name
/// joined to the directory `./data/persistence/`, which an absolute file name
/// (one that starts with `/`) replaces.
pub open spec fn state_file_path(name: Seq<char>, id: Seq<char>) -> Seq<char> {
    if name.len() > 0 && name[0] == '/' {
        state_file_name(name, id)
    } else {
        "./data/persistence/"@ + state_file_name(name, id)
    }
}

/// The path of the state file of actor `id` of type `name`.
pub fn state_file_path_of(name: &str, id: &str) -> (path: String)
    ensures
        path@ == state_file_path(name@, id@),
{
    let mut file = name.to_owned();
    crate::text::append_str(&mut file, "_");
    crate::text::append_str(&mut file, id);
    crate::text::append_str(&mut file, ".json");
    if name.unicode_len() > 0 && name.get_char(0) == '/' {
        file
    } else {
        let mut path = String::new();
        crate::text::append_str(&mut path, "./data/persistence/");
        crate::text::append_str(&mut path, file.as_str());
        assert(path@ =~= "./data/persistence/"@ + state_file_name(name@, id@));
        path
    }
}

/// `r` is an answer the serializer `s` can give when asked for the bytes of
/// `state`.
pub open spec fn serialize_answer<V: VirtualActorWithState, S: StateSerializer<V>>(
    s: S,
    state: V::State,
    r: Result<Vec<u8>, StatePersistenceError>,
) -> bool {
    call_ensures(S::serialize_state, (&s, &state), r)
}

/// `r` is an answer the serializer `s` can give when asked to read a state
/// from `data`.
pub open spec fn deserialize_answer<V: VirtualActorWithState, S: StateSerializer<V>>(
    s: S,
    data: Seq<u8>,
    r: Result<V::State, StatePersistenceError>,
) -> bool {
    exists|slice: &[u8]| slice@ == data && call_ensures(S::deserialize_state, (&s, slice), r)
}

/// `r` is an answer the store `p` can give when asked for the bytes stored
/// under `id`.
pub open spec fn load_answer<P: StatePersistence>(
    p: P,
    id: Seq<char>,
    r: Result<Option<Vec<u8>>, StatePersistenceError>,
) -> bool {
    exists|key: &str| key@ == id && call_ensures(P::load_state, (&p, key), r)
}

/// `state` is a value that the state type's `default` can give.
pub open spec fn is_default_state<T: Default>(state: T) -> bool {
    call_ensures(T::default, (), state)
}

/// Restoring from `loaded`, with serializer `s`, turns the state `before`
/// into `after` and answers `r`: nothing loaded gives a default state; loaded
/// bytes give what the serializer reads from them, or its error with the state
/// unchanged.
pub open spec fn restored<V: VirtualActorWithState, S: StateSerializer<V>>(
    s: S,
    before: V::State,
    loaded: Option<Vec<u8>>,
    after: V::State,
    r: Result<(), StatePersistenceError>,
) -> bool {
    match loaded {
        None => r is Ok && is_default_state(after),
        Some(bytes) => match r {
            Ok(()) => deserialize_answer::<V, S>(s, bytes@, Ok(after)),
            Err(e) => after == before && deserialize_answer::<V, S>(s, bytes@, Err(e)),
        },
    }
}

/// Loading from the store `store` turned `before` into `after` and answered
/// `r`: the id and serializer stay; the store was asked for the actor's bytes;
/// its error was the answer and the state stayed, or what it gave was
/// restored.
pub open spec fn loaded<V: VirtualActorWithState, S: StateSerializer<V>>(
    before: PersistentState<V, S>,
    store: V::StatePersistence,
    after: PersistentState<V, S>,
    r: Result<(), StatePersistenceError>,
) -> bool {
    &&& after.spec_id() == before.spec_id()
    &&& after.spec_serializer() == before.spec_serializer()
    &&& exists|lr: Result<Option<Vec<u8>>, StatePersistenceError>|
        load_answer(store, before.spec_id(), lr) && match lr {
            Err(e) => r == Err::<(), StatePersistenceError>(e) && after.spec_state()
                == before.spec_state(),
            Ok(bytes) => restored::<V, S>(
                before.spec_serializer(),
                before.spec_state(),
                bytes,
                after.spec_state(),
                r,
            ),
        }
}

/// The serializer `reader` reads back what `writer` writes: bytes that
/// `writer` gives for a state are read as that state, and as nothing else.
pub open spec fn reads_back<V: VirtualActorWithState, S: StateSerializer<V>>(
    writer: S,
    reader: S,
) -> bool {
    forall|state: V::State, bytes: Vec<u8>, answer: Result<V::State, StatePersistenceError>|
        serialize_answer::<V, S>(writer, state, Ok(bytes)) && deserialize_answer::<V, S>(
            reader,
            bytes@,
            answer,
        ) ==> answer == Ok::<V::State, StatePersistenceError>(state)
}

/// The state of one virtual actor, with the id it is stored under.
pub struct PersistentState<V: VirtualActorWithState, S: StateSerializer<V>> {
    id: String,
    state: V::State,
    serializer: S,
}

impl<V: VirtualActorWithState, S: StateSerializer<V>> PersistentState<V, S> {
    /// The id the state is stored under.
    pub closed spec fn spec_id(&self) -> Seq<char> {
        self.id@
    }

    /// The current state.
    pub closed spec fn spec_state(&self) -> V::State {
        self.state
    }

    /// The serializer of the state.
    pub closed spec fn spec_serializer(&self) -> S {
        self.serializer
    }

    /// The state of actor `id`, at the state type's default until loaded.
    pub fn new(id: String) -> (p: PersistentState<V, S>)
        ensures
            p.spec_id() == id@,
            is_default_state(p.spec_state()),
    {
        PersistentState { id, state: V::State::default(), serializer: S::new() }
    }

    /// The id the state is stored under.
    pub fn id(&self) -> (id: String)
        ensures
            id@ == self.spec_id(),
    {
        self.id.clone()
    }

    /// Saves the current state to `persistence` under the actor's id: the
    /// serializer is asked for the bytes of the state; its error is returned
    /// and the store left alone, or the store is asked to save those bytes
    /// under the actor's id and its answer is returned.
    pub fn save(&self, persistence: &mut V::StatePersistence) -> (r: Result<(), StatePersistenceError>)
        ensures
            exists|sr: Result<Vec<u8>, StatePersistenceError>|
                serialize_answer::<V, S>(self.spec_serializer(), self.spec_state(), sr) && match sr {
                    Err(e) => r == Err::<(), StatePersistenceError>(e) && *final(persistence)
                        == *old(persistence),
                    Ok(bytes) => exists|store: &mut V::StatePersistence, key: &str|
                        *store == *old(persistence) && *final(store) == *final(persistence) && key@
                            == self.spec_id() && call_ensures(
                            V::StatePersistence::save_state,
                            (store, key, bytes),
                            r,
                        ),
                },
    {
        let serialized = self.serializer.serialize_state(&self.state);
        assert(serialize_answer::<V, S>(self.spec_serializer(), self.spec_state(), serialized));
        match serialized {
            Err(e) => Err(e),
            Ok(bytes) => {
                let id = self.id.as_str();
                persistence.save_state(id, bytes)
            },
        }
    }

    /// Replaces the current state with what `persistence` holds for the
    /// actor, or with the default state when it holds nothing: the store is
    /// asked for the actor's bytes; its error is returned and the state left as
    /// it was, or what it gave is restored as `restore` does.
    pub fn load(&mut self, persistence: &V::StatePersistence) -> (r: Result<(), StatePersistenceError>)
        ensures
            loaded::<V, S>(*old(self), *persistence, *final(self), r),
    {
        let id = self.id.as_str();
        let answer = persistence.load_state(id);
        assert(load_answer(*persistence, self.spec_id(), answer));
        match answer {
            Err(e) => Err(e),
            Ok(loaded) => self.restore(loaded),
        }
    }

    /// Takes the state from the bytes loaded for the actor (as the serializer
    /// reads them), or a default state when nothing was stored. On an error of
    /// the serializer that error is returned and the state left as it was.
    pub fn restore(&mut self, loaded: Option<Vec<u8>>) -> (r: Result<(), StatePersistenceError>)
        ensures
            final(self).spec_id() == old(self).spec_id(),
            final(self).spec_serializer() == old(self).spec_serializer(),
            restored::<V, S>(
                old(self).spec_serializer(),
                old(self).spec_state(),
                loaded,
                final(self).spec_state(),
                r,
            ),
    {
        match loaded {
            Some(bytes) => {
                let data = bytes.as_slice();
                let answer = self.serializer.deserialize_state(data);
                assert(deserialize_answer::<V, S>(self.serializer, bytes@, answer));
                match answer {
                    Ok(state) => {
                        self.state = state;
                        Ok(())
                    },
                    Err(e) => Err(e),
                }
            },
            None => {
                self.state = V::State::default();
                Ok(())
            },
        }
    }

    /// Applies `f` to the state.
    pub fn modify<F: FnOnce(V::State) -> V::State>(&mut self, f: F)
        requires
            f.requires((old(self).spec_state(),)),
        ensures
            final(self).spec_id() == old(self).spec_id(),
            final(self).spec_serializer() == old(self).spec_serializer(),
            f.ensures((old(self).spec_state(),), final(self).spec_state()),
    {
        let mut state = V::State::default();
        std::mem::swap(&mut state, &mut self.state);
        self.state = f(state);
    }

    /// What `f` makes of the state.
    pub fn select<T, F: FnOnce(&V::State) -> T>(&self, f: F) -> (r: T)
        requires
            f.requires((&self.spec_state(),)),
        ensures
            f.ensures((&self.spec_state(),), r),
    {
        f(&self.state)
    }
}

/// Reading back saved state gives the state: once `p` saved its state to a
/// store, a state `q` with the same id that loads from that store gets the
/// saved state, provided the store gives back under a key the bytes just
/// saved under it (the in-memory store does: `lemma_load_after_save`) and the
/// serializer of `q` reads back what the serializer of `p` writes.
pub proof fn lemma_saved_state_is_loaded<V: VirtualActorWithState, S: StateSerializer<V>>(
    p: PersistentState<V, S>,
    before: V::StatePersistence,
    after: V::StatePersistence,
    save_r: Result<(), StatePersistenceError>,
    q: PersistentState<V, S>,
    q_after: PersistentState<V, S>,
    r: Result<(), StatePersistenceError>,
)
    requires
        forall|
            store: &mut V::StatePersistence,
            key: &str,
            bytes: Vec<u8>,
            sr: Result<(), StatePersistenceError>,
            lr: Result<Option<Vec<u8>>, StatePersistenceError>,
        |
            #![trigger call_ensures(V::StatePersistence::save_state, (store, key, bytes), sr), load_answer(*final(store), key@, lr)]
            call_ensures(V::StatePersistence::save_state, (store, key, bytes), sr) && sr is Ok
                && load_answer(*final(store), key@, lr) ==> lr is Ok && stored_bytes(lr) == Some(
                bytes@,
            ),
        reads_back::<V, S>(p.spec_serializer(), q.spec_serializer()),
        save_r is Ok,
        exists|sr: Result<Vec<u8>, StatePersistenceError>|
            serialize_answer::<V, S>(p.spec_serializer(), p.spec_state(), sr) && match sr {
                Err(e) => save_r == Err::<(), StatePersistenceError>(e) && after == before,
                Ok(bytes) => exists|store: &mut V::StatePersistence, key: &str|
                    *store == before && *final(store) == after && key@ == p.spec_id()
                        && call_ensures(V::StatePersistence::save_state, (store, key, bytes), save_r),
            },
        q.spec_id() == p.spec_id(),
        loaded::<V, S>(q, after, q_after, r),
    ensures
        r is Ok,
        q_after.spec_state() == p.spec_state(),
        q_after.spec_id() == p.spec_id(),
{
}

} // verus!
