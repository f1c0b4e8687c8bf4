//! The registry of the virtual actors of one type on this node: finds the
//! running actor for an id, creates it when needed, parks idle actors and
//! stops them all.

use vstd::prelude::*;

use crate::housekeeping::RefreshUsage;
use crate::table::StringTable;
use crate::virtual_actor::{StopRequestError, VirtualActorFactoryError};

verus! {

/// Why stopping one actor failed; each variant but the last carries the
/// message of the underlying failure. Of the outcomes of one stop, only a
/// failure to join the task that sent the stop request counts as a failure
/// (see `stop_outcome`).
#[derive(Debug)]
pub enum StopAllError {
    JoinError(String),
    MailboxError(String),
    StopRequestError(StopRequestError),
}

/// Errors of the virtual actor registry.
#[derive(Debug)]
pub enum VirtualActorRegistryError {
    /// No factory has been set, so no actor can be created.
    FactoryIsNotSet,
    FactoryError(VirtualActorFactoryError),
    /// Some actors failed to stop.
    StopAllErrors(Vec<StopAllError>),
}

/// Ask for the running actor with this id.
#[derive(Debug)]
pub struct GetActor {
    pub id: String,
}

impl GetActor {
    pub fn new(id: String) -> (msg: GetActor)
        ensures
            msg.id == id,
    {
        GetActor { id }
    }
}

/// Stop the actor with this id and forget it.
#[derive(Debug)]
pub struct ParkVirtualActor {
    pub id: String,
}

impl ParkVirtualActor {
    pub fn new(id: &str) -> (msg: ParkVirtualActor)
        ensures
            msg.id@ == id@,
    {
        ParkVirtualActor { id: id.to_owned() }
    }
}

/// Set the factory that creates actors.
pub struct SetFactory<F> {
    pub factory: F,
}

impl<F> SetFactory<F> {
    pub fn new(factory: F) -> (msg: SetFactory<F>)
        ensures
            msg.factory == factory,
    {
        SetFactory { factory }
    }
}

/// Stop all running actors.
#[derive(Debug, Clone, Copy)]
pub struct StopAllActors;

/// How a request for an actor is served.
pub enum GetActorPlan<'a, A, F> {
    /// The actor runs already, at this address.
    Running(&'a A),
    /// The actor is to be created by this factory.
    Create(&'a F),
}

/// The running actors of one type (their addresses `A`) and the factory (`F`)
/// that creates missing ones.
pub struct VirtualActorRegistryActor<A, F> {
    map: StringTable<A>,
    factory: Option<F>,
}

impl<A, F> VirtualActorRegistryActor<A, F> {
    /// The running actors, by id.
    pub closed spec fn actors(&self) -> Map<Seq<char>, A> {
        self.map.map()
    }

    /// The factory, once set.
    pub closed spec fn spec_factory(&self) -> Option<F> {
        self.factory
    }

    /// No actor running and no factory.
    pub fn new() -> (r: VirtualActorRegistryActor<A, F>)
        ensures
            r.actors() == Map::<Seq<char>, A>::empty(),
            r.spec_factory() is None,
    {
        VirtualActorRegistryActor { map: StringTable::new(), factory: None }
    }

    /// Sets the factory that creates actors from now on.
    pub fn set_factory(&mut self, msg: SetFactory<F>)
        ensures
            final(self).actors() == old(self).actors(),
            final(self).spec_factory() == Some(msg.factory),
    {
        self.factory = Some(msg.factory);
    }

    /// How to serve a request for actor `msg.id`: the running actor when there
    /// is one, otherwise creation by the factory; without a factory the request
    /// is refused.
    pub fn get_or_create_actor(&self, msg: &GetActor) -> (plan: Result<
        GetActorPlan<'_, A, F>,
        VirtualActorRegistryError,
    >)
        ensures
            plan_answer(*self, msg.id@, plan),
    {
        match self.map.get(msg.id.as_str()) {
            Some(a) => Ok(GetActorPlan::Running(a)),
            None => match &self.factory {
                Some(f) => Ok(GetActorPlan::Create(f)),
                None => Err(VirtualActorRegistryError::FactoryIsNotSet),
            },
        }
    }

    /// Records a newly created actor under its own id.
    pub fn actor_created(&mut self, actor_id: String, addr: A)
        ensures
            final(self).actors() == old(self).actors().insert(actor_id@, addr),
            final(self).spec_factory() == old(self).spec_factory(),
    {
        let _ = self.map.insert(actor_id, addr);
    }

    /// Completes a creation with what the factory answered: a created actor is
    /// recorded under its id; a failure of the factory is the answer, and the
    /// running actors stay as they were.
    pub fn creation_finished(
        &mut self,
        created: Result<(String, A), VirtualActorFactoryError>,
    ) -> (r: Result<(), VirtualActorRegistryError>)
        ensures
            final(self).spec_factory() == old(self).spec_factory(),
            match created {
                Ok((id, addr)) => r is Ok && final(self).actors() == old(self).actors().insert(
                    id@,
                    addr,
                ),
                Err(e) => r matches Err(VirtualActorRegistryError::FactoryError(f)) && f == e
                    && final(self).actors() == old(self).actors(),
            },
    {
        match created {
            Ok((id, addr)) => {
                self.actor_created(id, addr);
                Ok(())
            },
            Err(e) => Err(VirtualActorRegistryError::FactoryError(e)),
        }
    }

    /// The actors to ask to stop when all are stopped: every running actor
    /// once, with its id.
    pub fn actors_to_stop(&self) -> (targets: Vec<(&String, &A)>)
        ensures
            targets.len() == self.actors().len(),
            forall|i: int|
                0 <= i < targets.len() ==> self.actors().dom().contains((#[trigger] targets[i]).0@)
                    && self.actors()[targets[i].0@] == *targets[i].1,
            forall|k: Seq<char>|
                self.actors().dom().contains(k) ==> exists|i: int|
                    0 <= i < targets.len() && (#[trigger] targets[i]).0@ == k,
            forall|i: int, j: int|
                0 <= i < targets.len() && 0 <= j < targets.len() && i != j ==> (
                #[trigger] targets[i]).0@ != (#[trigger] targets[j]).0@,
    {
        self.map.entries()
    }

    /// The running actor to ask to stop when parking `msg.id`, if there is one.
    pub fn actor_to_park(&self, msg: &ParkVirtualActor) -> (addr: Option<&A>)
        ensures
            match addr {
                Some(a) => self.actors().dom().contains(msg.id@) && *a == self.actors()[msg.id@],
                None => !self.actors().dom().contains(msg.id@),
            },
    {
        self.map.get(msg.id.as_str())
    }

    /// Completes parking `msg.id` once the actor answered: a stopped actor is
    /// forgotten; one that failed to stop stays, and its usage is refreshed so
    /// that parking is tried again later.
    pub fn actor_parked(&mut self, msg: ParkVirtualActor, stopped: bool) -> (refresh: Option<
        RefreshUsage,
    >)
        ensures
            stopped ==> final(self).actors() == old(self).actors().remove(msg.id@) && refresh is None,
            !stopped ==> final(self).actors() == old(self).actors() && (refresh matches Some(r)
                && r.id@ == msg.id@),
            final(self).spec_factory() == old(self).spec_factory(),
    {
        if stopped {
            let _ = self.map.remove(msg.id.as_str());
            None
        } else {
            Some(RefreshUsage::new(msg.id.as_str()))
        }
    }

    /// The number of running actors.
    pub fn actor_count(&self) -> (n: usize)
        ensures
            n == self.actors().len(),
    {
        self.map.len()
    }
}

/// `plan` is an answer `get_or_create_actor` can give for actor `id`: the
/// running actor when there is one; otherwise creation by the factory, or a
/// refusal when no factory is set.
pub open spec fn plan_answer<'a, A, F>(
    registry: VirtualActorRegistryActor<A, F>,
    id: Seq<char>,
    plan: Result<GetActorPlan<'a, A, F>, VirtualActorRegistryError>,
) -> bool {
    &&& registry.actors().dom().contains(id) ==> (plan matches Ok(GetActorPlan::Running(a)) && *a
        == registry.actors()[id])
    &&& !registry.actors().dom().contains(id) ==> match registry.spec_factory() {
        Some(f) => plan matches Ok(GetActorPlan::Create(g)) && *g == f,
        None => plan matches Err(e) && e is FactoryIsNotSet,
    }
}

/// A created actor is running: once `creation_finished` (or `actor_created`)
/// recorded it, `get_or_create_actor` serves its id with it, factory or not.
pub proof fn lemma_created_actor_is_running<'a, A, F>(
    before: VirtualActorRegistryActor<A, F>,
    after: VirtualActorRegistryActor<A, F>,
    id: Seq<char>,
    addr: A,
    plan: Result<GetActorPlan<'a, A, F>, VirtualActorRegistryError>,
)
    requires
        after.actors() == before.actors().insert(id, addr),
        plan_answer(after, id, plan),
    ensures
        plan matches Ok(GetActorPlan::Running(a)) && *a == addr,
{
}

/// A parked actor is gone: once `actor_parked` saw its stop succeed,
/// `get_or_create_actor` creates it anew (or is refused without a factory).
pub proof fn lemma_parked_actor_is_gone<'a, A, F>(
    before: VirtualActorRegistryActor<A, F>,
    after: VirtualActorRegistryActor<A, F>,
    id: Seq<char>,
    plan: Result<GetActorPlan<'a, A, F>, VirtualActorRegistryError>,
)
    requires
        after.actors() == before.actors().remove(id),
        plan_answer(after, id, plan),
    ensures
        match after.spec_factory() {
            Some(f) => plan matches Ok(GetActorPlan::Create(g)) && *g == f,
            None => plan matches Err(e) && e is FactoryIsNotSet,
        },
{
}

/// The outcome of one stop, from what joining the task that sent the stop
/// request gave: a join failure is a failure; a finished task counts as a
/// stop, whatever the mailbox or the actor answered.
pub fn stop_outcome(
    joined: Result<Result<Result<(), StopRequestError>, String>, String>,
) -> (outcome: Result<(), StopAllError>)
    ensures
        match joined {
            Err(m) => outcome matches Err(StopAllError::JoinError(n)) && n == m,
            Ok(_) => outcome is Ok,
        },
{
    match joined {
        Err(m) => Err(StopAllError::JoinError(m)),
        Ok(_) => Ok(()),
    }
}

/// The outcome of stopping all actors, from the outcome of each stop as
/// `stop_outcome` classifies it: the number of actors stopped when no stop
/// failed, or every failure, in order.
pub fn stop_all_outcome(results: Vec<Result<(), StopAllError>>) -> (outcome: Result<
    usize,
    VirtualActorRegistryError,
>)
    ensures
        (forall|i: int| 0 <= i < results.len() ==> (#[trigger] results[i]) is Ok) ==> outcome
            == Ok::<usize, VirtualActorRegistryError>(results.len()),
        !(forall|i: int| 0 <= i < results.len() ==> (#[trigger] results[i]) is Ok) ==> (
        outcome matches Err(VirtualActorRegistryError::StopAllErrors(errs)) && errs@ == failures(
            results@,
        )),
{
    let ghost all = results@;
    let mut count: usize = 0;
    let mut errors: Vec<StopAllError> = Vec::new();
    let mut rest = results;
    let mut i: usize = 0;
    let n: usize = rest.len();
    while i < n
        invariant
            n == all.len(),
            i <= n,
            rest@ == all.skip(i as int),
            count <= i,
            errors@ == failures(all.take(i as int)),
            (forall|j: int| 0 <= j < i ==> (#[trigger] all[j]) is Ok) ==> count == i
                && errors@.len() == 0,
            !(forall|j: int| 0 <= j < i ==> (#[trigger] all[j]) is Ok) ==> errors@.len() > 0,
        decreases n - i,
    {
        let r = rest.remove(0);
        assert(r == all[i as int]);
        assert(all.take(i + 1).drop_last() =~= all.take(i as int));
        match r {
            Ok(()) => {
                count = count + 1;
            },
            Err(e) => {
                errors.push(e);
            },
        }
        assert(rest@ =~= all.skip(i + 1));
        i = i + 1;
    }
    assert(all.take(n as int) =~= all);
    if errors.len() == 0 {
        Ok(count)
    } else {
        Err(VirtualActorRegistryError::StopAllErrors(errors))
    }
}

/// The failures among `results`, in order.
pub open spec fn failures(results: Seq<Result<(), StopAllError>>) -> Seq<StopAllError>
    decreases results.len(),
{
    if results.len() == 0 {
        Seq::empty()
    } else {
        let init = failures(results.drop_last());
        match results.last() {
            Ok(_) => init,
            Err(e) => init.push(e),
        }
    }
}

} // verus!
