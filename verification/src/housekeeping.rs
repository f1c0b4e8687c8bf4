//! Housekeeping of virtual actors: when each actor was last used, and which
//! actors have been idle long enough to be parked.
//!
//! Times are nanoseconds on one monotonic clock, read by the caller.

use vstd::prelude::*;

use crate::table::StringTable;
use crate::virtual_registry::ParkVirtualActor;

verus! {

/// When an actor was last used.
#[derive(Debug, Clone, Copy)]
pub struct ActorStatistics {
    pub last_used: u64,
}

/// An actor was used at time `now`.
#[derive(Debug)]
pub struct RefreshUsage {
    pub id: String,
}

impl RefreshUsage {
    /// A usage notice for actor `id`.
    pub fn new(id: &str) -> (msg: RefreshUsage)
        ensures
            msg.id@ == id@,
    {
        RefreshUsage { id: id.to_owned() }
    }
}

/// Look for actors idle for at least `lifetime_threshold` nanoseconds.
#[derive(Debug, Clone, Copy)]
pub struct RevisitUsage {
    pub lifetime_threshold: u64,
}

/// How often the idle actors are looked for: every second, in nanoseconds.
pub const REVISIT_INTERVAL: u64 = 1_000_000_000;

/// How long an actor may stay idle before it is parked: twenty seconds, in
/// nanoseconds.
pub const IDLE_LIFETIME: u64 = 20_000_000_000;

impl RevisitUsage {
    /// The request sent every `REVISIT_INTERVAL`: look for actors idle for at
    /// least `IDLE_LIFETIME`.
    pub fn scheduled() -> (msg: RevisitUsage)
        ensures
            msg.lifetime_threshold == IDLE_LIFETIME,
    {
        RevisitUsage { lifetime_threshold: IDLE_LIFETIME }
    }
}

/// Stop tracking actor `id` and have the registry park it.
#[derive(Debug)]
pub struct UnregisterActor {
    pub id: String,
}

impl UnregisterActor {
    /// The request to unregister actor `id`.
    pub fn new(id: &str) -> (msg: UnregisterActor)
        ensures
            msg.id@ == id@,
    {
        UnregisterActor { id: id.to_owned() }
    }
}

/// How long ago `last_used` was, at time `now` (no time when the clock reads
/// earlier).
pub open spec fn elapsed(last_used: u64, now: u64) -> nat {
    if now >= last_used {
        (now - last_used) as nat
    } else {
        0
    }
}

/// Whether an actor last used at `last_used` has been idle for at least
/// `threshold` at time `now`.
pub open spec fn idle_for(last_used: u64, now: u64, threshold: u64) -> bool {
    elapsed(last_used, now) >= threshold
}

/// `listed` is what `revisit_usage` gives for the last uses `usage` at time
/// `now` with threshold `threshold`: every tracked actor idle for at least the
/// threshold, each once, and no other.
pub open spec fn revisit_answer(
    usage: Map<Seq<char>, u64>,
    now: u64,
    threshold: u64,
    listed: Seq<UnregisterActor>,
) -> bool {
    &&& forall|i: int|
        0 <= i < listed.len() ==> usage.dom().contains(#[trigger] listed[i].id@) && idle_for(
            usage[listed[i].id@],
            now,
            threshold,
        )
    &&& forall|k: Seq<char>|
        usage.dom().contains(k) && idle_for(usage[k], now, threshold) ==> exists|i: int|
            0 <= i < listed.len() && #[trigger] listed[i].id@ == k
    &&& forall|i: int, j: int|
        0 <= i < listed.len() && 0 <= j < listed.len() && i != j ==> (#[trigger] listed[i]).id@
            != (#[trigger] listed[j]).id@
}

/// An actor is listed for parking exactly when it has been idle for at least
/// the threshold, however long ago its last use was: an actor last used at
/// `usage[k] <= now` is listed iff `now - usage[k] >= threshold`, and an actor
/// used later than `now` is listed only with a zero threshold.
pub proof fn lemma_revisit_lists_exactly_the_idle(
    usage: Map<Seq<char>, u64>,
    now: u64,
    threshold: u64,
    listed: Seq<UnregisterActor>,
    k: Seq<char>,
)
    requires
        revisit_answer(usage, now, threshold, listed),
        usage.dom().contains(k),
    ensures
        usage[k] <= now ==> ((exists|i: int| 0 <= i < listed.len() && #[trigger] listed[i].id@ == k)
            <==> now - usage[k] >= threshold),
        usage[k] > now ==> ((exists|i: int| 0 <= i < listed.len() && #[trigger] listed[i].id@ == k)
            <==> threshold == 0),
{
    if exists|i: int| 0 <= i < listed.len() && #[trigger] listed[i].id@ == k {
        let i = choose|i: int| 0 <= i < listed.len() && #[trigger] listed[i].id@ == k;
        assert(idle_for(usage[listed[i].id@], now, threshold));
    }
}

/// Idleness only grows with time: an actor listed at `now` is listed at every
/// later time, as long as it is not used again.
pub proof fn lemma_revisit_is_monotone(
    usage: Map<Seq<char>, u64>,
    now: u64,
    later: u64,
    threshold: u64,
    listed: Seq<UnregisterActor>,
    listed_later: Seq<UnregisterActor>,
    k: Seq<char>,
)
    requires
        revisit_answer(usage, now, threshold, listed),
        revisit_answer(usage, later, threshold, listed_later),
        now <= later,
        exists|i: int| 0 <= i < listed.len() && #[trigger] listed[i].id@ == k,
    ensures
        exists|i: int| 0 <= i < listed_later.len() && #[trigger] listed_later[i].id@ == k,
{
    let i = choose|i: int| 0 <= i < listed.len() && #[trigger] listed[i].id@ == k;
    assert(usage.dom().contains(listed[i].id@));
    assert(idle_for(usage[k], later, threshold));
}

/// The last use of each actor the housekeeping tracks.
pub struct HousekeepingActor {
    map: StringTable<ActorStatistics>,
}

impl HousekeepingActor {
    /// When each tracked actor was last used, by actor id.
    pub closed spec fn usage(&self) -> Map<Seq<char>, u64> {
        self.map.map().map_values(|s: ActorStatistics| s.last_used)
    }

    /// Nothing tracked yet.
    pub fn new() -> (h: HousekeepingActor)
        ensures
            h.usage() == Map::<Seq<char>, u64>::empty(),
    {
        let h = HousekeepingActor { map: StringTable::new() };
        assert(h.usage() =~= Map::<Seq<char>, u64>::empty());
        h
    }

    /// Records that actor `msg.id` was used at `now`, starting to track it if
    /// it was not tracked.
    pub fn refresh_usage(&mut self, msg: RefreshUsage, now: u64)
        ensures
            final(self).usage() == old(self).usage().insert(msg.id@, now),
    {
        let _ = self.map.insert(msg.id, ActorStatistics { last_used: now });
        assert(self.usage() =~= old(self).usage().insert(msg.id@, now));
    }

    /// The actors idle for at least `msg.lifetime_threshold` at time `now`,
    /// each to be unregistered once.
    pub fn revisit_usage(&self, msg: RevisitUsage, now: u64) -> (to_unregister: Vec<UnregisterActor>)
        ensures
            revisit_answer(self.usage(), now, msg.lifetime_threshold, to_unregister@),
    {
        let keys = self.map.keys();
        let mut out: Vec<UnregisterActor> = Vec::new();
        let mut i: usize = 0;
        while i < keys.len()
            invariant
                i <= keys.len(),
                forall|a: int| 0 <= a < keys.len() ==> self.map.map().dom().contains(#[trigger] keys[a]@),
                forall|k: Seq<char>|
                    self.map.map().dom().contains(k) ==> exists|a: int|
                        0 <= a < keys.len() && #[trigger] keys[a]@ == k,
                forall|a: int, b: int|
                    0 <= a < keys.len() && 0 <= b < keys.len() && a != b ==> (#[trigger] keys[a])@
                        != (#[trigger] keys[b])@,
                forall|j: int|
                    0 <= j < out.len() ==> exists|a: int|
                        0 <= a < i && #[trigger] keys[a]@ == (#[trigger] out[j]).id@,
                forall|j: int|
                    0 <= j < out.len() ==> self.map.map().dom().contains(#[trigger] out[j].id@)
                        && idle_for(self.map.map()[out[j].id@].last_used, now, msg.lifetime_threshold),
                forall|a: int|
                    0 <= a < i && idle_for(
                        self.map.map()[#[trigger] keys[a]@].last_used,
                        now,
                        msg.lifetime_threshold,
                    ) ==> exists|j: int| 0 <= j < out.len() && (#[trigger] out[j]).id@ == keys[a]@,
                forall|j: int, l: int|
                    0 <= j < out.len() && 0 <= l < out.len() && j != l ==> (#[trigger] out[j]).id@
                        != (#[trigger] out[l]).id@,
            decreases keys.len() - i,
        {
            let key = &keys[i];
            let stat = self.map.get(key.as_str());
            match stat {
                Some(s) => {
                    let idle = if now >= s.last_used {
                        now - s.last_used >= msg.lifetime_threshold
                    } else {
                        0 >= msg.lifetime_threshold
                    };
                    if idle {
                        let ghost before = out@;
                        out.push(UnregisterActor::new(key.as_str()));
                        assert forall|j: int| 0 <= j < out.len() implies exists|a: int|
                            0 <= a < i + 1 && #[trigger] keys[a]@ == (#[trigger] out[j]).id@ by {
                            if j < before.len() {
                                assert(out[j] == before[j]);
                            } else {
                                assert(keys[i as int]@ == out[j].id@);
                            }
                        }
                        assert forall|j: int, l: int|
                            0 <= j < out.len() && 0 <= l < out.len() && j != l implies (
                            #[trigger] out[j]).id@ != (#[trigger] out[l]).id@ by {
                            if j < before.len() && l < before.len() {
                                assert(out[j] == before[j] && out[l] == before[l]);
                            } else if j < before.len() {
                                assert(out[j] == before[j]);
                                let a = choose|a: int| 0 <= a < i && #[trigger] keys[a]@ == before[j].id@;
                                assert(keys[a]@ != keys[i as int]@);
                            } else if l < before.len() {
                                assert(out[l] == before[l]);
                                let a = choose|a: int| 0 <= a < i && #[trigger] keys[a]@ == before[l].id@;
                                assert(keys[a]@ != keys[i as int]@);
                            }
                        }
                        assert forall|a: int|
                            0 <= a < i + 1 && idle_for(
                                self.map.map()[#[trigger] keys[a]@].last_used,
                                now,
                                msg.lifetime_threshold,
                            ) implies exists|j: int| 0 <= j < out.len() && (#[trigger] out[j]).id@ == keys[a]@ by {
                            if a < i {
                                let j = choose|j: int| 0 <= j < before.len() && (#[trigger] before[j]).id@ == keys[a]@;
                                assert(out[j] == before[j]);
                            } else {
                                assert(out[before.len() as int].id@ == keys[a]@);
                            }
                        }
                    }
                },
                None => {},
            }
            i = i + 1;
        }
        proof {
            assert forall|k: Seq<char>|
                self.usage().dom().contains(k) && idle_for(
                    self.usage()[k],
                    now,
                    msg.lifetime_threshold,
                ) implies exists|j: int| 0 <= j < out.len() && #[trigger] out[j].id@ == k by {
                let a = choose|a: int| 0 <= a < keys.len() && #[trigger] keys[a]@ == k;
                assert(idle_for(self.map.map()[keys[a]@].last_used, now, msg.lifetime_threshold));
            }
        }
        out
    }

    /// Stops tracking actor `msg.id`; the registry is to park it.
    pub fn unregister_actor(&mut self, msg: UnregisterActor) -> (park: ParkVirtualActor)
        ensures
            final(self).usage() == old(self).usage().remove(msg.id@),
            park.id@ == msg.id@,
    {
        let _ = self.map.remove(msg.id.as_str());
        assert(self.usage() =~= old(self).usage().remove(msg.id@));
        ParkVirtualActor::new(msg.id.as_str())
    }
}

/// An actor used at `now` is not idle at `now` for any positive threshold, so
/// a revisit right after a use never unregisters it.
pub proof fn lemma_fresh_use_is_not_idle(usage: Map<Seq<char>, u64>, id: Seq<char>, now: u64, threshold: u64)
    requires
        threshold > 0,
    ensures
        !idle_for(usage.insert(id, now)[id], now, threshold),
{
}

} // verus!
