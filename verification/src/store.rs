//! The identity store: the memory of every pseudonym, keyed by its id, with
//! a sweeper that evicts what has been silent for too long.
//!
//! The store is an explicit handle. The caller owns it and threads it
//! through the evaluations; nothing in the library holds one behind its
//! back. Evaluations of one store come one after another.

use vstd::prelude::*;
use crate::context::EvaluationContext;
use crate::evaluator::outcome;
use crate::evaluator::Evaluation;
use crate::evaluator::SecurityEvaluator;
use crate::model::SecurityFlags;
use crate::model::Timestamp;
use crate::model::TrustMetrics;
use crate::model::VehicleId;
use crate::model::VehiclePosition;
use crate::replay::elapsed;
use crate::replay::elapsed_since;
use crate::replay::live;
use crate::replay::view_of;
use crate::replay::IdentityState;
use crate::replay::IdentityStateView;
use crate::traits::MalformedInput;

verus! {

/// The memory of one pseudonym, in its place in the store.
struct Slot {
    id: VehicleId,
    state: IdentityState,
}

/// The memory of every pseudonym that was evaluated and not yet evicted.
pub struct IdentityStore {
    slots: Vec<Slot>,
}

/// Whether no two slots are for the same pseudonym.
spec fn distinct(slots: Seq<Slot>) -> bool {
    forall|i: int, j: int| 0 <= i < j < slots.len() ==> slots[i].id != slots[j].id
}

/// The slots as a map from pseudonym to memory.
spec fn as_map(slots: Seq<Slot>) -> Map<VehicleId, IdentityStateView>
    decreases slots.len(),
{
    if slots.len() == 0 {
        Map::empty()
    } else {
        as_map(slots.drop_last()).insert(slots.last().id, slots.last().state@)
    }
}

/// The memory that a map holds for a pseudonym, if it holds one.
pub open spec fn lookup(
    memories: Map<VehicleId, IdentityStateView>,
    id: VehicleId,
) -> Option<IdentityStateView> {
    if memories.dom().contains(id) {
        Some(memories[id])
    } else {
        None
    }
}

/// Whether a memory was accessed within `ttl` of the instant `now`.
pub open spec fn in_use(memory: IdentityStateView, now: int, ttl: int) -> bool {
    elapsed(now, memory.last_access as int) <= ttl
}

/// What a sweep at the instant `now` leaves of the memories: those that
/// were accessed within `ttl`.
pub open spec fn surviving(
    memories: Map<VehicleId, IdentityStateView>,
    now: int,
    ttl: int,
) -> Map<VehicleId, IdentityStateView> {
    Map::new(
        |id: VehicleId| memories.dom().contains(id) && in_use(memories[id], now, ttl),
        |id: VehicleId| memories[id],
    )
}

/// The map of distinct slots holds exactly their pseudonyms, each with the
/// memory of its slot.
proof fn lemma_as_map(slots: Seq<Slot>)
    requires
        distinct(slots),
    ensures
        forall|id: VehicleId|
            #[trigger] as_map(slots).dom().contains(id) <==> exists|j: int|
                0 <= j < slots.len() && #[trigger] slots[j].id == id,
        forall|j: int|
            0 <= j < slots.len() ==> as_map(slots).dom().contains(#[trigger] slots[j].id)
                && as_map(slots)[slots[j].id] == slots[j].state@,
        as_map(slots).dom().finite(),
        as_map(slots).dom().len() == slots.len(),
    decreases slots.len(),
{
    if slots.len() > 0 {
        let earlier = slots.drop_last();
        let last = slots.last();
        lemma_as_map(earlier);
        assert forall|id: VehicleId| #[trigger]
            as_map(slots).dom().contains(id) <==> exists|j: int|
                0 <= j < slots.len() && #[trigger] slots[j].id == id by {
            if as_map(earlier).dom().contains(id) {
                let j = choose|j: int| 0 <= j < earlier.len() && #[trigger] earlier[j].id == id;
                assert(slots[j].id == id);
            }
            if id == last.id {
                assert(slots[slots.len() - 1].id == id);
            }
            if exists|j: int| 0 <= j < slots.len() && #[trigger] slots[j].id == id {
                let j = choose|j: int| 0 <= j < slots.len() && #[trigger] slots[j].id == id;
                if j < earlier.len() {
                    assert(earlier[j].id == id);
                }
            }
        }
        assert forall|j: int| 0 <= j < slots.len() implies as_map(slots).dom().contains(
            #[trigger] slots[j].id,
        ) && as_map(slots)[slots[j].id] == slots[j].state@ by {
            if j < earlier.len() {
                assert(earlier[j].id == slots[j].id);
                assert(slots[j].id != last.id);
            }
        }
        if as_map(earlier).dom().contains(last.id) {
            let j = choose|j: int| 0 <= j < earlier.len() && #[trigger] earlier[j].id == last.id;
            assert(slots[j].id == slots[slots.len() - 1].id);
        }
    }
}

/// A slot that takes the place of the slot of the same pseudonym.
proof fn lemma_replaced(slots: Seq<Slot>, i: int, slot: Slot)
    requires
        distinct(slots),
        0 <= i < slots.len(),
        slot.id == slots[i].id,
    ensures
        distinct(slots.update(i, slot)),
        as_map(slots.update(i, slot)) == as_map(slots).insert(slot.id, slot.state@),
{
    let after = slots.update(i, slot);
    assert(distinct(after)) by {
        assert forall|a: int, b: int| 0 <= a < b < after.len() implies after[a].id
            != after[b].id by {
            assert(slots[a].id != slots[b].id);
        }
    }
    lemma_as_map(slots);
    lemma_as_map(after);
    let want = as_map(slots).insert(slot.id, slot.state@);
    assert forall|id: VehicleId| as_map(after).dom().contains(id) <==> want.dom().contains(
        id,
    ) by {
        if as_map(after).dom().contains(id) {
            let j = choose|j: int| 0 <= j < after.len() && #[trigger] after[j].id == id;
            assert(slots[j].id == id);
        }
        if as_map(slots).dom().contains(id) {
            let j = choose|j: int| 0 <= j < slots.len() && #[trigger] slots[j].id == id;
            assert(after[j].id == id);
        }
        if id == slot.id {
            assert(after[i].id == id);
        }
    }
    assert forall|id: VehicleId| as_map(after).dom().contains(id) implies as_map(after)[id]
        == want[id] by {
        let j = choose|j: int| 0 <= j < after.len() && #[trigger] after[j].id == id;
        assert(as_map(after)[after[j].id] == after[j].state@);
        if j != i {
            assert(slots[j].id == id);
            assert(slots[j].id != slots[i].id);
            assert(as_map(slots)[slots[j].id] == slots[j].state@);
        }
    }
    assert(as_map(after) =~= want);
}

/// A slot that is taken out, with the last slot moved into its place.
proof fn lemma_taken_out(slots: Seq<Slot>, i: int)
    requires
        distinct(slots),
        0 <= i < slots.len(),
    ensures
        distinct(slots.update(i, slots.last()).drop_last()),
        as_map(slots.update(i, slots.last()).drop_last()) == as_map(slots).remove(slots[i].id),
{
    let after = slots.update(i, slots.last()).drop_last();
    let last = slots.len() - 1;
    assert(distinct(after)) by {
        assert forall|a: int, b: int| 0 <= a < b < after.len() implies after[a].id
            != after[b].id by {
            let from_a = if a == i {
                last
            } else {
                a
            };
            let from_b = if b == i {
                last
            } else {
                b
            };
            assert(after[a].id == slots[from_a].id);
            assert(after[b].id == slots[from_b].id);
            if from_a < from_b {
                assert(slots[from_a].id != slots[from_b].id);
            } else {
                assert(slots[from_b].id != slots[from_a].id);
            }
        }
    }
    lemma_as_map(slots);
    lemma_as_map(after);
    let want = as_map(slots).remove(slots[i].id);
    assert forall|id: VehicleId| as_map(after).dom().contains(id) <==> want.dom().contains(
        id,
    ) by {
        if as_map(after).dom().contains(id) {
            let j = choose|j: int| 0 <= j < after.len() && #[trigger] after[j].id == id;
            let from = if j == i {
                last
            } else {
                j
            };
            assert(slots[from].id == id);
            if from < i {
                assert(slots[from].id != slots[i].id);
            } else {
                assert(slots[i].id != slots[from].id);
            }
        }
        if want.dom().contains(id) {
            let j = choose|j: int| 0 <= j < slots.len() && #[trigger] slots[j].id == id;
            if j == last {
                assert(after[i].id == id);
            } else {
                assert(after[j].id == id);
            }
        }
    }
    assert forall|id: VehicleId| as_map(after).dom().contains(id) implies as_map(after)[id]
        == want[id] by {
        let j = choose|j: int| 0 <= j < after.len() && #[trigger] after[j].id == id;
        let from = if j == i {
            last
        } else {
            j
        };
        assert(as_map(after)[after[j].id] == after[j].state@);
        assert(slots[from].id == id);
        assert(as_map(slots)[slots[from].id] == slots[from].state@);
    }
    assert(as_map(after) =~= want);
}

impl View for IdentityStore {
    type V = Map<VehicleId, IdentityStateView>;

    /// The store as a map from pseudonym to memory.
    closed spec fn view(&self) -> Map<VehicleId, IdentityStateView> {
        as_map(self.slots@)
    }
}

/// Finds the slot of a pseudonym.
fn find(slots: &Vec<Slot>, id: VehicleId) -> (place: Option<usize>)
    requires
        distinct(slots@),
    ensures
        match place {
            Some(i) => i < slots@.len() && slots@[i as int].id == id && as_map(
                slots@,
            ).dom().contains(id) && as_map(slots@)[id] == slots@[i as int].state@,
            None => !as_map(slots@).dom().contains(id),
        },
{
    proof {
        lemma_as_map(slots@);
    }
    let mut i: usize = 0;
    while i < slots.len()
        invariant
            i <= slots@.len(),
            forall|j: int| 0 <= j < i ==> slots@[j].id != id,
            as_map(slots@).dom().contains(id) ==> exists|j: int|
                0 <= j < slots@.len() && #[trigger] slots@[j].id == id,
            forall|j: int|
                0 <= j < slots@.len() ==> as_map(slots@).dom().contains(#[trigger] slots@[j].id)
                    && as_map(slots@)[slots@[j].id] == slots@[j].state@,
        decreases slots@.len() - i,
    {
        if slots[i].id == id {
            return Some(i);
        }
        i = i + 1;
    }
    None
}

/// Puts a memory into the slot of its pseudonym, or into a new slot.
fn put(slots: &mut Vec<Slot>, id: VehicleId, state: IdentityState)
    requires
        distinct(old(slots)@),
    ensures
        distinct(final(slots)@),
        as_map(final(slots)@) == as_map(old(slots)@).insert(id, state@),
{
    proof {
        lemma_as_map(slots@);
    }
    let place = find(slots, id);
    let slot = Slot { id, state };
    match place {
        Some(i) => {
            proof {
                lemma_replaced(slots@, i as int, slot);
            }
            slots.set(i, slot);
        },
        None => {
            assert(slots@.push(slot).drop_last() == slots@);
            assert(distinct(slots@.push(slot)));
            slots.push(slot);
        },
    }
}

/// Takes the memory of a pseudonym out of its slot.
fn take_out(slots: &mut Vec<Slot>, id: VehicleId) -> (state: Option<IdentityState>)
    requires
        distinct(old(slots)@),
    ensures
        distinct(final(slots)@),
        as_map(final(slots)@) == as_map(old(slots)@).remove(id),
        match state {
            Some(memory) => lookup(as_map(old(slots)@), id) == Some(memory@),
            None => lookup(as_map(old(slots)@), id) is None,
        },
{
    match find(slots, id) {
        Some(i) => {
            proof {
                lemma_taken_out(slots@, i as int);
            }
            let slot = slots.swap_remove(i);
            Some(slot.state)
        },
        None => {
            assert(as_map(slots@).remove(id) =~= as_map(slots@));
            None
        },
    }
}

/// Takes out every slot whose memory was not accessed within `ttl_ms` of
/// the instant `now`.
fn evict(slots: &mut Vec<Slot>, now: Timestamp, ttl_ms: u64) -> (evicted: usize)
    requires
        distinct(old(slots)@),
    ensures
        distinct(final(slots)@),
        as_map(final(slots)@) == surviving(as_map(old(slots)@), now as int, ttl_ms as int),
        evicted == old(slots)@.len() - final(slots)@.len(),
{
    let ghost before = as_map(slots@);
    let count = slots.len();
    let mut evicted: usize = 0;
    let mut i: usize = 0;
    while i < slots.len()
        invariant
            distinct(slots@),
            i <= slots@.len(),
            forall|j: int|
                0 <= j < i ==> in_use((#[trigger] slots@[j]).state@, now as int, ttl_ms as int),
            surviving(as_map(slots@), now as int, ttl_ms as int) == surviving(
                before,
                now as int,
                ttl_ms as int,
            ),
            evicted + slots@.len() == count,
        decreases slots@.len() - i,
    {
        if elapsed_since(now, slots[i].state.last_access) > ttl_ms {
            proof {
                lemma_as_map(slots@);
                lemma_taken_out(slots@, i as int);
                let gone = slots@[i as int].id;
                assert(as_map(slots@)[gone] == slots@[i as int].state@);
                assert(surviving(as_map(slots@).remove(gone), now as int, ttl_ms as int)
                    =~= surviving(as_map(slots@), now as int, ttl_ms as int));
            }
            slots.swap_remove(i);
            evicted = evicted + 1;
        } else {
            i = i + 1;
        }
    }
    proof {
        lemma_as_map(slots@);
        assert forall|id: VehicleId| as_map(slots@).dom().contains(id) implies in_use(
            as_map(slots@)[id],
            now as int,
            ttl_ms as int,
        ) by {
            let j = choose|j: int| 0 <= j < slots@.len() && #[trigger] slots@[j].id == id;
            assert(as_map(slots@)[slots@[j].id] == slots@[j].state@);
        }
        assert(surviving(as_map(slots@), now as int, ttl_ms as int) =~= as_map(slots@));
    }
    evicted
}

impl IdentityStore {
    #[verifier::type_invariant]
    spec fn well_formed(self) -> bool {
        distinct(self.slots@)
    }

    /// Makes a store without any memory.
    pub fn new() -> (store: IdentityStore)
        ensures
            store@ == Map::<VehicleId, IdentityStateView>::empty(),
    {
        IdentityStore { slots: Vec::new() }
    }

    /// Counts the pseudonyms that the store remembers.
    pub fn len(&self) -> (n: usize)
        ensures
            self@.dom().finite(),
            n == self@.dom().len(),
    {
        proof {
            use_type_invariant(self);
            lemma_as_map(self.slots@);
        }
        self.slots.len()
    }

    /// Looks up the memory of a pseudonym.
    pub fn get(&self, id: VehicleId) -> (state: Option<&IdentityState>)
        ensures
            view_of(state) == lookup(self@, id),
    {
        proof {
            use_type_invariant(self);
        }
        match find(&self.slots, id) {
            Some(i) => Some(&self.slots[i].state),
            None => None,
        }
    }

    /// Sets the memory of a pseudonym, in place of the one it had.
    pub fn insert(&mut self, id: VehicleId, state: IdentityState)
        ensures
            final(self)@ == old(self)@.insert(id, state@),
    {
        proof {
            use_type_invariant(&*self);
        }
        let mut slots: Vec<Slot> = Vec::new();
        std::mem::swap(&mut slots, &mut self.slots);
        put(&mut slots, id, state);
        self.slots = slots;
    }

    /// Forgets a pseudonym, and hands back the memory it had.
    pub fn remove(&mut self, id: VehicleId) -> (state: Option<IdentityState>)
        ensures
            final(self)@ == old(self)@.remove(id),
            match state {
                Some(memory) => lookup(old(self)@, id) == Some(memory@),
                None => lookup(old(self)@, id) is None,
            },
    {
        proof {
            use_type_invariant(&*self);
        }
        let mut slots: Vec<Slot> = Vec::new();
        std::mem::swap(&mut slots, &mut self.slots);
        let state = take_out(&mut slots, id);
        self.slots = slots;
        state
    }

    /// Evicts every memory that was not accessed within `ttl_ms` of the
    /// instant `now`, and tells how many it evicted.
    pub fn sweep(&mut self, now: Timestamp, ttl_ms: u64) -> (evicted: usize)
        ensures
            final(self)@ == surviving(old(self)@, now as int, ttl_ms as int),
            old(self)@.dom().finite(),
            final(self)@.dom().finite(),
            evicted == old(self)@.dom().len() - final(self)@.dom().len(),
    {
        proof {
            use_type_invariant(&*self);
            lemma_as_map(self.slots@);
        }
        let mut slots: Vec<Slot> = Vec::new();
        std::mem::swap(&mut slots, &mut self.slots);
        let evicted = evict(&mut slots, now, ttl_ms);
        proof {
            lemma_as_map(slots@);
        }
        self.slots = slots;
        evicted
    }

    /// Evaluates a report against the memory of its pseudonym, and
    /// remembers what follows. A malformed report is turned away and leaves
    /// the store as it was.
    pub fn evaluate(
        &mut self,
        evaluator: &SecurityEvaluator,
        report: &VehiclePosition,
        context: &EvaluationContext,
    ) -> (r: Result<(SecurityFlags, TrustMetrics), MalformedInput>)
        ensures
            match r {
                Ok((flags, metrics)) => {
                    let evaluation = outcome(
                        evaluator.policy(),
                        *report,
                        lookup(old(self)@, report.vehicle_id),
                        *context,
                    );
                    &&& report.malformation() is None
                    &&& flags@ == evaluation.flags
                    &&& metrics@ == evaluation.metrics
                    &&& final(self)@ == old(self)@.insert(report.vehicle_id, evaluation.state)
                },
                Err(defect) => report.malformation() == Some(defect) && final(self)@ == old(
                    self,
                )@,
            },
    {
        let evaluated = evaluator.evaluate(report, self.get(report.vehicle_id), context);
        match evaluated {
            Err(defect) => Err(defect),
            Ok(evaluation) => {
                let Evaluation { flags, metrics, state } = evaluation;
                self.insert(report.vehicle_id, state);
                Ok((flags, metrics))
            },
        }
    }
}

/// A sweep that evicts nothing younger than the rotation interval changes
/// no evaluation: what it evicts is stale, and would have been met as
/// unseen anyway.
pub proof fn lemma_sweep_keeps_what_counts(
    memories: Map<VehicleId, IdentityStateView>,
    id: VehicleId,
    swept_at: int,
    ttl: int,
    now: int,
    rotation_interval: int,
)
    requires
        ttl >= rotation_interval,
        now >= swept_at,
    ensures
        live(lookup(surviving(memories, swept_at, ttl), id), now, rotation_interval) == live(
            lookup(memories, id),
            now,
            rotation_interval,
        ),
{
}

} // verus!
