//! The in-flight migration and the results of recent ones.
//!
//! One migration runs at a time: a second submission is refused rather than queued behind the
//! first. Finished migrations stay collectable until `RETAINED_RESULTS` newer ones have
//! finished; each pins a whole PCP in memory, so this is a memory bound as much as a
//! retention policy.

use std::collections::{HashMap, VecDeque};

use vstd::prelude::*;

use crate::enclave_types;
use crate::ids;

verus! {

broadcast use vstd::std_specs::hash::group_hash_axioms;

/// How many finished migrations stay collectable before the oldest is dropped.
pub const RETAINED_RESULTS: usize = 4;

/// Why a migration did not produce a PCP.
#[derive(Debug, Clone, PartialEq, Eq)]
pub enum Failure {
    /// The enclave could not be reached.
    EnclaveUnreachable(String),
    /// The enclave did not answer within the deadline.
    EnclaveTimeout,
    /// The enclave answered with an error.
    EnclaveRejected(enclave_types::Error),
    /// The migration stopped without recording an outcome.
    Abandoned,
}

/// A `Failure` by the values it holds.
pub enum FailureView {
    EnclaveUnreachable(Seq<char>),
    EnclaveTimeout,
    EnclaveRejected(enclave_types::Error),
    Abandoned,
}

impl View for Failure {
    type V = FailureView;

    open spec fn view(&self) -> FailureView {
        match self {
            Failure::EnclaveUnreachable(detail) => FailureView::EnclaveUnreachable(detail@),
            Failure::EnclaveTimeout => FailureView::EnclaveTimeout,
            Failure::EnclaveRejected(operation) => FailureView::EnclaveRejected(*operation),
            Failure::Abandoned => FailureView::Abandoned,
        }
    }
}

impl Failure {
    /// A copy of this failure.
    pub fn duplicate(&self) -> (r: Failure)
        ensures
            r@ == self@,
    {
        match self {
            Failure::EnclaveUnreachable(detail) => Failure::EnclaveUnreachable(detail.clone()),
            Failure::EnclaveTimeout => Failure::EnclaveTimeout,
            Failure::EnclaveRejected(operation) => Failure::EnclaveRejected(*operation),
            Failure::Abandoned => Failure::Abandoned,
        }
    }
}

/// Where a migration has got to.
#[derive(Debug, Clone, PartialEq, Eq)]
pub enum State {
    /// Still running.
    Running,
    /// Finished; the migrated PCP is ready.
    Succeeded(Vec<u8>),
    /// Finished without a PCP.
    Failed(Failure),
}

/// A `State` by the values it holds.
pub enum StateView {
    Running,
    Succeeded(Seq<u8>),
    Failed(FailureView),
}

impl View for State {
    type V = StateView;

    open spec fn view(&self) -> StateView {
        match self {
            State::Running => StateView::Running,
            State::Succeeded(pcp) => StateView::Succeeded(pcp@),
            State::Failed(failure) => StateView::Failed(failure@),
        }
    }
}

impl State {
    /// A copy of this state.
    pub fn duplicate(&self) -> (r: State)
        ensures
            r@ == self@,
    {
        match self {
            State::Running => State::Running,
            State::Succeeded(pcp) => State::Succeeded(pcp.clone()),
            State::Failed(failure) => State::Failed(failure.duplicate()),
        }
    }
}

/// The slot and the recent results, by their values.
pub struct StoreView {
    /// The migration holding the slot, if any.
    pub running: Option<u128>,
    /// Where each known migration has got to.
    pub states: Map<u128, StateView>,
    /// Finished migrations, oldest first.
    pub finished: Seq<u128>,
}

/// `finished` with `id` appended and the oldest dropped until at most `RETAINED_RESULTS` remain.
pub open spec fn retained(finished: Seq<u128>, id: u128) -> Seq<u128> {
    let all = finished.push(id);
    if all.len() > RETAINED_RESULTS {
        all.skip(all.len() - RETAINED_RESULTS)
    } else {
        all
    }
}

/// The ids that settling `id` pushes out of the retention window.
pub open spec fn evicted(finished: Seq<u128>, id: u128) -> Seq<u128> {
    let all = finished.push(id);
    if all.len() > RETAINED_RESULTS {
        all.take(all.len() - RETAINED_RESULTS)
    } else {
        Seq::empty()
    }
}

/// The store after `id` settles in `state`: its state is recorded, it joins the finished ones,
/// it frees the slot if it held it, and results pushed out of the window are forgotten.
pub open spec fn settled(v: StoreView, id: u128, state: StateView) -> StoreView {
    StoreView {
        running: if v.running == Some(id) { None } else { v.running },
        states: v.states.insert(id, state).remove_keys(evicted(v.finished, id).to_set()),
        finished: retained(v.finished, id),
    }
}

/// What every store keeps: at most `RETAINED_RESULTS` finished ids, and a state only for the
/// migration holding the slot and for the finished ones.
pub open spec fn well_formed(v: StoreView) -> bool {
    &&& v.finished.len() <= RETAINED_RESULTS
    &&& forall|k: u128| #[trigger] v.states.contains_key(k) ==> v.running == Some(k) || v.finished.contains(k)
}

/// `settled` drops at most the oldest finished id from a well-formed store.
proof fn lemma_settled_shape(v: StoreView, id: u128, state: StateView)
    requires
        well_formed(v),
    ensures
        ({
            let all = v.finished.push(id);
            let inserted = v.states.insert(id, state);
            let after = settled(v, id, state);
            if all.len() > RETAINED_RESULTS {
                after.finished =~= all.skip(1) && after.states =~= inserted.remove(all[0])
            } else {
                after.finished =~= all && after.states =~= inserted
            }
        }),
{
    let all = v.finished.push(id);
    let inserted = v.states.insert(id, state);
    if all.len() > RETAINED_RESULTS {
        assert(all.take(1) =~= seq![all[0]]);
        assert(seq![all[0]].to_set() =~= set![all[0]]) by {
            assert(seq![all[0]][0] == all[0]);
        }
        assert(inserted.remove_keys(set![all[0]]) =~= inserted.remove(all[0]));
    } else {
        assert(Seq::<u128>::empty().to_set() =~= Set::<u128>::empty());
        assert(inserted.remove_keys(Set::<u128>::empty()) =~= inserted);
    }
}

/// Settling keeps a store well formed.
proof fn lemma_settled_keeps_well_formed(v: StoreView, id: u128, state: StateView)
    requires
        well_formed(v),
    ensures
        well_formed(settled(v, id, state)),
{
    lemma_settled_shape(v, id, state);
    let all = v.finished.push(id);
    let after = settled(v, id, state);
    assert forall|k: u128| #[trigger] after.states.contains_key(k) implies after.running == Some(k)
        || after.finished.contains(k) by {
        if k == id {
            assert(after.finished[after.finished.len() - 1] == id);
        } else {
            assert(v.states.contains_key(k));
            if v.running != Some(k) {
                let i = choose|i: int| 0 <= i < v.finished.len() && v.finished[i] == k;
                assert(all[i] == k);
                if after.finished == all {
                    assert(after.finished[i] == k);
                } else {
                    assert(i != 0);
                    assert(after.finished[i - 1] == k);
                }
            }
        }
    }
}

/// The store after `id` claims the free slot.
pub open spec fn claimed(v: StoreView, id: u128) -> StoreView {
    StoreView { running: Some(id), states: v.states.insert(id, StateView::Running), finished: v.finished }
}

/// The single migration slot and the recent results.
#[derive(Debug)]
pub struct Store {
    running: Option<u128>,
    states: HashMap<u128, State>,
    finished: VecDeque<u128>,
}

impl View for Store {
    type V = StoreView;

    closed spec fn view(&self) -> StoreView {
        StoreView {
            running: self.running,
            states: self.states@.map_values(|s: State| s@),
            finished: self.finished@,
        }
    }
}

impl Store {
    /// The store is well formed.
    pub closed spec fn wf(&self) -> bool {
        well_formed(self@)
    }

    /// Creates an empty store.
    pub fn new() -> (r: Store)
        ensures
            r.wf(),
            r@.running is None,
            r@.states == Map::<u128, StateView>::empty(),
            r@.finished == Seq::<u128>::empty(),
    {
        let r = Store { running: None, states: HashMap::new(), finished: VecDeque::new() };
        assert(r@.states =~= Map::<u128, StateView>::empty());
        r
    }

    /// Claims the migration slot for a fresh random id, returning the claim.
    ///
    /// Returns `None` when a migration is already running.
    pub fn start(&mut self) -> (r: Option<Slot>)
        requires
            old(self).wf(),
        ensures
            final(self).wf(),
            r is None <==> old(self)@.running is Some,
            r is None ==> final(self)@ == old(self)@,
            r matches Some(slot) ==> final(self)@ == claimed(old(self)@, slot.spec_id()),
    {
        if self.running.is_some() {
            return None;
        }
        let id = ids::fresh_id();
        self.start_with(id)
    }

    /// Claims the migration slot for `id`, returning the claim.
    ///
    /// Returns `None` when a migration is already running.
    pub fn start_with(&mut self, id: u128) -> (r: Option<Slot>)
        requires
            old(self).wf(),
        ensures
            final(self).wf(),
            r is None <==> old(self)@.running is Some,
            r is None ==> final(self)@ == old(self)@,
            r matches Some(slot) ==> slot.spec_id() == id && final(self)@ == claimed(old(self)@, id),
    {
        if self.running.is_some() {
            return None;
        }
        let ghost before = self@;
        self.running = Some(id);
        self.states.insert(id, State::Running);
        assert(self@.states =~= before.states.insert(id, StateView::Running));
        Some(Slot { id })
    }

    /// Returns where `id` has got to, or `None` when it is unknown or has aged out.
    pub fn state(&self, id: u128) -> (r: Option<State>)
        requires
            self.wf(),
        ensures
            r is Some <==> self@.states.contains_key(id),
            r matches Some(state) ==> state@ == self@.states[id],
    {
        match self.states.get(&id) {
            Some(state) => Some(state.duplicate()),
            None => None,
        }
    }

    /// Records where `id` ended, frees the slot if `id` held it, and forgets the results that
    /// fall out of the retention window.
    fn settle(&mut self, id: u128, state: State)
        requires
            old(self).wf(),
        ensures
            final(self).wf(),
            final(self)@ == settled(old(self)@, id, state@),
    {
        let ghost before = self@;
        let ghost all = before.finished.push(id);
        let ghost inserted = before.states.insert(id, state@);
        self.states.insert(id, state);
        self.finished.push_back(id);
        if let Some(running) = self.running {
            if running == id {
                self.running = None;
            }
        }
        assert(self@.states =~= inserted);
        while self.finished.len() > RETAINED_RESULTS
            invariant
                all.len() <= RETAINED_RESULTS + 1,
                self.running == (if before.running == Some(id) { None } else { before.running }),
                self@.finished == all && self@.states == inserted
                    || all.len() > RETAINED_RESULTS && self@.finished == all.drop_first()
                        && self@.states == inserted.remove(all[0]),
            decreases self.finished.len(),
        {
            if let Some(oldest) = self.finished.pop_front() {
                self.states.remove(&oldest);
                assert(self@.states =~= inserted.remove(all[0]));
            }
        }
        proof {
            let after = self@;
            if all.len() > RETAINED_RESULTS {
                assert(after.finished =~= all.skip(1));
            }
            lemma_settled_shape(before, id, state@);
            lemma_settled_keeps_well_formed(before, id, state@);
        }
    }
}

/// A claim on the migration slot, to be settled exactly once.
#[derive(Debug)]
pub struct Slot {
    id: u128,
}

impl Slot {
    /// The id of the migration this slot runs.
    pub closed spec fn spec_id(&self) -> u128 {
        self.id
    }

    /// The id clients poll for this migration.
    pub fn id(&self) -> (r: u128)
        ensures
            r == self.spec_id(),
    {
        self.id
    }

    /// Records the migrated PCP and releases the slot.
    pub fn succeed(self, store: &mut Store, pcp: Vec<u8>)
        requires
            old(store).wf(),
        ensures
            final(store).wf(),
            final(store)@ == settled(old(store)@, self.spec_id(), StateView::Succeeded(pcp@)),
    {
        store.settle(self.id, State::Succeeded(pcp));
    }

    /// Records a failure and releases the slot.
    pub fn fail(self, store: &mut Store, failure: Failure)
        requires
            old(store).wf(),
        ensures
            final(store).wf(),
            final(store)@ == settled(old(store)@, self.spec_id(), StateView::Failed(failure@)),
    {
        store.settle(self.id, State::Failed(failure));
    }

    /// Records that the migration stopped without an outcome, and releases the slot; what a
    /// claim that is dropped unsettled amounts to.
    pub fn abandon(self, store: &mut Store)
        requires
            old(store).wf(),
        ensures
            final(store).wf(),
            final(store)@ == settled(old(store)@, self.spec_id(), StateView::Failed(FailureView::Abandoned)),
    {
        store.settle(self.id, State::Failed(Failure::Abandoned));
    }
}

} // verus!

verus! {

/// The last `RETAINED_RESULTS` ids of `ids` (all of them when there are fewer).
pub open spec fn window(ids: Seq<u128>) -> Seq<u128> {
    if ids.len() > RETAINED_RESULTS {
        ids.skip(ids.len() - RETAINED_RESULTS)
    } else {
        ids
    }
}

/// The store after `ids` settle one after the other, `ids[i]` in `states[i]`.
pub open spec fn settle_each(v: StoreView, ids: Seq<u128>, states: Seq<StateView>) -> StoreView
    decreases ids.len(),
{
    if ids.len() == 0 {
        v
    } else {
        settled(settle_each(v, ids.drop_last(), states), ids.last(), states[ids.len() - 1])
    }
}

/// Induction over `settle_each`: the finished ids form the window over everything that ever
/// finished, the slot is freed once its holder settles, and each of the last
/// `RETAINED_RESULTS` ids keeps the state it settled in.
proof fn lemma_settle_each(v: StoreView, ids: Seq<u128>, states: Seq<StateView>)
    requires
        well_formed(v),
        ids.no_duplicates(),
        forall|i: int| 0 <= i < ids.len() ==> !v.finished.contains(#[trigger] ids[i]),
        states.len() == ids.len(),
    ensures
        ({
            let w = settle_each(v, ids, states);
            &&& well_formed(w)
            &&& w.finished =~= window(v.finished + ids)
            &&& w.running == (if exists|j: int| 0 <= j < ids.len() && v.running == Some(#[trigger] ids[j]) {
                None
            } else {
                v.running
            })
            &&& forall|i: int|
                0 <= i < ids.len() && i + RETAINED_RESULTS >= ids.len() ==> #[trigger] w.states.contains_key(ids[i])
                    && w.states[ids[i]] == states[i]
        }),
    decreases ids.len(),
{
    if ids.len() == 0 {
        assert(v.finished + ids =~= v.finished);
    } else {
        let k = (ids.len() - 1) as int;
        let prev_ids = ids.drop_last();
        let x = ids.last();
        let s = states[k];
        assert(prev_ids.no_duplicates());
        assert forall|i: int| 0 <= i < prev_ids.len() implies !v.finished.contains(#[trigger] prev_ids[i]) by {
            assert(prev_ids[i] == ids[i]);
        }
        lemma_settle_each(v, prev_ids, states.drop_last());
        let w = settle_each(v, prev_ids, states.drop_last());
        assert(settle_each(v, prev_ids, states) == settle_each(v, prev_ids, states.drop_last())) by {
            lemma_settle_each_prefix_states(v, prev_ids, states, states.drop_last());
        }
        let after = settled(w, x, s);
        assert(settle_each(v, ids, states) == after);
        lemma_settled_shape(w, x, s);
        lemma_settled_keeps_well_formed(w, x, s);
        let big = v.finished + ids;
        let small = v.finished + prev_ids;
        assert(big =~= small.push(x));
        let f = v.finished.len() as int;
        // the finished ids
        if small.len() > RETAINED_RESULTS {
            assert(w.finished.push(x).skip(1) =~= big.skip(big.len() - RETAINED_RESULTS));
        } else if big.len() > RETAINED_RESULTS {
            assert(w.finished.push(x).skip(1) =~= big.skip(big.len() - RETAINED_RESULTS));
        } else {
            assert(w.finished.push(x) =~= big);
        }
        // the slot
        if exists|j: int| 0 <= j < prev_ids.len() && v.running == Some(#[trigger] prev_ids[j]) {
            let j = choose|j: int| 0 <= j < prev_ids.len() && v.running == Some(#[trigger] prev_ids[j]);
            assert(ids[j] == prev_ids[j]);
        } else if v.running == Some(x) {
            assert(ids[k] == x);
        } else {
            assert forall|j: int| 0 <= j < ids.len() implies v.running != Some(#[trigger] ids[j]) by {
                if j < k {
                    assert(ids[j] == prev_ids[j]);
                }
            }
        }
        // the recent states
        assert forall|i: int| 0 <= i < ids.len() && i + RETAINED_RESULTS >= ids.len() implies
            #[trigger] after.states.contains_key(ids[i]) && after.states[ids[i]] == states[i] by {
            let all = w.finished.push(x);
            if i == k {
                if all.len() > RETAINED_RESULTS {
                    // the oldest retained id is not `x`
                    let p = small.len() - RETAINED_RESULTS;
                    assert(w.finished[0] == small[p]);
                    if p < f {
                        assert(v.finished[p] == small[p]);
                    } else {
                        assert(small[p] == ids[p - f]);
                    }
                    assert(all[0] == w.finished[0]);
                }
            } else {
                assert(prev_ids[i] == ids[i]);
                assert(w.states.contains_key(ids[i]));
                assert(ids[i] != x);
                if all.len() > RETAINED_RESULTS {
                    let p = small.len() - RETAINED_RESULTS;
                    assert(w.finished[0] == small[p]);
                    assert(all[0] == w.finished[0]);
                    if p < f {
                        assert(v.finished[p] == small[p]);
                        assert(all[0] != ids[i]);
                    } else {
                        assert(small[p] == ids[p - f]);
                        assert(p - f != i);
                        assert(all[0] != ids[i]);
                    }
                }
            }
        }
    }
}

/// `settle_each` reads only the first `ids.len()` states.
proof fn lemma_settle_each_prefix_states(v: StoreView, ids: Seq<u128>, states: Seq<StateView>, shorter: Seq<StateView>)
    requires
        shorter.len() >= ids.len(),
        states.len() >= ids.len(),
        forall|i: int| 0 <= i < ids.len() ==> states[i] == shorter[i],
    ensures
        settle_each(v, ids, states) == settle_each(v, ids, shorter),
    decreases ids.len(),
{
    if ids.len() > 0 {
        lemma_settle_each_prefix_states(v, ids.drop_last(), states, shorter);
    }
}

/// A migration that settles is collectable at once: the store records the state it settled
/// in, provided its id is not already among the finished ones.
pub proof fn law_a_finished_migration_is_collectable(v: StoreView, id: u128, state: StateView)
    requires
        well_formed(v),
        !v.finished.contains(id),
    ensures
        settled(v, id, state).states.contains_key(id),
        settled(v, id, state).states[id] == state,
{
    lemma_settle_each_single(v, id, state);
}

/// Settling the migration that holds the slot frees the slot for the next one.
pub proof fn law_settling_frees_the_slot(v: StoreView, id: u128, state: StateView)
    requires
        v.running == Some(id),
    ensures
        settled(v, id, state).running is None,
{
}

/// One migration at a time: once a claim has taken the slot, the store has a running
/// migration, so every further claim (`start`, `start_with`) is refused, until the claim
/// settles and frees the slot again.
pub proof fn law_one_migration_at_a_time(v: StoreView, id: u128, state: StateView)
    ensures
        claimed(v, id).running is Some,
        claimed(v, id).states[id] == StateView::Running,
        settled(claimed(v, id), id, state).running is None,
{
}

/// Claiming the slot touches nothing but the claimed id: the finished migrations stay as they
/// were, in order, every other known migration keeps its state and no unknown one appears, and
/// the claimed id is running and holds the slot. Only settling pushes results out.
pub proof fn law_claiming_the_slot_keeps_every_other_result(v: StoreView, id: u128)
    ensures
        claimed(v, id).finished == v.finished,
        claimed(v, id).running == Some(id),
        claimed(v, id).states.contains_key(id),
        claimed(v, id).states[id] == StateView::Running,
        forall|k: u128| k != id ==> (#[trigger] claimed(v, id).states.contains_key(k) <==> v.states.contains_key(k)),
        forall|k: u128| k != id && v.states.contains_key(k) ==> #[trigger] claimed(v, id).states[k] == v.states[k],
{
}

/// The store after a migration claims the free slot for `id` and then settles in `state`; a
/// claim dropped unsettled settles in `Failed(Abandoned)`.
pub open spec fn claim_and_settle(v: StoreView, id: u128, state: StateView) -> StoreView {
    settled(claimed(v, id), id, state)
}

/// The store after the migrations of `runs` have, one after the other, each claimed the slot
/// for its id and settled in its state.
pub open spec fn claim_and_settle_each(v: StoreView, runs: Seq<(u128, StateView)>) -> StoreView
    decreases runs.len(),
{
    if runs.len() == 0 {
        v
    } else {
        claim_and_settle(claim_and_settle_each(v, runs.drop_last()), runs.last().0, runs.last().1)
    }
}

/// Claiming the free slot keeps a store well formed.
proof fn lemma_claimed_keeps_well_formed(v: StoreView, id: u128)
    requires
        well_formed(v),
        v.running is None,
    ensures
        well_formed(claimed(v, id)),
{
}

/// A claimed migration ends in the state it is settled in, and frees the slot: a failure is
/// recorded as that failure, a success as its PCP, a dropped claim as `Abandoned`. Its id must
/// not already be among the finished ones.
pub proof fn law_a_claim_ends_in_the_state_it_settles_in(v: StoreView, id: u128, state: StateView)
    requires
        well_formed(v),
        v.running is None,
        !v.finished.contains(id),
    ensures
        well_formed(claim_and_settle(v, id, state)),
        claim_and_settle(v, id, state).running is None,
        claim_and_settle(v, id, state).states.contains_key(id),
        claim_and_settle(v, id, state).states[id] == state,
{
    lemma_claimed_keeps_well_formed(v, id);
    lemma_settled_keeps_well_formed(claimed(v, id), id, state);
    lemma_settle_each_single(claimed(v, id), id, state);
}

/// A claim dropped without being settled fails as `Abandoned` and frees the slot, so the next
/// claim is accepted. Its id must not already be among the finished ones.
pub proof fn law_a_dropped_claim_is_abandoned_and_frees_the_slot(v: StoreView, id: u128)
    requires
        well_formed(v),
        v.running == Some(id),
        !v.finished.contains(id),
    ensures
        well_formed(settled(v, id, StateView::Failed(FailureView::Abandoned))),
        settled(v, id, StateView::Failed(FailureView::Abandoned)).running is None,
        settled(v, id, StateView::Failed(FailureView::Abandoned)).states.contains_key(id),
        settled(v, id, StateView::Failed(FailureView::Abandoned)).states[id] == StateView::Failed(
            FailureView::Abandoned,
        ),
{
    lemma_settled_keeps_well_formed(v, id, StateView::Failed(FailureView::Abandoned));
    lemma_settle_each_single(v, id, StateView::Failed(FailureView::Abandoned));
}

/// The slot is free whenever no claim is outstanding: after any number of migrations have each
/// claimed the slot and then settled, succeeded, failed or been dropped, the store is well formed
/// and its slot is free, so the next claim is accepted; that claim then holds the slot, so every
/// claim after it is refused until it settles.
pub proof fn law_the_slot_is_free_once_every_claim_has_settled(
    v: StoreView,
    runs: Seq<(u128, StateView)>,
    next: u128,
)
    requires
        well_formed(v),
        v.running is None,
    ensures
        well_formed(claim_and_settle_each(v, runs)),
        claim_and_settle_each(v, runs).running is None,
        claimed(claim_and_settle_each(v, runs), next).running == Some(next),
    decreases runs.len(),
{
    if runs.len() > 0 {
        law_the_slot_is_free_once_every_claim_has_settled(v, runs.drop_last(), next);
        let w = claim_and_settle_each(v, runs.drop_last());
        lemma_claimed_keeps_well_formed(w, runs.last().0);
        lemma_settled_keeps_well_formed(claimed(w, runs.last().0), runs.last().0, runs.last().1);
    }
}

/// Results age out: after fresh, distinct ids settle one after the other, only the last
/// `RETAINED_RESULTS` of them are still known, each in the state it settled in; every earlier
/// one is unknown.
pub proof fn law_results_age_out(v: StoreView, ids: Seq<u128>, states: Seq<StateView>)
    requires
        well_formed(v),
        ids.no_duplicates(),
        forall|i: int| 0 <= i < ids.len() ==> !v.finished.contains(#[trigger] ids[i]),
        states.len() == ids.len(),
    ensures
        forall|i: int| 0 <= i < ids.len() && i + RETAINED_RESULTS >= ids.len()
            ==> #[trigger] settle_each(v, ids, states).states.contains_key(ids[i])
                && settle_each(v, ids, states).states[ids[i]] == states[i],
        forall|i: int| 0 <= i < ids.len() && i + RETAINED_RESULTS < ids.len()
            ==> !(#[trigger] settle_each(v, ids, states).states.contains_key(ids[i])),
{
    lemma_settle_each(v, ids, states);
    let w = settle_each(v, ids, states);
    let all = v.finished + ids;
    let f = v.finished.len() as int;
    assert forall|i: int| 0 <= i < ids.len() && i + RETAINED_RESULTS < ids.len()
        implies !(#[trigger] w.states.contains_key(ids[i])) by {
        if w.states.contains_key(ids[i]) {
            if w.running == Some(ids[i]) {
                assert(v.running == Some(ids[i]));
            } else {
                let j = choose|j: int| 0 <= j < w.finished.len() && w.finished[j] == ids[i];
                let p = all.len() - RETAINED_RESULTS + j;
                assert(w.finished[j] == all[p]);
                assert(all[p] == ids[p - f]);
            }
        }
    }
}

/// At most `RETAINED_RESULTS` results, plus the running migration, are ever held: the bound on
/// the memory the store pins.
pub proof fn law_the_store_holds_a_bounded_number_of_states(v: StoreView)
    requires
        well_formed(v),
    ensures
        v.states.dom().finite(),
        v.states.dom().len() <= RETAINED_RESULTS + 1,
{
    let known = v.finished.to_set();
    let allowed = match v.running {
        Some(r) => known.insert(r),
        None => known,
    };
    v.finished.lemma_cardinality_of_set();
    assert(v.states.dom().subset_of(allowed));
    vstd::set_lib::lemma_len_subset(v.states.dom(), allowed);
}

/// Settling a single fresh id keeps its state.
proof fn lemma_settle_each_single(v: StoreView, id: u128, state: StateView)
    requires
        well_formed(v),
        !v.finished.contains(id),
    ensures
        settled(v, id, state).states.contains_key(id),
        settled(v, id, state).states[id] == state,
{
    let ids = seq![id];
    let states = seq![state];
    assert(ids.no_duplicates());
    assert forall|i: int| 0 <= i < ids.len() implies !v.finished.contains(#[trigger] ids[i]) by {
        assert(ids[i] == id);
    }
    lemma_settle_each(v, ids, states);
    assert(ids.drop_last() =~= Seq::<u128>::empty());
    assert(settle_each(v, ids.drop_last(), states) == v);
    assert(ids.last() == id);
    assert(settle_each(v, ids, states) == settled(v, id, state));
    assert(ids[0] == id);
}

} // verus!
