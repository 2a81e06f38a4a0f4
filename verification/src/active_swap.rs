//! Per-direction registry of swaps currently being relayed.
//!
//! One [`ActiveSwapMap`] owns one relay direction: it records every
//! swap whose counter-chain lock call is in flight, and the claim
//! calls dispatched after the destination chain reported completion.
//! The registry itself never performs a call: each operation returns
//! the [`ContractCall`] the caller must dispatch, and call outcomes
//! are reported back through [`ActiveSwapMap::handle_lock_outcome`]
//! and [`ActiveSwapMap::handle_completion_outcome`], which decide
//! between a bounded retry and surfacing a terminal error event.

use vstd::prelude::*;

use crate::events::{
    ActiveSwapEvent, ActiveSwapMapError, CallErrorDetails, ContractCall,
};
use crate::types::{
    BridgeTransferDetails, BridgeTransferId, ContractCallError, CounterpartyCompletedDetails,
};

verus! {

/// Progress of the lock call a registry entry is waiting on.
#[derive(Clone, Copy, PartialEq, Eq, Structural, Debug)]
pub enum ActiveSwapState {
    /// The lock call was dispatched `attempts` times so far.
    LockingTokens { attempts: u64 },
    /// The lock call succeeded; the entry waits for the destination
    /// chain's "Completed" event.
    WaitingForCompletedEvent,
}

/// One registry entry: the immutable swap detail plus the progress of
/// its lock call.
#[derive(Clone, Copy, PartialEq, Eq, Structural, Debug)]
pub struct ActiveSwap {
    pub details: BridgeTransferDetails,
    pub state: ActiveSwapState,
}

/// A claim call in flight.  The swap has already left the registry
/// (removal happens on dispatch); this record only carries what a
/// retry needs.
#[derive(Clone, Copy, PartialEq, Eq, Structural, Debug)]
pub struct PendingCompletion {
    pub details: CounterpartyCompletedDetails,
    pub attempts: u64,
}

/// Mathematical model of one tracker: the registry, the claim calls
/// in flight, and the dispatch budget per call.
pub struct TrackerModel {
    pub swaps: Seq<ActiveSwap>,
    pub pending: Seq<PendingCompletion>,
    pub max_attempts: u64,
}

/// True when some registry entry carries `id`.
pub open spec fn swaps_contain(s: Seq<ActiveSwap>, id: BridgeTransferId) -> bool {
    exists|i: int| 0 <= i < s.len() && s[i].details.bridge_transfer_id == id
}

/// Index of the registry entry carrying `id`; meaningful only under
/// [`unique_swap_ids`], which makes the entry unique.
pub open spec fn swap_index(s: Seq<ActiveSwap>, id: BridgeTransferId) -> int {
    choose|i: int| 0 <= i < s.len() && s[i].details.bridge_transfer_id == id
}

/// True when some in-flight claim record carries `id`.
pub open spec fn pending_contain(s: Seq<PendingCompletion>, id: BridgeTransferId) -> bool {
    exists|i: int| 0 <= i < s.len() && s[i].details.bridge_transfer_id == id
}

/// Index of the in-flight claim record carrying `id`; meaningful only
/// under [`unique_pending_ids`].
pub open spec fn pending_index(s: Seq<PendingCompletion>, id: BridgeTransferId) -> int {
    choose|i: int| 0 <= i < s.len() && s[i].details.bridge_transfer_id == id
}

/// No two registry entries carry the same transfer id.
pub open spec fn unique_swap_ids(s: Seq<ActiveSwap>) -> bool {
    forall|i: int, j: int|
        0 <= i < s.len() && 0 <= j < s.len() && i != j
            ==> s[i].details.bridge_transfer_id != s[j].details.bridge_transfer_id
}

/// No two in-flight claim records carry the same transfer id.
pub open spec fn unique_pending_ids(s: Seq<PendingCompletion>) -> bool {
    forall|i: int, j: int|
        0 <= i < s.len() && 0 <= j < s.len() && i != j
            ==> s[i].details.bridge_transfer_id != s[j].details.bridge_transfer_id
}

impl TrackerModel {
    /// Well-formedness: at most one entry per transfer id, on both
    /// the registry and the in-flight claim records.
    pub open spec fn wf(self) -> bool {
        &&& unique_swap_ids(self.swaps)
        &&& unique_pending_ids(self.pending)
    }

    /// True when the registry holds an entry for `id`.
    pub open spec fn contains_swap(self, id: BridgeTransferId) -> bool {
        swaps_contain(self.swaps, id)
    }
}

/// The lock call that relays `details` to the destination chain: same
/// hash lock, same amount, same recipient.
pub open spec fn lock_call_for(details: BridgeTransferDetails) -> ContractCall {
    ContractCall::LockBridgeTransferAssets {
        bridge_transfer_id: details.bridge_transfer_id,
        hash_lock: details.hash_lock,
        recipient_address: details.recipient_address,
        amount: details.amount,
    }
}

/// The claim call that relays the revealed secret back to the source
/// chain.
pub open spec fn complete_call_for(details: CounterpartyCompletedDetails) -> ContractCall {
    ContractCall::CompleteBridgeTransfer {
        bridge_transfer_id: details.bridge_transfer_id,
        secret: details.secret,
    }
}

/// Registry after registering `details`: a fresh entry in the locking
/// state.  An entry already carrying the id is replaced, never
/// duplicated, so well-formedness is kept unconditionally.
pub open spec fn spec_start(m: TrackerModel, details: BridgeTransferDetails) -> TrackerModel {
    let entry = ActiveSwap { details, state: ActiveSwapState::LockingTokens { attempts: 1 } };
    if swaps_contain(m.swaps, details.bridge_transfer_id) {
        TrackerModel {
            swaps: m.swaps.update(swap_index(m.swaps, details.bridge_transfer_id), entry),
            ..m
        }
    } else {
        TrackerModel { swaps: m.swaps.push(entry), ..m }
    }
}

/// State and result of completing a swap: an unknown id fails with
/// [`ActiveSwapMapError::NonExistingSwap`] and changes nothing; a
/// known id leaves the registry and its claim call goes in flight.  A
/// claim already in flight for the same id is superseded.
pub open spec fn spec_complete(
    m: TrackerModel,
    details: CounterpartyCompletedDetails,
) -> (TrackerModel, Result<ContractCall, ActiveSwapMapError>) {
    let id = details.bridge_transfer_id;
    if !swaps_contain(m.swaps, id) {
        (m, Err(ActiveSwapMapError::NonExistingSwap))
    } else {
        let record = PendingCompletion { details, attempts: 1 };
        let pending = if pending_contain(m.pending, id) {
            m.pending.update(pending_index(m.pending, id), record)
        } else {
            m.pending.push(record)
        };
        (
            TrackerModel { swaps: m.swaps.remove(swap_index(m.swaps, id)), pending, ..m },
            Ok(complete_call_for(details)),
        )
    }
}

/// State, surfaced event and redispatch after the adapter reported
/// the outcome of a lock call for `id`.  Success moves the entry to
/// the waiting state and surfaces the locked event; failure is
/// redispatched while the budget lasts and surfaced as a terminal
/// locking error afterwards, with the entry kept for external
/// remediation.  An outcome for an id not in the locking state is
/// stale and ignored.
pub open spec fn spec_lock_outcome(
    m: TrackerModel,
    id: BridgeTransferId,
    outcome: Result<(), ContractCallError>,
) -> (TrackerModel, Option<ActiveSwapEvent>, Option<ContractCall>) {
    if !swaps_contain(m.swaps, id) {
        (m, None, None)
    } else {
        let i = swap_index(m.swaps, id);
        let entry = m.swaps[i];
        match entry.state {
            ActiveSwapState::LockingTokens { attempts } => match outcome {
                Ok(_) => (
                    TrackerModel {
                        swaps: m.swaps.update(
                            i,
                            ActiveSwap {
                                state: ActiveSwapState::WaitingForCompletedEvent,
                                ..entry
                            },
                        ),
                        ..m
                    },
                    Some(ActiveSwapEvent::BridgeAssetsLocked(id)),
                    None,
                ),
                Err(e) => {
                    if attempts < m.max_attempts {
                        (
                            TrackerModel {
                                swaps: m.swaps.update(
                                    i,
                                    ActiveSwap {
                                        state: ActiveSwapState::LockingTokens {
                                            attempts: (attempts + 1) as u64,
                                        },
                                        ..entry
                                    },
                                ),
                                ..m
                            },
                            None,
                            Some(lock_call_for(entry.details)),
                        )
                    } else {
                        (
                            m,
                            Some(ActiveSwapEvent::BridgeAssetsLockingError(CallErrorDetails {
                                bridge_transfer_id: id,
                                error: e,
                            })),
                            None,
                        )
                    }
                },
            },
            ActiveSwapState::WaitingForCompletedEvent => (m, None, None),
        }
    }
}

/// State, surfaced event and redispatch after the adapter reported
/// the outcome of a claim call for `id`.  Success drops the in-flight
/// record and surfaces the completed event; failure is redispatched
/// while the budget lasts and surfaced as a terminal completing error
/// afterwards, the record then being dropped.  An outcome for an id
/// with no record in flight is stale and ignored.
pub open spec fn spec_completion_outcome(
    m: TrackerModel,
    id: BridgeTransferId,
    outcome: Result<(), ContractCallError>,
) -> (TrackerModel, Option<ActiveSwapEvent>, Option<ContractCall>) {
    if !pending_contain(m.pending, id) {
        (m, None, None)
    } else {
        let i = pending_index(m.pending, id);
        let record = m.pending[i];
        match outcome {
            Ok(_) => (
                TrackerModel { pending: m.pending.remove(i), ..m },
                Some(ActiveSwapEvent::BridgeAssetsCompleted(id)),
                None,
            ),
            Err(e) => {
                if record.attempts < m.max_attempts {
                    (
                        TrackerModel {
                            pending: m.pending.update(
                                i,
                                PendingCompletion {
                                    attempts: (record.attempts + 1) as u64,
                                    ..record
                                },
                            ),
                            ..m
                        },
                        None,
                        Some(complete_call_for(record.details)),
                    )
                } else {
                    (
                        TrackerModel { pending: m.pending.remove(i), ..m },
                        Some(ActiveSwapEvent::BridgeAssetsCompletingError(CallErrorDetails {
                            bridge_transfer_id: id,
                            error: e,
                        })),
                        None,
                    )
                }
            },
        }
    }
}

/// In-memory registry of the swaps one relay direction is driving.
pub struct ActiveSwapMap {
    swaps: Vec<ActiveSwap>,
    pending: Vec<PendingCompletion>,
    max_attempts: u64,
}

impl View for ActiveSwapMap {
    type V = TrackerModel;

    closed spec fn view(&self) -> TrackerModel {
        TrackerModel {
            swaps: self.swaps@,
            pending: self.pending@,
            max_attempts: self.max_attempts,
        }
    }
}

impl ActiveSwapMap {
    /// An empty tracker.  Each call it hands out is redispatched on
    /// failure while its attempt count stays below `max_attempts`;
    /// the initial dispatch always happens, so a zero budget
    /// surfaces the first failure at once.
    pub fn build(max_attempts: u64) -> (r: Self)
        ensures
            r@.swaps == Seq::<ActiveSwap>::empty(),
            r@.pending == Seq::<PendingCompletion>::empty(),
            r@.max_attempts == max_attempts,
            r@.wf(),
    {
        let r = ActiveSwapMap { swaps: Vec::new(), pending: Vec::new(), max_attempts };
        proof {
            assert(r@.swaps =~= Seq::<ActiveSwap>::empty());
            assert(r@.pending =~= Seq::<PendingCompletion>::empty());
        }
        r
    }

    /// Pure lookup: is a swap with this id being relayed right now?
    pub fn already_executing(&self, id: &BridgeTransferId) -> (r: bool)
        ensures
            r == self@.contains_swap(*id),
    {
        self.find_swap_index(*id).is_some()
    }

    /// Number of entries the registry holds.
    pub fn active_swap_count(&self) -> (r: usize)
        ensures
            r == self@.swaps.len(),
    {
        self.swaps.len()
    }

    /// Number of claim calls in flight.
    pub fn pending_completion_count(&self) -> (r: usize)
        ensures
            r == self@.pending.len(),
    {
        self.pending.len()
    }

    fn find_swap_index(&self, id: BridgeTransferId) -> (r: Option<usize>)
        ensures
            match r {
                Some(i) => 0 <= i < self@.swaps.len()
                    && self@.swaps[i as int].details.bridge_transfer_id == id,
                None => !swaps_contain(self@.swaps, id),
            },
    {
        let mut i: usize = 0;
        while i < self.swaps.len()
            invariant
                i <= self.swaps.len(),
                forall|k: int| 0 <= k < i ==> self.swaps@[k].details.bridge_transfer_id != id,
            decreases self.swaps.len() - i,
        {
            if self.swaps[i].details.bridge_transfer_id == id {
                return Some(i);
            }
            i = i + 1;
        }
        None
    }

    fn find_pending_index(&self, id: BridgeTransferId) -> (r: Option<usize>)
        ensures
            match r {
                Some(i) => 0 <= i < self@.pending.len()
                    && self@.pending[i as int].details.bridge_transfer_id == id,
                None => !pending_contain(self@.pending, id),
            },
    {
        let mut i: usize = 0;
        while i < self.pending.len()
            invariant
                i <= self.pending.len(),
                forall|k: int| 0 <= k < i ==> self.pending@[k].details.bridge_transfer_id != id,
            decreases self.pending.len() - i,
        {
            if self.pending[i].details.bridge_transfer_id == id {
                return Some(i);
            }
            i = i + 1;
        }
        None
    }

    /// Registers a swap and hands back the lock call to dispatch on
    /// the destination chain, built from the same hash lock, amount
    /// and recipient as the observed initiation.
    pub fn start_bridge_transfer(&mut self, details: BridgeTransferDetails) -> (call:
        ContractCall)
        requires
            old(self)@.wf(),
        ensures
            final(self)@ == spec_start(old(self)@, details),
            final(self)@.wf(),
            final(self)@.contains_swap(details.bridge_transfer_id),
            call == lock_call_for(details),
    {
        let id = details.bridge_transfer_id;
        let entry = ActiveSwap { details, state: ActiveSwapState::LockingTokens { attempts: 1 } };
        match self.find_swap_index(id) {
            Some(i) => {
                proof {
                    lemma_swap_index_of(self.swaps@, id, i as int);
                }
                self.swaps[i] = entry;
                proof {
                    lemma_update_same_id_unique(old(self).swaps@, i as int, entry);
                    assert(swaps_contain(final(self)@.swaps, id)) by {
                        assert(final(self)@.swaps[i as int].details.bridge_transfer_id == id);
                    }
                }
            },
            None => {
                self.swaps.push(entry);
                proof {
                    lemma_push_new_unique(old(self).swaps@, entry);
                    assert(swaps_contain(final(self)@.swaps, id)) by {
                        assert(final(self)@.swaps[old(self)@.swaps.len() as int]
                            .details.bridge_transfer_id == id);
                    }
                }
            },
        }
        ContractCall::LockBridgeTransferAssets {
            bridge_transfer_id: details.bridge_transfer_id,
            hash_lock: details.hash_lock,
            recipient_address: details.recipient_address,
            amount: details.amount,
        }
    }
}

impl ActiveSwapMap {
    /// Completes the swap `details` speaks of.  An id the registry
    /// never held fails with [`ActiveSwapMapError::NonExistingSwap`]
    /// and changes nothing; otherwise the entry leaves the registry
    /// on dispatch and the claim call, carrying the revealed secret,
    /// is handed back for the source chain.
    pub fn complete_bridge_transfer(&mut self, details: CounterpartyCompletedDetails) -> (r:
        Result<ContractCall, ActiveSwapMapError>)
        requires
            old(self)@.wf(),
        ensures
            final(self)@ == spec_complete(old(self)@, details).0,
            r == spec_complete(old(self)@, details).1,
            final(self)@.wf(),
            !old(self)@.contains_swap(details.bridge_transfer_id) ==> final(self)@ == old(self)@
                && r == Err::<ContractCall, ActiveSwapMapError>(
                ActiveSwapMapError::NonExistingSwap,
            ),
            old(self)@.contains_swap(details.bridge_transfer_id) ==> !final(self)@.contains_swap(
                details.bridge_transfer_id,
            ) && r == Ok::<ContractCall, ActiveSwapMapError>(complete_call_for(details)),
    {
        let id = details.bridge_transfer_id;
        match self.find_swap_index(id) {
            None => Err(ActiveSwapMapError::NonExistingSwap),
            Some(i) => {
                proof {
                    lemma_swap_index_of(self.swaps@, id, i as int);
                    lemma_remove_unique(self.swaps@, i as int);
                    lemma_remove_id_gone(self.swaps@, i as int);
                }
                self.swaps.remove(i);
                let record = PendingCompletion { details, attempts: 1 };
                match self.find_pending_index(id) {
                    Some(j) => {
                        proof {
                            lemma_pending_index_of(self.pending@, id, j as int);
                            lemma_pending_update_same_id_unique(self.pending@, j as int, record);
                        }
                        self.pending[j] = record;
                    },
                    None => {
                        proof {
                            lemma_pending_push_new_unique(self.pending@, record);
                        }
                        self.pending.push(record);
                    },
                }
                Ok(ContractCall::CompleteBridgeTransfer {
                    bridge_transfer_id: id,
                    secret: details.secret,
                })
            },
        }
    }
}

impl ActiveSwapMap {
    /// Folds the adapter-reported outcome of a lock call into the
    /// registry: on success the entry waits for the destination
    /// "Completed" event and the locked progress event is surfaced;
    /// on failure the call is handed back for redispatch while the
    /// budget lasts, and surfaced as a terminal locking error
    /// afterwards.
    pub fn handle_lock_outcome(
        &mut self,
        id: BridgeTransferId,
        outcome: Result<(), ContractCallError>,
    ) -> (r: (Option<ActiveSwapEvent>, Option<ContractCall>))
        requires
            old(self)@.wf(),
        ensures
            final(self)@ == spec_lock_outcome(old(self)@, id, outcome).0,
            r.0 == spec_lock_outcome(old(self)@, id, outcome).1,
            r.1 == spec_lock_outcome(old(self)@, id, outcome).2,
            final(self)@.wf(),
    {
        match self.find_swap_index(id) {
            None => (None, None),
            Some(i) => {
                proof {
                    lemma_swap_index_of(self.swaps@, id, i as int);
                }
                let entry = self.swaps[i];
                match entry.state {
                    ActiveSwapState::LockingTokens { attempts } => match outcome {
                        Ok(_) => {
                            let updated = ActiveSwap {
                                state: ActiveSwapState::WaitingForCompletedEvent,
                                ..entry
                            };
                            proof {
                                lemma_update_same_id_unique(self.swaps@, i as int, updated);
                            }
                            self.swaps[i] = updated;
                            (Some(ActiveSwapEvent::BridgeAssetsLocked(id)), None)
                        },
                        Err(e) => {
                            if attempts < self.max_attempts {
                                let updated = ActiveSwap {
                                    state: ActiveSwapState::LockingTokens {
                                        attempts: attempts + 1,
                                    },
                                    ..entry
                                };
                                proof {
                                    lemma_update_same_id_unique(self.swaps@, i as int, updated);
                                }
                                self.swaps[i] = updated;
                                (
                                    None,
                                    Some(ContractCall::LockBridgeTransferAssets {
                                        bridge_transfer_id: entry.details.bridge_transfer_id,
                                        hash_lock: entry.details.hash_lock,
                                        recipient_address: entry.details.recipient_address,
                                        amount: entry.details.amount,
                                    }),
                                )
                            } else {
                                (
                                    Some(ActiveSwapEvent::BridgeAssetsLockingError(
                                        CallErrorDetails { bridge_transfer_id: id, error: e },
                                    )),
                                    None,
                                )
                            }
                        },
                    },
                    ActiveSwapState::WaitingForCompletedEvent => (None, None),
                }
            },
        }
    }

    /// Folds the adapter-reported outcome of a claim call into the
    /// in-flight records: on success the record is dropped and the
    /// completed progress event is surfaced; on failure the call is
    /// handed back for redispatch while the budget lasts, and
    /// surfaced as a terminal completing error afterwards.
    pub fn handle_completion_outcome(
        &mut self,
        id: BridgeTransferId,
        outcome: Result<(), ContractCallError>,
    ) -> (r: (Option<ActiveSwapEvent>, Option<ContractCall>))
        requires
            old(self)@.wf(),
        ensures
            final(self)@ == spec_completion_outcome(old(self)@, id, outcome).0,
            r.0 == spec_completion_outcome(old(self)@, id, outcome).1,
            r.1 == spec_completion_outcome(old(self)@, id, outcome).2,
            final(self)@.wf(),
    {
        match self.find_pending_index(id) {
            None => (None, None),
            Some(i) => {
                proof {
                    lemma_pending_index_of(self.pending@, id, i as int);
                }
                let record = self.pending[i];
                match outcome {
                    Ok(_) => {
                        proof {
                            lemma_pending_remove_unique(self.pending@, i as int);
                        }
                        self.pending.remove(i);
                        (Some(ActiveSwapEvent::BridgeAssetsCompleted(id)), None)
                    },
                    Err(e) => {
                        if record.attempts < self.max_attempts {
                            let updated = PendingCompletion {
                                attempts: record.attempts + 1,
                                ..record
                            };
                            proof {
                                lemma_pending_update_same_id_unique(
                                    self.pending@,
                                    i as int,
                                    updated,
                                );
                            }
                            self.pending[i] = updated;
                            (
                                None,
                                Some(ContractCall::CompleteBridgeTransfer {
                                    bridge_transfer_id: record.details.bridge_transfer_id,
                                    secret: record.details.secret,
                                }),
                            )
                        } else {
                            proof {
                                lemma_pending_remove_unique(self.pending@, i as int);
                            }
                            self.pending.remove(i);
                            (
                                Some(ActiveSwapEvent::BridgeAssetsCompletingError(
                                    CallErrorDetails { bridge_transfer_id: id, error: e },
                                )),
                                None,
                            )
                        }
                    },
                }
            },
        }
    }
}

/// At most one active entry exists per transfer id: in a well-formed
/// tracker, any two registry positions carrying the same id coincide.
/// Every tracker operation ensures well-formedness, so this holds at
/// any time.
pub proof fn lemma_at_most_one_active_entry(
    m: TrackerModel,
    id: BridgeTransferId,
    i: int,
    j: int,
)
    requires
        m.wf(),
        0 <= i < m.swaps.len(),
        0 <= j < m.swaps.len(),
        m.swaps[i].details.bridge_transfer_id == id,
        m.swaps[j].details.bridge_transfer_id == id,
    ensures
        i == j,
{
}

/// Completing a transfer id the registry does not hold fails with
/// [`ActiveSwapMapError::NonExistingSwap`] and leaves the tracker
/// unchanged.
pub proof fn lemma_complete_unknown_swap(m: TrackerModel, details: CounterpartyCompletedDetails)
    requires
        !m.contains_swap(details.bridge_transfer_id),
    ensures
        spec_complete(m, details).0 == m,
        spec_complete(m, details).1 == Err::<ContractCall, ActiveSwapMapError>(
            ActiveSwapMapError::NonExistingSwap,
        ),
{
}

/// Round trip: right after a transfer is registered, a lookup of its
/// id reports it as executing.
pub proof fn lemma_start_then_executing(m: TrackerModel, details: BridgeTransferDetails)
    ensures
        spec_start(m, details).contains_swap(details.bridge_transfer_id),
{
    let id = details.bridge_transfer_id;
    let after = spec_start(m, details);
    if swaps_contain(m.swaps, id) {
        let i = swap_index(m.swaps, id);
        assert(0 <= i < m.swaps.len() && m.swaps[i].details.bridge_transfer_id == id);
        assert(after.swaps[i].details.bridge_transfer_id == id);
    } else {
        assert(after.swaps[m.swaps.len() as int].details.bridge_transfer_id == id);
    }
}

/// Completing a transfer id the registry holds removes its entry:
/// right after the claim call is dispatched, the id is no longer
/// tracked.
pub proof fn lemma_complete_removes(m: TrackerModel, details: CounterpartyCompletedDetails)
    requires
        m.wf(),
        m.contains_swap(details.bridge_transfer_id),
    ensures
        !spec_complete(m, details).0.contains_swap(details.bridge_transfer_id),
{
    let id = details.bridge_transfer_id;
    let i = swap_index(m.swaps, id);
    assert(0 <= i < m.swaps.len() && m.swaps[i].details.bridge_transfer_id == id);
    lemma_remove_id_gone(m.swaps, i);
}

/// Under unique ids, any index carrying `id` is the one `swap_index`
/// denotes.
proof fn lemma_swap_index_of(s: Seq<ActiveSwap>, id: BridgeTransferId, j: int)
    requires
        unique_swap_ids(s),
        0 <= j < s.len(),
        s[j].details.bridge_transfer_id == id,
    ensures
        swap_index(s, id) == j,
{
    assert(swaps_contain(s, id));
    let i = swap_index(s, id);
    assert(0 <= i < s.len() && s[i].details.bridge_transfer_id == id);
}

/// Under unique ids, any index carrying `id` is the one
/// `pending_index` denotes.
proof fn lemma_pending_index_of(s: Seq<PendingCompletion>, id: BridgeTransferId, j: int)
    requires
        unique_pending_ids(s),
        0 <= j < s.len(),
        s[j].details.bridge_transfer_id == id,
    ensures
        pending_index(s, id) == j,
{
    assert(pending_contain(s, id));
    let i = pending_index(s, id);
    assert(0 <= i < s.len() && s[i].details.bridge_transfer_id == id);
}

/// Replacing an entry with one carrying the same id keeps ids unique.
proof fn lemma_update_same_id_unique(s: Seq<ActiveSwap>, i: int, entry: ActiveSwap)
    requires
        unique_swap_ids(s),
        0 <= i < s.len(),
        entry.details.bridge_transfer_id == s[i].details.bridge_transfer_id,
    ensures
        unique_swap_ids(s.update(i, entry)),
{
}

/// Appending an entry whose id is absent keeps ids unique.
proof fn lemma_push_new_unique(s: Seq<ActiveSwap>, entry: ActiveSwap)
    requires
        unique_swap_ids(s),
        !swaps_contain(s, entry.details.bridge_transfer_id),
    ensures
        unique_swap_ids(s.push(entry)),
{
}

/// Removing an entry keeps ids unique.
proof fn lemma_remove_unique(s: Seq<ActiveSwap>, i: int)
    requires
        unique_swap_ids(s),
        0 <= i < s.len(),
    ensures
        unique_swap_ids(s.remove(i)),
{
    s.remove_ensures(i);
    let t = s.remove(i);
    assert forall|k: int, l: int|
        0 <= k < t.len() && 0 <= l < t.len() && k != l implies t[k].details.bridge_transfer_id
        != t[l].details.bridge_transfer_id by {
        let k0 = if k < i { k } else { k + 1 };
        let l0 = if l < i { l } else { l + 1 };
        assert(t[k] == s[k0]);
        assert(t[l] == s[l0]);
    }
}

/// Under unique ids, removing the entry that carries an id leaves no
/// entry carrying it.
proof fn lemma_remove_id_gone(s: Seq<ActiveSwap>, i: int)
    requires
        unique_swap_ids(s),
        0 <= i < s.len(),
    ensures
        !swaps_contain(s.remove(i), s[i].details.bridge_transfer_id),
{
    s.remove_ensures(i);
    let id = s[i].details.bridge_transfer_id;
    let t = s.remove(i);
    assert forall|k: int| 0 <= k < t.len() implies t[k].details.bridge_transfer_id != id by {
        let k0 = if k < i { k } else { k + 1 };
        assert(t[k] == s[k0]);
    }
}

/// Replacing an in-flight claim record with one carrying the same id
/// keeps ids unique.
proof fn lemma_pending_update_same_id_unique(
    s: Seq<PendingCompletion>,
    i: int,
    record: PendingCompletion,
)
    requires
        unique_pending_ids(s),
        0 <= i < s.len(),
        record.details.bridge_transfer_id == s[i].details.bridge_transfer_id,
    ensures
        unique_pending_ids(s.update(i, record)),
{
}

/// Removing an in-flight claim record keeps ids unique.
proof fn lemma_pending_remove_unique(s: Seq<PendingCompletion>, i: int)
    requires
        unique_pending_ids(s),
        0 <= i < s.len(),
    ensures
        unique_pending_ids(s.remove(i)),
{
    s.remove_ensures(i);
    let t = s.remove(i);
    assert forall|k: int, l: int|
        0 <= k < t.len() && 0 <= l < t.len() && k != l implies t[k].details.bridge_transfer_id
        != t[l].details.bridge_transfer_id by {
        let k0 = if k < i { k } else { k + 1 };
        let l0 = if l < i { l } else { l + 1 };
        assert(t[k] == s[k0]);
        assert(t[l] == s[l0]);
    }
}

/// Appending an in-flight claim record whose id is absent keeps ids
/// unique.
proof fn lemma_pending_push_new_unique(s: Seq<PendingCompletion>, record: PendingCompletion)
    requires
        unique_pending_ids(s),
        !pending_contain(s, record.details.bridge_transfer_id),
    ensures
        unique_pending_ids(s.push(record)),
{
}

} // verus!
