//! The swap orchestrator: one decision point over four sources.
//!
//! Each scheduling turn the caller offers the orchestrator whatever
//! the two trackers and the two chain adapters have ready.  The
//! sources are considered in a fixed order — direction one-to-two
//! tracker progress, direction two-to-one tracker progress, chain one
//! events, chain two events — and the turn ends at the first source
//! whose item produces output.  Per-source order is preserved because
//! a turn consumes a prefix of the offered items and reports how long
//! that prefix is.

use vstd::prelude::*;

use crate::active_swap::{
    complete_call_for, lock_call_for, spec_complete, spec_start, ActiveSwap, ActiveSwapMap,
    PendingCompletion, TrackerModel,
};
use crate::events::{
    ActiveSwapEvent, BridgeContractCounterpartyEvent, BridgeContractInitiatorEvent, CEvent,
    CWarn, ContractCall, ContractEvent, Direction, Event, IEvent, IWarn, TrackerWarn,
};
use crate::types::{BridgeTransferDetails, CounterpartyCompletedDetails};

verus! {

/// A contract call to dispatch, tagged with the relay direction that
/// owns it.  A lock call targets that direction's destination chain
/// counterparty contract; a complete call targets its source chain
/// initiator contract.
#[derive(Clone, Copy, PartialEq, Eq, Debug)]
pub struct DirectedCall {
    pub direction: Direction,
    pub call: ContractCall,
}

/// What one scheduling turn produced: at most one unified output
/// event, at most one call to dispatch, and how many of the four
/// offered source slots the turn consumed (in source order; the
/// caller keeps the rest for the next turn).
#[derive(Clone, Copy, PartialEq, Eq, Debug)]
pub struct TurnOutcome {
    pub output: Option<Event>,
    pub call: Option<DirectedCall>,
    pub consumed: u64,
}

/// Mathematical model of the orchestrator: the two trackers' models.
pub struct ServiceModel {
    pub one_to_two: TrackerModel,
    pub two_to_one: TrackerModel,
}

impl ServiceModel {
    /// Both registries are well-formed.
    pub open spec fn wf(self) -> bool {
        &&& self.one_to_two.wf()
        &&& self.two_to_one.wf()
    }
}

/// Output for one tracker progress event.  Lock and claim
/// confirmations are informational: the on-chain confirmation is
/// observed separately through the chain's own events, so they
/// produce no output.  A terminal locking or completing error is
/// surfaced as a warning, never dropped.  Both directions are handled
/// alike.
pub open spec fn spec_tracker_event(direction: Direction, event: ActiveSwapEvent) -> Option<
    Event,
> {
    match event {
        ActiveSwapEvent::BridgeAssetsLocked(_) => None,
        ActiveSwapEvent::BridgeAssetsLockingError(e) => Some(
            Event::Warn(TrackerWarn::LockingError(direction, e)),
        ),
        ActiveSwapEvent::BridgeAssetsCompleted(_) => None,
        ActiveSwapEvent::BridgeAssetsCompletingError(e) => Some(
            Event::Warn(TrackerWarn::CompletingError(direction, e)),
        ),
    }
}

/// State, output and call for one chain-one event.  An "Initiated"
/// event registers the swap in the one-to-two tracker and asks for
/// the destination lock call — unless the id is already tracked, in
/// which case exactly one `AlreadyPresent` warning is produced and
/// nothing changes.  "Completed" and "Refunded" are observations and
/// are forwarded as they are.  Counterparty events seen on chain one
/// do not belong to this direction and produce nothing.
pub open spec fn spec_chain_one_event(m: ServiceModel, event: ContractEvent) -> (
    ServiceModel,
    Option<Event>,
    Option<ContractCall>,
) {
    match event {
        ContractEvent::InitiatorEvent(initiator_event) => match initiator_event {
            BridgeContractInitiatorEvent::Initiated(details) => {
                if m.one_to_two.contains_swap(details.bridge_transfer_id) {
                    (m, Some(Event::B1I(IEvent::Warn(IWarn::AlreadyPresent(details)))), None)
                } else {
                    (
                        ServiceModel { one_to_two: spec_start(m.one_to_two, details), ..m },
                        Some(Event::B1I(IEvent::ContractEvent(initiator_event))),
                        Some(lock_call_for(details)),
                    )
                }
            },
            BridgeContractInitiatorEvent::Completed(_) => (
                m,
                Some(Event::B1I(IEvent::ContractEvent(initiator_event))),
                None,
            ),
            BridgeContractInitiatorEvent::Refunded(_) => (
                m,
                Some(Event::B1I(IEvent::ContractEvent(initiator_event))),
                None,
            ),
        },
        ContractEvent::CounterpartyEvent(_) => (m, None, None),
    }
}

/// State, output and call for one chain-two event.  A counterparty
/// "Locked" event is the confirmation of a dispatched lock call and
/// is forwarded as it is.  A counterparty "Completed" event completes
/// the swap in the one-to-two tracker and asks for the source-chain
/// claim call carrying the revealed secret; if the id was never
/// registered, exactly one critical `CannotCompleteUnexistingSwap`
/// warning is produced, no call is made and nothing changes.
/// Initiator events seen on chain two do not belong to this direction
/// and produce nothing.
pub open spec fn spec_chain_two_event(m: ServiceModel, event: ContractEvent) -> (
    ServiceModel,
    Option<Event>,
    Option<ContractCall>,
) {
    match event {
        ContractEvent::CounterpartyEvent(counterparty_event) => match counterparty_event {
            BridgeContractCounterpartyEvent::Locked(_) => (
                m,
                Some(Event::B2C(CEvent::ContractEvent(counterparty_event))),
                None,
            ),
            BridgeContractCounterpartyEvent::Completed(details) => {
                if m.one_to_two.contains_swap(details.bridge_transfer_id) {
                    (
                        ServiceModel { one_to_two: spec_complete(m.one_to_two, details).0, ..m },
                        Some(Event::B2C(CEvent::ContractEvent(counterparty_event))),
                        Some(complete_call_for(details)),
                    )
                } else {
                    (
                        m,
                        Some(
                            Event::B2C(CEvent::Warn(CWarn::CannotCompleteUnexistingSwap(details))),
                        ),
                        None,
                    )
                }
            },
        },
        ContractEvent::InitiatorEvent(_) => (m, None, None),
    }
}

/// Wraps a tracker's call for dispatch, keeping its direction.
pub open spec fn spec_directed(direction: Direction, call: Option<ContractCall>) -> Option<
    DirectedCall,
> {
    match call {
        Some(c) => Some(DirectedCall { direction, call: c }),
        None => None,
    }
}

/// One scheduling turn over the four offered items, in source order.
/// The turn stops at the first item that produces output; items
/// considered without producing output are consumed as well (they are
/// informational).  When nothing produces output, all four slots are
/// consumed and the turn reports no output, without terminating the
/// stream.
pub open spec fn spec_turn(
    m: ServiceModel,
    t1: Option<ActiveSwapEvent>,
    t2: Option<ActiveSwapEvent>,
    c1: Option<ContractEvent>,
    c2: Option<ContractEvent>,
) -> (ServiceModel, TurnOutcome) {
    if t1 is Some && spec_tracker_event(Direction::OneToTwo, t1->0) is Some {
        (
            m,
            TurnOutcome {
                output: spec_tracker_event(Direction::OneToTwo, t1->0),
                call: None,
                consumed: 1,
            },
        )
    } else if t2 is Some && spec_tracker_event(Direction::TwoToOne, t2->0) is Some {
        (
            m,
            TurnOutcome {
                output: spec_tracker_event(Direction::TwoToOne, t2->0),
                call: None,
                consumed: 2,
            },
        )
    } else if c1 is Some && spec_chain_one_event(m, c1->0).1 is Some {
        let r = spec_chain_one_event(m, c1->0);
        (
            r.0,
            TurnOutcome {
                output: r.1,
                call: spec_directed(Direction::OneToTwo, r.2),
                consumed: 3,
            },
        )
    } else if c2 is Some && spec_chain_two_event(m, c2->0).1 is Some {
        let r = spec_chain_two_event(m, c2->0);
        (
            r.0,
            TurnOutcome {
                output: r.1,
                call: spec_directed(Direction::OneToTwo, r.2),
                consumed: 4,
            },
        )
    } else {
        (m, TurnOutcome { output: None, call: None, consumed: 4 })
    }
}

/// The orchestrator: owns one tracker per relay direction and folds
/// chain and tracker events into one output stream.
pub struct BridgeService {
    pub active_swaps_b1_to_b2: ActiveSwapMap,
    pub active_swaps_b2_to_b1: ActiveSwapMap,
}

impl View for BridgeService {
    type V = ServiceModel;

    open spec fn view(&self) -> ServiceModel {
        ServiceModel {
            one_to_two: self.active_swaps_b1_to_b2@,
            two_to_one: self.active_swaps_b2_to_b1@,
        }
    }
}

/// Output for one tracker progress event; see [`spec_tracker_event`].
pub fn handle_tracker_event(direction: Direction, event: ActiveSwapEvent) -> (r: Option<Event>)
    ensures
        r == spec_tracker_event(direction, event),
{
    match event {
        ActiveSwapEvent::BridgeAssetsLocked(_) => None,
        ActiveSwapEvent::BridgeAssetsLockingError(e) => Some(
            Event::Warn(TrackerWarn::LockingError(direction, e)),
        ),
        ActiveSwapEvent::BridgeAssetsCompleted(_) => None,
        ActiveSwapEvent::BridgeAssetsCompletingError(e) => Some(
            Event::Warn(TrackerWarn::CompletingError(direction, e)),
        ),
    }
}

fn directed(direction: Direction, call: Option<ContractCall>) -> (r: Option<DirectedCall>)
    ensures
        r == spec_directed(direction, call),
{
    match call {
        Some(c) => Some(DirectedCall { direction, call: c }),
        None => None,
    }
}

impl BridgeService {
    /// An orchestrator with two empty trackers, one per direction,
    /// each with its own dispatch budget per contract call.
    pub fn new(max_attempts_one_to_two: u64, max_attempts_two_to_one: u64) -> (r: Self)
        ensures
            r@.one_to_two.swaps == Seq::<ActiveSwap>::empty(),
            r@.one_to_two.pending == Seq::<PendingCompletion>::empty(),
            r@.one_to_two.max_attempts == max_attempts_one_to_two,
            r@.two_to_one.swaps == Seq::<ActiveSwap>::empty(),
            r@.two_to_one.pending == Seq::<PendingCompletion>::empty(),
            r@.two_to_one.max_attempts == max_attempts_two_to_one,
            r@.wf(),
    {
        BridgeService {
            active_swaps_b1_to_b2: ActiveSwapMap::build(max_attempts_one_to_two),
            active_swaps_b2_to_b1: ActiveSwapMap::build(max_attempts_two_to_one),
        }
    }

    /// Folds one chain-one event; see [`spec_chain_one_event`].
    pub fn handle_chain_one_event(&mut self, event: ContractEvent) -> (r: (
        Option<Event>,
        Option<ContractCall>,
    ))
        requires
            old(self)@.wf(),
        ensures
            final(self)@ == spec_chain_one_event(old(self)@, event).0,
            r.0 == spec_chain_one_event(old(self)@, event).1,
            r.1 == spec_chain_one_event(old(self)@, event).2,
            final(self)@.wf(),
    {
        match event {
            ContractEvent::InitiatorEvent(initiator_event) => match initiator_event {
                BridgeContractInitiatorEvent::Initiated(details) => {
                    if self.active_swaps_b1_to_b2.already_executing(
                        &details.bridge_transfer_id,
                    ) {
                        (Some(Event::B1I(IEvent::Warn(IWarn::AlreadyPresent(details)))), None)
                    } else {
                        let call = self.active_swaps_b1_to_b2.start_bridge_transfer(details);
                        (Some(Event::B1I(IEvent::ContractEvent(initiator_event))), Some(call))
                    }
                },
                BridgeContractInitiatorEvent::Completed(_) => (
                    Some(Event::B1I(IEvent::ContractEvent(initiator_event))),
                    None,
                ),
                BridgeContractInitiatorEvent::Refunded(_) => (
                    Some(Event::B1I(IEvent::ContractEvent(initiator_event))),
                    None,
                ),
            },
            ContractEvent::CounterpartyEvent(_) => (None, None),
        }
    }

    /// Folds one chain-two event; see [`spec_chain_two_event`].
    pub fn handle_chain_two_event(&mut self, event: ContractEvent) -> (r: (
        Option<Event>,
        Option<ContractCall>,
    ))
        requires
            old(self)@.wf(),
        ensures
            final(self)@ == spec_chain_two_event(old(self)@, event).0,
            r.0 == spec_chain_two_event(old(self)@, event).1,
            r.1 == spec_chain_two_event(old(self)@, event).2,
            final(self)@.wf(),
    {
        match event {
            ContractEvent::CounterpartyEvent(counterparty_event) => match counterparty_event {
                BridgeContractCounterpartyEvent::Locked(_) => (
                    Some(Event::B2C(CEvent::ContractEvent(counterparty_event))),
                    None,
                ),
                BridgeContractCounterpartyEvent::Completed(details) => {
                    match self.active_swaps_b1_to_b2.complete_bridge_transfer(details) {
                        Ok(call) => (
                            Some(Event::B2C(CEvent::ContractEvent(counterparty_event))),
                            Some(call),
                        ),
                        Err(_) => (
                            Some(
                                Event::B2C(
                                    CEvent::Warn(CWarn::CannotCompleteUnexistingSwap(details)),
                                ),
                            ),
                            None,
                        ),
                    }
                },
            },
            ContractEvent::InitiatorEvent(_) => (None, None),
        }
    }

    /// One scheduling turn; see [`spec_turn`].  The caller offers
    /// whatever each source has ready and keeps every item in a slot
    /// beyond `consumed` for the next turn.
    pub fn poll_next_turn(
        &mut self,
        t1: Option<ActiveSwapEvent>,
        t2: Option<ActiveSwapEvent>,
        c1: Option<ContractEvent>,
        c2: Option<ContractEvent>,
    ) -> (r: TurnOutcome)
        requires
            old(self)@.wf(),
        ensures
            final(self)@ == spec_turn(old(self)@, t1, t2, c1, c2).0,
            r == spec_turn(old(self)@, t1, t2, c1, c2).1,
            final(self)@.wf(),
    {
        if let Some(ev) = t1 {
            if let Some(out) = handle_tracker_event(Direction::OneToTwo, ev) {
                return TurnOutcome { output: Some(out), call: None, consumed: 1 };
            }
        }
        if let Some(ev) = t2 {
            if let Some(out) = handle_tracker_event(Direction::TwoToOne, ev) {
                return TurnOutcome { output: Some(out), call: None, consumed: 2 };
            }
        }
        if let Some(ev) = c1 {
            let (out, call) = self.handle_chain_one_event(ev);
            if out.is_some() {
                return TurnOutcome {
                    output: out,
                    call: directed(Direction::OneToTwo, call),
                    consumed: 3,
                };
            }
        }
        if let Some(ev) = c2 {
            let (out, call) = self.handle_chain_two_event(ev);
            if out.is_some() {
                return TurnOutcome {
                    output: out,
                    call: directed(Direction::OneToTwo, call),
                    consumed: 4,
                };
            }
        }
        TurnOutcome { output: None, call: None, consumed: 4 }
    }
}

/// An "Initiated" event for an id already tracked in its direction
/// produces exactly one `AlreadyPresent` warning, no contract call,
/// and no registry mutation.
pub proof fn lemma_duplicate_initiation(m: ServiceModel, details: BridgeTransferDetails)
    requires
        m.one_to_two.contains_swap(details.bridge_transfer_id),
    ensures
        spec_chain_one_event(
            m,
            ContractEvent::InitiatorEvent(BridgeContractInitiatorEvent::Initiated(details)),
        ).0 == m,
        spec_chain_one_event(
            m,
            ContractEvent::InitiatorEvent(BridgeContractInitiatorEvent::Initiated(details)),
        ).1 == Some(Event::B1I(IEvent::Warn(IWarn::AlreadyPresent(details)))),
        spec_chain_one_event(
            m,
            ContractEvent::InitiatorEvent(BridgeContractInitiatorEvent::Initiated(details)),
        ).2 == Option::<ContractCall>::None,
{
}

/// A destination "Completed" event for an id with no tracked entry
/// produces exactly one critical `CannotCompleteUnexistingSwap`
/// warning, no contract call, and no state change.
pub proof fn lemma_complete_unknown_id(m: ServiceModel, details: CounterpartyCompletedDetails)
    requires
        !m.one_to_two.contains_swap(details.bridge_transfer_id),
    ensures
        spec_chain_two_event(
            m,
            ContractEvent::CounterpartyEvent(BridgeContractCounterpartyEvent::Completed(details)),
        ).0 == m,
        spec_chain_two_event(
            m,
            ContractEvent::CounterpartyEvent(BridgeContractCounterpartyEvent::Completed(details)),
        ).1 == Some(Event::B2C(CEvent::Warn(CWarn::CannotCompleteUnexistingSwap(details)))),
        spec_chain_two_event(
            m,
            ContractEvent::CounterpartyEvent(BridgeContractCounterpartyEvent::Completed(details)),
        ).2 == Option::<ContractCall>::None,
{
}

} // verus!
