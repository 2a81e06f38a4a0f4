//! Event and action vocabulary of the relay.
//!
//! Chain adapters produce [`ContractEvent`]s; each direction's tracker
//! produces [`ActiveSwapEvent`]s for the calls it has in flight; the
//! orchestrator folds all of them into one stream of [`Event`]s and
//! asks the caller to dispatch [`ContractCall`]s.

use vstd::prelude::*;

use crate::types::{
    BridgeAddress, BridgeHashLock, BridgeSecret, BridgeTransferDetails, BridgeTransferId,
    ContractCallError, CounterpartyCompletedDetails, InitiatorCompletedDetails, LockedDetails,
    RefundedDetails,
};

verus! {

/// Event emitted by a chain's initiator contract.
#[derive(Clone, Copy, PartialEq, Eq, Structural, Debug)]
pub enum BridgeContractInitiatorEvent {
    Initiated(BridgeTransferDetails),
    Completed(InitiatorCompletedDetails),
    Refunded(RefundedDetails),
}

/// Event emitted by a chain's counterparty contract.
#[derive(Clone, Copy, PartialEq, Eq, Structural, Debug)]
pub enum BridgeContractCounterpartyEvent {
    Locked(LockedDetails),
    Completed(CounterpartyCompletedDetails),
}

/// One event observed on a chain, tagged by the contract role that
/// emitted it.
#[derive(Clone, Copy, PartialEq, Eq, Structural, Debug)]
pub enum ContractEvent {
    InitiatorEvent(BridgeContractInitiatorEvent),
    CounterpartyEvent(BridgeContractCounterpartyEvent),
}

/// Warning attached to initiator-side events.
#[derive(Clone, Copy, PartialEq, Eq, Structural, Debug)]
pub enum IWarn {
    /// An "Initiated" event arrived for a transfer id that this
    /// direction's tracker already holds; the duplicate is suppressed.
    AlreadyPresent(BridgeTransferDetails),
}

/// Warning attached to counterparty-side events.
#[derive(Clone, Copy, PartialEq, Eq, Structural, Debug)]
pub enum CWarn {
    /// A destination "Completed" event arrived for a transfer the
    /// orchestrator never registered.  Critical: funds may be stuck
    /// until an operator intervenes.
    CannotCompleteUnexistingSwap(CounterpartyCompletedDetails),
}

/// Initiator-side output: a forwarded contract event or a warning.
#[derive(Clone, Copy, PartialEq, Eq, Structural, Debug)]
pub enum IEvent {
    ContractEvent(BridgeContractInitiatorEvent),
    Warn(IWarn),
}

/// Counterparty-side output: a forwarded contract event or a warning.
#[derive(Clone, Copy, PartialEq, Eq, Structural, Debug)]
pub enum CEvent {
    ContractEvent(BridgeContractCounterpartyEvent),
    Warn(CWarn),
}

/// One of the two relay directions.
#[derive(Clone, Copy, PartialEq, Eq, Structural, Debug)]
pub enum Direction {
    /// Swaps initiated on chain one, fulfilled on chain two.
    OneToTwo,
    /// Swaps initiated on chain two, fulfilled on chain one.
    TwoToOne,
}

/// Detail of a tracker call failure surfaced after its retry budget
/// ran out.
#[derive(Clone, Copy, PartialEq, Eq, Structural, Debug)]
pub struct CallErrorDetails {
    pub bridge_transfer_id: BridgeTransferId,
    pub error: ContractCallError,
}

/// Warning surfaced by a tracker through the orchestrator.
#[derive(Clone, Copy, PartialEq, Eq, Structural, Debug)]
pub enum TrackerWarn {
    /// Locking the destination assets kept failing.
    LockingError(Direction, CallErrorDetails),
    /// Claiming the source assets kept failing.
    CompletingError(Direction, CallErrorDetails),
}

/// Unified orchestrator output, tagged by originating chain and role.
#[derive(Clone, Copy, PartialEq, Eq, Structural, Debug)]
pub enum Event {
    /// From chain one's initiator contract.
    B1I(IEvent),
    /// From chain two's counterparty contract.
    B2C(CEvent),
    /// From one of the trackers.
    Warn(TrackerWarn),
}

/// Progress report from a tracker for the calls it has dispatched.
#[derive(Clone, Copy, PartialEq, Eq, Structural, Debug)]
pub enum ActiveSwapEvent {
    /// The lock call succeeded on the destination chain.
    BridgeAssetsLocked(BridgeTransferId),
    /// The lock call failed and the retry budget is exhausted.
    BridgeAssetsLockingError(CallErrorDetails),
    /// The claim call succeeded on the source chain.
    BridgeAssetsCompleted(BridgeTransferId),
    /// The claim call failed and the retry budget is exhausted.
    BridgeAssetsCompletingError(CallErrorDetails),
}

/// Contract call a tracker asks the caller to dispatch.  A lock call
/// targets the destination chain's counterparty contract; a complete
/// call targets the source chain's initiator contract.
#[derive(Clone, Copy, PartialEq, Eq, Structural, Debug)]
pub enum ContractCall {
    LockBridgeTransferAssets {
        bridge_transfer_id: BridgeTransferId,
        hash_lock: BridgeHashLock,
        recipient_address: BridgeAddress,
        amount: u64,
    },
    CompleteBridgeTransfer {
        bridge_transfer_id: BridgeTransferId,
        secret: BridgeSecret,
    },
}

/// Failure of a tracker registry operation.
#[derive(Clone, Copy, PartialEq, Eq, Structural, Debug)]
pub enum ActiveSwapMapError {
    /// The transfer id is not in the registry.
    NonExistingSwap,
}

} // verus!
