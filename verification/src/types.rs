//! Plain value types shared by the trackers and the orchestrator.
//!
//! Addresses, hash locks and secrets are opaque to the protocol: the
//! core only copies them between events and contract calls, so each is
//! modeled as a single machine word.  Both chains use the same
//! representation here, which makes the cross-chain conversion of these
//! values the identity.

use vstd::prelude::*;

verus! {

/// Identifier of one bridge transfer attempt.  Unique only within one
/// relay direction's tracker.
#[derive(Clone, Copy, PartialEq, Eq, Structural, Debug)]
pub struct BridgeTransferId {
    pub value: u64,
}

/// Hash-lock commitment binding a claim to knowledge of a secret.
#[derive(Clone, Copy, PartialEq, Eq, Structural, Debug)]
pub struct BridgeHashLock {
    pub value: u64,
}

/// Revealed pre-image of a hash lock.
#[derive(Clone, Copy, PartialEq, Eq, Structural, Debug)]
pub struct BridgeSecret {
    pub value: u64,
}

/// Account address on either chain.
#[derive(Clone, Copy, PartialEq, Eq, Structural, Debug)]
pub struct BridgeAddress {
    pub value: u64,
}

/// Immutable record of one initiated swap: everything needed to replay
/// the counter-chain lock call.
#[derive(Clone, Copy, PartialEq, Eq, Structural, Debug)]
pub struct BridgeTransferDetails {
    pub bridge_transfer_id: BridgeTransferId,
    pub initiator_address: BridgeAddress,
    pub recipient_address: BridgeAddress,
    pub hash_lock: BridgeHashLock,
    pub amount: u64,
}

/// Detail of a counterparty-contract "Locked" event: assets were
/// reserved on the destination chain against the hash lock.
#[derive(Clone, Copy, PartialEq, Eq, Structural, Debug)]
pub struct LockedDetails {
    pub bridge_transfer_id: BridgeTransferId,
    pub hash_lock: BridgeHashLock,
    pub amount: u64,
}

/// Detail of a counterparty-contract "Completed" event: the
/// destination-chain claim happened and revealed the secret.
#[derive(Clone, Copy, PartialEq, Eq, Structural, Debug)]
pub struct CounterpartyCompletedDetails {
    pub bridge_transfer_id: BridgeTransferId,
    pub secret: BridgeSecret,
}

/// Detail of an initiator-contract "Completed" event: the initiator
/// claimed the funds on the source chain using the revealed secret.
#[derive(Clone, Copy, PartialEq, Eq, Structural, Debug)]
pub struct InitiatorCompletedDetails {
    pub bridge_transfer_id: BridgeTransferId,
    pub secret: BridgeSecret,
}

/// Detail of an initiator-contract "Refunded" event.
#[derive(Clone, Copy, PartialEq, Eq, Structural, Debug)]
pub struct RefundedDetails {
    pub bridge_transfer_id: BridgeTransferId,
}

/// Failure code a chain adapter reports for a dispatched contract
/// call.  The tracker treats every such failure as retryable.
#[derive(Clone, Copy, PartialEq, Eq, Structural, Debug)]
pub struct ContractCallError {
    pub code: u64,
}

} // verus!
