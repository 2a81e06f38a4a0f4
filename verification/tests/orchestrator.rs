use bridge_shared::bridge_service::{BridgeService, DirectedCall};
use bridge_shared::events::{
    ActiveSwapEvent, BridgeContractCounterpartyEvent, BridgeContractInitiatorEvent, CEvent,
    CWarn, CallErrorDetails, ContractCall, ContractEvent, Direction, Event, IEvent, IWarn,
    TrackerWarn,
};
use bridge_shared::types::{
    BridgeAddress, BridgeHashLock, BridgeSecret, BridgeTransferDetails, BridgeTransferId,
    ContractCallError, CounterpartyCompletedDetails, LockedDetails,
};

fn transfer_details(id: u64, amount: u64, hash_lock: u64) -> BridgeTransferDetails {
    BridgeTransferDetails {
        bridge_transfer_id: BridgeTransferId { value: id },
        initiator_address: BridgeAddress { value: 11 },
        recipient_address: BridgeAddress { value: 22 },
        hash_lock: BridgeHashLock { value: hash_lock },
        amount,
    }
}

fn initiated(details: BridgeTransferDetails) -> ContractEvent {
    ContractEvent::InitiatorEvent(BridgeContractInitiatorEvent::Initiated(details))
}

fn counterparty_completed(id: u64, secret: u64) -> ContractEvent {
    ContractEvent::CounterpartyEvent(BridgeContractCounterpartyEvent::Completed(
        CounterpartyCompletedDetails {
            bridge_transfer_id: BridgeTransferId { value: id },
            secret: BridgeSecret { value: secret },
        },
    ))
}

#[test]
fn test_initiated_registers_and_dispatches_lock() {
    let mut service = BridgeService::new(3, 3);
    let details = transfer_details(1, 100, 5555);
    let outcome = service.poll_next_turn(None, None, Some(initiated(details)), None);
    assert_eq!(
        outcome.output,
        Some(Event::B1I(IEvent::ContractEvent(
            BridgeContractInitiatorEvent::Initiated(details)
        )))
    );
    assert_eq!(
        outcome.call,
        Some(DirectedCall {
            direction: Direction::OneToTwo,
            call: ContractCall::LockBridgeTransferAssets {
                bridge_transfer_id: details.bridge_transfer_id,
                hash_lock: details.hash_lock,
                recipient_address: details.recipient_address,
                amount: details.amount,
            },
        })
    );
    assert_eq!(outcome.consumed, 3);
    assert!(service
        .active_swaps_b1_to_b2
        .already_executing(&details.bridge_transfer_id));

    // chain two confirms the lock: the event is forwarded and the
    // registry still holds the swap
    let locked = ContractEvent::CounterpartyEvent(BridgeContractCounterpartyEvent::Locked(
        LockedDetails {
            bridge_transfer_id: details.bridge_transfer_id,
            hash_lock: details.hash_lock,
            amount: details.amount,
        },
    ));
    let outcome = service.poll_next_turn(None, None, None, Some(locked));
    assert_eq!(
        outcome.output,
        Some(Event::B2C(CEvent::ContractEvent(
            BridgeContractCounterpartyEvent::Locked(LockedDetails {
                bridge_transfer_id: details.bridge_transfer_id,
                hash_lock: details.hash_lock,
                amount: details.amount,
            })
        )))
    );
    assert_eq!(outcome.call, None);
    assert_eq!(outcome.consumed, 4);
    assert!(service
        .active_swaps_b1_to_b2
        .already_executing(&details.bridge_transfer_id));
}

#[test]
fn test_destination_completion_triggers_claim_and_removes_entry() {
    let mut service = BridgeService::new(3, 3);
    let details = transfer_details(1, 100, 5555);
    service.poll_next_turn(None, None, Some(initiated(details)), None);

    let outcome = service.poll_next_turn(None, None, None, Some(counterparty_completed(1, 909)));
    assert_eq!(
        outcome.output,
        Some(Event::B2C(CEvent::ContractEvent(
            BridgeContractCounterpartyEvent::Completed(CounterpartyCompletedDetails {
                bridge_transfer_id: BridgeTransferId { value: 1 },
                secret: BridgeSecret { value: 909 },
            })
        )))
    );
    assert_eq!(
        outcome.call,
        Some(DirectedCall {
            direction: Direction::OneToTwo,
            call: ContractCall::CompleteBridgeTransfer {
                bridge_transfer_id: BridgeTransferId { value: 1 },
                secret: BridgeSecret { value: 909 },
            },
        })
    );
    assert_eq!(outcome.consumed, 4);
    assert!(!service
        .active_swaps_b1_to_b2
        .already_executing(&BridgeTransferId { value: 1 }));

    // the claim call succeeds; the tracker surfaces the completed
    // progress event, which the orchestrator treats as informational
    let (event, redispatch) = service
        .active_swaps_b1_to_b2
        .handle_completion_outcome(BridgeTransferId { value: 1 }, Ok(()));
    assert_eq!(
        event,
        Some(ActiveSwapEvent::BridgeAssetsCompleted(BridgeTransferId { value: 1 }))
    );
    assert_eq!(redispatch, None);
    let outcome = service.poll_next_turn(event, None, None, None);
    assert_eq!(outcome.output, None);
    assert_eq!(outcome.call, None);
    assert_eq!(outcome.consumed, 4);
}

#[test]
fn test_completion_for_unknown_swap_is_critical_warning() {
    let mut service = BridgeService::new(3, 3);
    let outcome = service.poll_next_turn(None, None, None, Some(counterparty_completed(9, 1)));
    assert_eq!(
        outcome.output,
        Some(Event::B2C(CEvent::Warn(CWarn::CannotCompleteUnexistingSwap(
            CounterpartyCompletedDetails {
                bridge_transfer_id: BridgeTransferId { value: 9 },
                secret: BridgeSecret { value: 1 },
            }
        ))))
    );
    assert_eq!(outcome.call, None);
    assert_eq!(outcome.consumed, 4);
    assert!(!service
        .active_swaps_b1_to_b2
        .already_executing(&BridgeTransferId { value: 9 }));
    assert_eq!(service.active_swaps_b1_to_b2.active_swap_count(), 0);
}

#[test]
fn test_duplicate_initiation_warns_once_and_keeps_one_entry() {
    let mut service = BridgeService::new(3, 3);
    let details = transfer_details(1, 100, 5555);
    service.poll_next_turn(None, None, Some(initiated(details)), None);
    let outcome = service.poll_next_turn(None, None, Some(initiated(details)), None);
    assert_eq!(
        outcome.output,
        Some(Event::B1I(IEvent::Warn(IWarn::AlreadyPresent(details))))
    );
    assert_eq!(outcome.call, None);
    assert_eq!(outcome.consumed, 3);
    assert_eq!(service.active_swaps_b1_to_b2.active_swap_count(), 1);
}

#[test]
fn test_tracker_errors_surface_as_warnings() {
    let mut service = BridgeService::new(3, 3);
    let failure = CallErrorDetails {
        bridge_transfer_id: BridgeTransferId { value: 1 },
        error: ContractCallError { code: 8 },
    };
    let outcome = service.poll_next_turn(
        Some(ActiveSwapEvent::BridgeAssetsLockingError(failure)),
        None,
        None,
        None,
    );
    assert_eq!(
        outcome.output,
        Some(Event::Warn(TrackerWarn::LockingError(Direction::OneToTwo, failure)))
    );
    assert_eq!(outcome.call, None);
    assert_eq!(outcome.consumed, 1);

    // the mirror direction is handled alike
    let outcome = service.poll_next_turn(
        None,
        Some(ActiveSwapEvent::BridgeAssetsCompletingError(failure)),
        None,
        None,
    );
    assert_eq!(
        outcome.output,
        Some(Event::Warn(TrackerWarn::CompletingError(Direction::TwoToOne, failure)))
    );
    assert_eq!(outcome.call, None);
    assert_eq!(outcome.consumed, 2);
}

#[test]
fn test_informational_progress_produces_no_output() {
    let mut service = BridgeService::new(3, 3);
    let outcome = service.poll_next_turn(
        Some(ActiveSwapEvent::BridgeAssetsLocked(BridgeTransferId { value: 1 })),
        Some(ActiveSwapEvent::BridgeAssetsCompleted(BridgeTransferId { value: 2 })),
        None,
        None,
    );
    assert_eq!(outcome.output, None);
    assert_eq!(outcome.call, None);
    assert_eq!(outcome.consumed, 4);
}

#[test]
fn test_quiet_turn_reports_no_output() {
    let mut service = BridgeService::new(3, 3);
    let outcome = service.poll_next_turn(None, None, None, None);
    assert_eq!(outcome.output, None);
    assert_eq!(outcome.call, None);
    assert_eq!(outcome.consumed, 4);
}

#[test]
fn test_foreign_role_events_are_ignored() {
    let mut service = BridgeService::new(3, 3);

    // a counterparty event observed on chain one is not this
    // direction's trigger
    let stray = ContractEvent::CounterpartyEvent(BridgeContractCounterpartyEvent::Locked(
        LockedDetails {
            bridge_transfer_id: BridgeTransferId { value: 4 },
            hash_lock: BridgeHashLock { value: 1 },
            amount: 5,
        },
    ));
    let outcome = service.poll_next_turn(None, None, Some(stray), None);
    assert_eq!(outcome.output, None);
    assert_eq!(outcome.call, None);
    assert_eq!(outcome.consumed, 4);

    // an initiator event observed on chain two likewise
    let stray = initiated(transfer_details(5, 1, 2));
    let outcome = service.poll_next_turn(None, None, None, Some(stray));
    assert_eq!(outcome.output, None);
    assert_eq!(outcome.call, None);
    assert_eq!(outcome.consumed, 4);
    assert_eq!(service.active_swaps_b1_to_b2.active_swap_count(), 0);
    assert_eq!(service.active_swaps_b2_to_b1.active_swap_count(), 0);
}

#[test]
fn test_refunded_event_is_forwarded() {
    let mut service = BridgeService::new(3, 3);
    let refunded = ContractEvent::InitiatorEvent(BridgeContractInitiatorEvent::Refunded(
        bridge_shared::types::RefundedDetails {
            bridge_transfer_id: BridgeTransferId { value: 6 },
        },
    ));
    let outcome = service.poll_next_turn(None, None, Some(refunded), None);
    assert_eq!(
        outcome.output,
        Some(Event::B1I(IEvent::ContractEvent(
            BridgeContractInitiatorEvent::Refunded(bridge_shared::types::RefundedDetails {
                bridge_transfer_id: BridgeTransferId { value: 6 },
            })
        )))
    );
    assert_eq!(outcome.call, None);
    assert_eq!(outcome.consumed, 3);
}

#[test]
fn test_initiator_completion_is_forwarded() {
    let mut service = BridgeService::new(3, 3);
    let completed = ContractEvent::InitiatorEvent(BridgeContractInitiatorEvent::Completed(
        bridge_shared::types::InitiatorCompletedDetails {
            bridge_transfer_id: BridgeTransferId { value: 7 },
            secret: BridgeSecret { value: 3 },
        },
    ));
    let outcome = service.poll_next_turn(None, None, Some(completed), None);
    assert_eq!(
        outcome.output,
        Some(Event::B1I(IEvent::ContractEvent(
            BridgeContractInitiatorEvent::Completed(
                bridge_shared::types::InitiatorCompletedDetails {
                    bridge_transfer_id: BridgeTransferId { value: 7 },
                    secret: BridgeSecret { value: 3 },
                }
            )
        )))
    );
    assert_eq!(outcome.consumed, 3);
}

#[test]
fn test_turn_stops_at_first_output() {
    let mut service = BridgeService::new(3, 3);
    let failure = CallErrorDetails {
        bridge_transfer_id: BridgeTransferId { value: 1 },
        error: ContractCallError { code: 2 },
    };
    let details = transfer_details(8, 50, 60);
    // a tracker warning in slot one wins over a chain event in slot
    // three, which stays unconsumed for the next turn
    let outcome = service.poll_next_turn(
        Some(ActiveSwapEvent::BridgeAssetsLockingError(failure)),
        None,
        Some(initiated(details)),
        None,
    );
    assert_eq!(
        outcome.output,
        Some(Event::Warn(TrackerWarn::LockingError(Direction::OneToTwo, failure)))
    );
    assert_eq!(outcome.consumed, 1);
    assert_eq!(service.active_swaps_b1_to_b2.active_swap_count(), 0);
}
