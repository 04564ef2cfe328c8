use bridge_shared::bridge_monitoring::{
    BridgeContractCounterpartyEvent, BridgeContractCounterpartyMonitoring,
    BridgeContractInitiatorEvent, BridgeContractInitiatorMonitoring, EventChannel,
};
use bridge_shared::relayer::{RelayerAction, RelayerEvent, TransferPhase, TransferProgress};
use bridge_shared::scenario::BasicScenario;
use bridge_shared::types::{
    Amount, BridgeTransferDetails, BridgeTransferId, CompletedDetails, HashLock, HashLockPreImage,
    InitiatorAddress, LockDetails, RecipientAddress, TimeLock,
};

fn details(time_lock: u64) -> BridgeTransferDetails {
    BridgeTransferDetails {
        bridge_transfer_id: BridgeTransferId([1u8; 32]),
        initiator_address: InitiatorAddress([2u8; 32]),
        recipient_address: RecipientAddress([3u8; 32]),
        hash_lock: HashLock([4u8; 32]),
        time_lock: TimeLock(time_lock),
        amount: Amount(1_000_000),
    }
}

#[test]
fn events_name_their_transfer() {
    let e = BridgeContractInitiatorEvent::Initiated(details(10));
    assert_eq!(e.bridge_transfer_id().0, [1u8; 32]);
    assert_eq!(BridgeContractInitiatorEvent::Completed(BridgeTransferId([7u8; 32])).bridge_transfer_id().0, [7u8; 32]);
    assert_eq!(BridgeContractInitiatorEvent::Refunded(BridgeTransferId([8u8; 32])).bridge_transfer_id().0, [8u8; 32]);
    let lock = LockDetails {
        bridge_transfer_id: BridgeTransferId([5u8; 32]),
        recipient_address: RecipientAddress([3u8; 32]),
        hash_lock: HashLock([4u8; 32]),
        time_lock: TimeLock(5),
        amount: Amount(1),
    };
    assert_eq!(BridgeContractCounterpartyEvent::Locked(lock).bridge_transfer_id().0, [5u8; 32]);
    let done = CompletedDetails {
        bridge_transfer_id: BridgeTransferId([6u8; 32]),
        recipient_address: RecipientAddress([3u8; 32]),
        hash_lock: HashLock([4u8; 32]),
        secret: HashLockPreImage(b"s".to_vec()),
        amount: Amount(1),
    };
    assert_eq!(BridgeContractCounterpartyEvent::Completed(done).bridge_transfer_id().0, [6u8; 32]);
}

#[test]
fn channel_is_fifo_and_bounded() {
    let mut ch: EventChannel<BridgeContractInitiatorEvent> = EventChannel::new(2);
    assert!(ch.next_event().is_none());
    assert!(ch.send(BridgeContractInitiatorEvent::Completed(BridgeTransferId([1u8; 32]))).is_ok());
    assert!(ch.send(BridgeContractInitiatorEvent::Refunded(BridgeTransferId([2u8; 32]))).is_ok());
    let refused = ch.send(BridgeContractInitiatorEvent::Completed(BridgeTransferId([3u8; 32])));
    assert_eq!(refused.unwrap_err().bridge_transfer_id().0, [3u8; 32]);
    assert_eq!(ch.len(), 2);
    assert_eq!(ch.next_event().unwrap().bridge_transfer_id().0, [1u8; 32]);
    assert_eq!(ch.next_event().unwrap().bridge_transfer_id().0, [2u8; 32]);
    assert!(ch.next_event().is_none());
    let mut cc: EventChannel<BridgeContractCounterpartyEvent> = EventChannel::new(0);
    assert!(BridgeContractCounterpartyMonitoring::next_event(&mut cc).is_none());
}

#[test]
fn relayer_mirrors_a_completion() {
    let (t, a) = TransferProgress::on_initiated(details(100), TimeLock(50), 0);
    assert_eq!(t.phase, TransferPhase::Initiated);
    match a {
        RelayerAction::LockBridgeTransferAssets(l) => {
            assert_eq!(l.time_lock.0, 50);
            assert_eq!(l.amount.0, 1_000_000);
            assert_eq!(l.bridge_transfer_id.0, [1u8; 32]);
        }
        other => panic!("unexpected {:?}", other),
    }
    let (t, _) = t.step(RelayerEvent::Locked);
    assert_eq!(t.phase, TransferPhase::Locked);
    let (t, a) = t.step(RelayerEvent::CounterpartyCompleted(HashLockPreImage(b"secret1".to_vec())));
    assert_eq!(t.phase, TransferPhase::Completing);
    match a {
        RelayerAction::CompleteBridgeTransfer(id, s) => {
            assert_eq!(id.0, [1u8; 32]);
            assert_eq!(s.0, b"secret1".to_vec());
        }
        other => panic!("unexpected {:?}", other),
    }
    let (t, _) = t.step(RelayerEvent::InitiatorCompleted);
    assert_eq!(t.phase, TransferPhase::Completed);
    let (t2, a) = t.step(RelayerEvent::Tick(1_000));
    assert_eq!(t2.phase, TransferPhase::Completed);
    assert!(matches!(a, RelayerAction::Nothing));
}

#[test]
fn relayer_rolls_back_after_expiry() {
    let (t, _) = TransferProgress::on_initiated(details(100), TimeLock(10), 5);
    let (t, _) = t.step(RelayerEvent::Locked);
    let (t, a) = t.step(RelayerEvent::Tick(14));
    assert_eq!(t.phase, TransferPhase::Locked);
    assert!(matches!(a, RelayerAction::Nothing));
    let (t, a) = t.step(RelayerEvent::Tick(15));
    assert_eq!(t.phase, TransferPhase::Aborting);
    assert!(matches!(a, RelayerAction::AbortBridgeTransfer(_)));
    let (t, _) = t.step(RelayerEvent::Aborted);
    assert_eq!(t.phase, TransferPhase::Aborted);
    let (t, a) = t.step(RelayerEvent::Tick(104));
    assert!(matches!(a, RelayerAction::Nothing));
    let (t, a) = t.step(RelayerEvent::Tick(105));
    assert_eq!(t.phase, TransferPhase::Refunding);
    assert!(matches!(a, RelayerAction::RefundBridgeTransfer(_)));
    let (t, _) = t.step(RelayerEvent::Refunded);
    assert_eq!(t.phase, TransferPhase::Refunded);
}

#[test]
fn relayer_refuses_unsafe_time_locks_and_reports_failures() {
    let (t, a) = TransferProgress::on_initiated(details(10), TimeLock(10), 0);
    assert_eq!(t.phase, TransferPhase::Stalled);
    assert!(matches!(a, RelayerAction::ReportStalled(_)));
    let (t, _) = TransferProgress::on_initiated(details(10), TimeLock(5), 0);
    let (t, a) = t.step(RelayerEvent::CallFailed);
    assert_eq!(t.phase, TransferPhase::Stalled);
    assert!(matches!(a, RelayerAction::ReportStalled(_)));
}

#[test]
fn scenario_keeps_its_number() {
    assert_eq!(BasicScenario::new(7).id, 7);
}
