use bridge_shared::counterparty_contract::{SmartContractCounterparty, SmartContractCounterpartyError};
use bridge_shared::initiator_contract::{SmartContractInitiator, SmartContractInitiatorError};
use bridge_shared::ledger::Accounts;
use bridge_shared::types::{
    bytes32_eq, Amount, BridgeTransferId, HashLock, HashLockPreImage, InitiatorAddress,
    RecipientAddress, TimeLock, TransferState,
};

const ALICE: [u8; 32] = [1u8; 32];
const BOB: [u8; 32] = [2u8; 32];
const CAROL: [u8; 32] = [3u8; 32];

const KECCAK_OF_EMPTY: [u8; 32] = [
    0xc5, 0xd2, 0x46, 0x01, 0x86, 0xf7, 0x23, 0x3c, 0x92, 0x7e, 0x7d, 0xb2, 0xdc, 0xc7, 0x03, 0xc0,
    0xe5, 0x00, 0xb6, 0x53, 0xca, 0x82, 0x27, 0x3b, 0x7b, 0xfa, 0xd8, 0x04, 0x5d, 0x85, 0xa4, 0x70,
];

fn hash_of(s: &str) -> HashLock {
    HashLock(keccak_hash::keccak(s.as_bytes()).0)
}

fn secret(s: &str) -> HashLockPreImage {
    HashLockPreImage(s.as_bytes().to_vec())
}

fn initiate(c: &mut SmartContractInitiator, amount: u64, time_lock: u64, lock: HashLock) -> BridgeTransferId {
    c.initiate_bridge_transfer(
        InitiatorAddress(ALICE),
        RecipientAddress(BOB),
        Amount(amount),
        TimeLock(time_lock),
        lock,
    )
    .expect("a fresh identifier")
}

#[test]
fn concrete_bridge_scenario() {
    let mut initiator = SmartContractInitiator::new();
    let mut counterparty = SmartContractCounterparty::new();
    let mut accounts = Accounts::new();
    let id = initiate(&mut initiator, 1_000_000, 100, hash_of("secret1"));
    counterparty
        .lock_bridge_transfer(id, hash_of("secret1"), TimeLock(100), RecipientAddress(BOB), Amount(1_000_000))
        .unwrap();
    let done = counterparty.complete_bridge_transfer(id, secret("secret1")).unwrap();
    assert!(bytes32_eq(&done.bridge_transfer_id.0, &id.0));
    assert_eq!(done.amount.0, 1_000_000);
    assert_eq!(done.secret.0, b"secret1".to_vec());
    initiator.complete_bridge_transfer(&mut accounts, id, done.secret.clone()).unwrap();
    assert_eq!(accounts.balance(&BOB), 1_000_000);
    assert_eq!(
        initiator.complete_bridge_transfer(&mut accounts, id, secret("secret2")),
        Err(SmartContractInitiatorError::InvalidHashLockPreImage)
    );
    assert_eq!(accounts.balance(&BOB), 1_000_000);
}

#[test]
fn expiry_scenario_abort_voids_lock() {
    let mut counterparty = SmartContractCounterparty::new();
    let id = BridgeTransferId([9u8; 32]);
    counterparty
        .lock_bridge_transfer(id, hash_of("s"), TimeLock(10), RecipientAddress(BOB), Amount(5))
        .unwrap();
    counterparty.advance_clock(9);
    assert_eq!(counterparty.abort_bridge_transfer(id), Err(SmartContractCounterpartyError::TimeLockNotExpired));
    counterparty.advance_clock(10);
    assert_eq!(counterparty.abort_bridge_transfer(id), Ok(()));
    assert_eq!(counterparty.locked_transfers[0].state, TransferState::Cancelled);
    assert_eq!(
        counterparty.complete_bridge_transfer(id, secret("s")).unwrap_err(),
        SmartContractCounterpartyError::TransferAlreadyFinalized
    );
    assert_eq!(
        counterparty.abort_bridge_transfer(id),
        Err(SmartContractCounterpartyError::TransferAlreadyFinalized)
    );
}

#[test]
fn generated_ids_are_distinct() {
    let mut c = SmartContractInitiator::new();
    let mut ids = Vec::new();
    for _ in 0..50 {
        ids.push(initiate(&mut c, 1, 10, hash_of("x")));
    }
    for i in 0..ids.len() {
        for j in 0..ids.len() {
            if i != j {
                assert_ne!(ids[i].0, ids[j].0);
            }
        }
    }
    assert_eq!(c.initiated_transfers.len(), 50);
}

#[test]
fn identifiers_carry_sequence_numbers() {
    let mut c = SmartContractInitiator::new();
    let first = c
        .initiate_bridge_transfer_with_entropy([4u8; 32], InitiatorAddress(ALICE), RecipientAddress(BOB), Amount(1), TimeLock(1), hash_of("a"))
        .unwrap();
    let second = c
        .initiate_bridge_transfer_with_entropy([4u8; 32], InitiatorAddress(ALICE), RecipientAddress(CAROL), Amount(2), TimeLock(2), hash_of("b"))
        .unwrap();
    let mut expected = [4u8; 32];
    expected[24..].copy_from_slice(&0u64.to_be_bytes());
    assert_eq!(first.0, expected);
    expected[24..].copy_from_slice(&1u64.to_be_bytes());
    assert_eq!(second.0, expected);
    assert_eq!(c.initiated_transfers.len(), 2);
    let d = c.get_bridge_transfer_details(&first).unwrap();
    assert_eq!(d.amount.0, 1);
    assert_eq!(d.recipient_address.0, BOB);
    assert_eq!(c.get_bridge_transfer_details(&second).unwrap().recipient_address.0, CAROL);
}

#[test]
fn one_initiation_creates_its_record() {
    let mut c = SmartContractInitiator::new();
    let id = initiate(&mut c, 1_000_000, 100, hash_of("secret1"));
    assert_eq!(c.initiated_transfers.len(), 1);
    let d = c.initiated_transfers[0].details;
    assert_eq!(d.bridge_transfer_id.0, id.0);
    assert_eq!(d.amount.0, 1_000_000);
    assert_eq!(d.time_lock.0, 100);
    assert_eq!(d.hash_lock.0, hash_of("secret1").0);
    assert_eq!(d.recipient_address.0, BOB);
    assert_eq!(d.initiator_address.0, ALICE);
    assert_eq!(c.initiated_transfers[0].state, TransferState::Pending);
}

#[test]
fn wrong_preimage_changes_no_balance() {
    let mut c = SmartContractInitiator::new();
    let mut accounts = Accounts::new();
    accounts.credit(&BOB, 7);
    let id = initiate(&mut c, 100, 10, hash_of("right"));
    assert_eq!(
        c.complete_bridge_transfer(&mut accounts, id, secret("wrong")),
        Err(SmartContractInitiatorError::InvalidHashLockPreImage)
    );
    assert_eq!(accounts.balance(&BOB), 7);
    assert_eq!(c.initiated_transfers[0].state, TransferState::Pending);
    assert_eq!(c.complete_bridge_transfer(&mut accounts, id, secret("right")), Ok(()));
    assert_eq!(accounts.balance(&BOB), 107);
}

#[test]
fn completion_credits_only_the_recipient() {
    let mut c = SmartContractInitiator::new();
    let mut accounts = Accounts::new();
    accounts.credit(&ALICE, 40);
    accounts.credit(&CAROL, 3);
    let id = initiate(&mut c, 250, 10, hash_of("k"));
    c.complete_bridge_transfer(&mut accounts, id, secret("k")).unwrap();
    assert_eq!(accounts.balance(&BOB), 250);
    assert_eq!(accounts.balance(&ALICE), 40);
    assert_eq!(accounts.balance(&CAROL), 3);
}

#[test]
fn complete_unknown_transfer_fails() {
    let mut c = SmartContractInitiator::new();
    let mut accounts = Accounts::new();
    assert_eq!(
        c.complete_bridge_transfer(&mut accounts, BridgeTransferId([0u8; 32]), secret("a")),
        Err(SmartContractInitiatorError::TransferNotFound)
    );
    assert!(c.get_bridge_transfer_details(&BridgeTransferId([0u8; 32])).is_none());
}

#[test]
fn completion_uses_keccak_of_secret() {
    let mut c = SmartContractInitiator::new();
    let mut accounts = Accounts::new();
    let id = initiate(&mut c, 3, 10, HashLock(KECCAK_OF_EMPTY));
    assert_eq!(
        c.complete_bridge_transfer(&mut accounts, id, HashLockPreImage(KECCAK_OF_EMPTY.to_vec())),
        Err(SmartContractInitiatorError::InvalidHashLockPreImage)
    );
    assert_eq!(c.complete_bridge_transfer(&mut accounts, id, HashLockPreImage(Vec::new())), Ok(()));
    assert_eq!(accounts.balance(&BOB), 3);
}

#[test]
fn second_completion_fails_as_finalized() {
    let mut c = SmartContractInitiator::new();
    let mut accounts = Accounts::new();
    let id = initiate(&mut c, 3, 10, hash_of("z"));
    c.complete_bridge_transfer(&mut accounts, id, secret("z")).unwrap();
    assert_eq!(
        c.complete_bridge_transfer(&mut accounts, id, secret("z")),
        Err(SmartContractInitiatorError::TransferAlreadyFinalized)
    );
    assert_eq!(accounts.balance(&BOB), 3);
}

#[test]
fn completion_after_expiry_fails() {
    let mut c = SmartContractInitiator::new();
    let mut accounts = Accounts::new();
    let id = initiate(&mut c, 3, 10, hash_of("z"));
    c.advance_clock(10);
    assert_eq!(
        c.complete_bridge_transfer(&mut accounts, id, secret("z")),
        Err(SmartContractInitiatorError::TimeLockExpired)
    );
    assert_eq!(accounts.balance(&BOB), 0);
}

#[test]
fn completion_that_would_overflow_fails() {
    let mut c = SmartContractInitiator::new();
    let mut accounts = Accounts::new();
    assert!(accounts.credit(&BOB, u64::MAX));
    let id = initiate(&mut c, 1, 10, hash_of("z"));
    assert_eq!(
        c.complete_bridge_transfer(&mut accounts, id, secret("z")),
        Err(SmartContractInitiatorError::BalanceOverflow)
    );
    assert_eq!(accounts.balance(&BOB), u64::MAX);
    assert_eq!(c.initiated_transfers[0].state, TransferState::Pending);
}

#[test]
fn refund_is_gated_by_expiry_and_happens_once() {
    let mut c = SmartContractInitiator::new();
    let mut accounts = Accounts::new();
    accounts.credit(&CAROL, 9);
    let id = initiate(&mut c, 3, 10, hash_of("z"));
    c.advance_clock(4);
    assert_eq!(c.refund_bridge_transfer(&mut accounts, id), Err(SmartContractInitiatorError::TimeLockNotExpired));
    assert_eq!(accounts.balance(&ALICE), 0);
    c.advance_clock(10);
    assert_eq!(c.refund_bridge_transfer(&mut accounts, id), Ok(()));
    assert_eq!(accounts.balance(&ALICE), 3);
    assert_eq!(accounts.balance(&BOB), 0);
    assert_eq!(accounts.balance(&CAROL), 9);
    assert_eq!(
        c.refund_bridge_transfer(&mut accounts, id),
        Err(SmartContractInitiatorError::TransferAlreadyFinalized)
    );
    assert_eq!(accounts.balance(&ALICE), 3);
    assert_eq!(
        c.complete_bridge_transfer(&mut accounts, id, secret("z")),
        Err(SmartContractInitiatorError::TransferAlreadyFinalized)
    );
    assert_eq!(
        c.refund_bridge_transfer(&mut accounts, BridgeTransferId([8u8; 32])),
        Err(SmartContractInitiatorError::TransferNotFound)
    );
}

#[test]
fn completed_transfer_cannot_be_refunded() {
    let mut c = SmartContractInitiator::new();
    let mut accounts = Accounts::new();
    let id = initiate(&mut c, 3, 10, hash_of("z"));
    c.complete_bridge_transfer(&mut accounts, id, secret("z")).unwrap();
    c.advance_clock(50);
    assert_eq!(
        c.refund_bridge_transfer(&mut accounts, id),
        Err(SmartContractInitiatorError::TransferAlreadyFinalized)
    );
    assert_eq!(accounts.balance(&ALICE), 0);
    assert_eq!(accounts.balance(&BOB), 3);
}

#[test]
fn refund_that_would_overflow_fails() {
    let mut c = SmartContractInitiator::new();
    let mut accounts = Accounts::new();
    assert!(accounts.credit(&ALICE, u64::MAX));
    let id = initiate(&mut c, 1, 0, hash_of("z"));
    assert_eq!(c.refund_bridge_transfer(&mut accounts, id), Err(SmartContractInitiatorError::BalanceOverflow));
    assert_eq!(c.initiated_transfers[0].state, TransferState::Pending);
}

#[test]
fn clock_never_moves_back() {
    let mut c = SmartContractInitiator::new();
    c.advance_clock(20);
    c.advance_clock(5);
    assert_eq!(c.clock, 20);
    let id = initiate(&mut c, 3, 10, hash_of("z"));
    assert_eq!(c.initiated_transfers[0].created_at, 20);
    let mut accounts = Accounts::new();
    c.advance_clock(29);
    assert_eq!(c.refund_bridge_transfer(&mut accounts, id), Err(SmartContractInitiatorError::TimeLockNotExpired));
    c.advance_clock(30);
    assert_eq!(c.refund_bridge_transfer(&mut accounts, id), Ok(()));
}

#[test]
fn duplicate_lock_is_refused() {
    let mut c = SmartContractCounterparty::new();
    let id = BridgeTransferId([5u8; 32]);
    assert_eq!(c.lock_bridge_transfer(id, hash_of("a"), TimeLock(3), RecipientAddress(BOB), Amount(1)), Ok(()));
    assert_eq!(
        c.lock_bridge_transfer(id, hash_of("b"), TimeLock(4), RecipientAddress(CAROL), Amount(2)),
        Err(SmartContractCounterpartyError::TransferAlreadyExists)
    );
    let d = c.get_bridge_transfer_details(&id).unwrap();
    assert_eq!(d.amount.0, 1);
    assert_eq!(d.time_lock.0, 3);
}

#[test]
fn counterparty_completion_errors() {
    let mut c = SmartContractCounterparty::new();
    let id = BridgeTransferId([5u8; 32]);
    assert_eq!(
        c.complete_bridge_transfer(id, secret("a")).unwrap_err(),
        SmartContractCounterpartyError::TransferNotFound
    );
    c.lock_bridge_transfer(id, hash_of("a"), TimeLock(3), RecipientAddress(BOB), Amount(1)).unwrap();
    assert_eq!(
        c.complete_bridge_transfer(id, secret("b")).unwrap_err(),
        SmartContractCounterpartyError::InvalidHashLockPreImage
    );
    c.advance_clock(3);
    assert_eq!(
        c.complete_bridge_transfer(id, secret("a")).unwrap_err(),
        SmartContractCounterpartyError::TimeLockExpired
    );
    assert_eq!(c.abort_bridge_transfer(BridgeTransferId([6u8; 32])), Err(SmartContractCounterpartyError::TransferNotFound));
}

#[test]
fn aborted_lock_stays_void_when_secret_surfaces() {
    let mut c = SmartContractCounterparty::new();
    let id = BridgeTransferId([7u8; 32]);
    c.lock_bridge_transfer(id, hash_of("late"), TimeLock(1), RecipientAddress(BOB), Amount(1)).unwrap();
    c.advance_clock(1);
    c.abort_bridge_transfer(id).unwrap();
    assert_eq!(
        c.complete_bridge_transfer(id, secret("late")).unwrap_err(),
        SmartContractCounterpartyError::TransferAlreadyFinalized
    );
}

#[test]
fn ledger_credits_accumulate() {
    let mut a = Accounts::new();
    assert_eq!(a.balance(&ALICE), 0);
    assert!(a.credit(&ALICE, 5));
    assert!(a.credit(&ALICE, 6));
    assert!(a.credit(&BOB, 1));
    assert_eq!(a.balance(&ALICE), 11);
    assert_eq!(a.entries.len(), 2);
    assert!(!a.credit(&ALICE, u64::MAX));
    assert_eq!(a.balance(&ALICE), 11);
}
