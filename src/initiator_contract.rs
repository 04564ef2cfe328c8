use vstd::prelude::*;

use crate::crypto::{keccak256, keccak_of, random_bytes32};
use crate::ledger::Accounts;
use crate::types::{
    bytes32_eq, expired, id_sequence, ids_unique, index_of, lemma_index_of, time_lock_elapsed,
    with_sequence, Amount,
    BridgeTransferDetails, BridgeTransferId, HashLock, HashLockPreImage, InitiatorAddress,
    RecipientAddress, TimeLock, TransferState,
};

verus! {

/// A call on the initiator contract, as a chain adapter submits it.
#[derive(Clone, Debug)]
pub enum InitiatorCall {
    InitiateBridgeTransfer(InitiatorAddress, RecipientAddress, Amount, TimeLock, HashLock),
    CompleteBridgeTransfer(BridgeTransferId, HashLockPreImage),
}

/// Why an initiator-side operation failed.
#[derive(Clone, Copy, Debug, PartialEq, Eq, Structural)]
pub enum SmartContractInitiatorError {
    InitiateTransferError,
    TransferNotFound,
    InvalidHashLockPreImage,
    TransferAlreadyFinalized,
    TimeLockExpired,
    TimeLockNotExpired,
    BalanceOverflow,
}

/// One initiated transfer: its write-once details, where it stands, and the
/// clock reading at which it was created.
#[derive(Clone, Copy, Debug)]
pub struct InitiatorRecord {
    pub details: BridgeTransferDetails,
    pub state: TransferState,
    pub created_at: u64,
}

/// The in-memory reference initiator contract. The `i`-th record's identifier
/// ends with the sequence number `i`, which keeps identifiers distinct.
///
/// The locked amount of a transfer is held by the contract, outside the ledger:
/// completing the transfer releases it to the recipient, refunding it releases
/// it to the initiator, and each transfer releases it at most once.
#[derive(Clone, Debug)]
pub struct SmartContractInitiator {
    pub initiated_transfers: Vec<InitiatorRecord>,
    pub clock: u64,
}

/// The transfer identifiers of `s`, in order.
pub open spec fn initiator_ids(s: Seq<InitiatorRecord>) -> Seq<Seq<u8>> {
    s.map_values(|r: InitiatorRecord| r.details.bridge_transfer_id.0@)
}

/// The record of transfer `id` in `s`.
pub open spec fn initiator_record(s: Seq<InitiatorRecord>, id: Seq<u8>) -> InitiatorRecord {
    s[index_of(initiator_ids(s), id)]
}

/// `s` with the record of transfer `id` moved to state `st`.
pub open spec fn initiator_with_state(
    s: Seq<InitiatorRecord>,
    id: Seq<u8>,
    st: TransferState,
) -> Seq<InitiatorRecord> {
    let r = initiator_record(s, id);
    s.update(
        index_of(initiator_ids(s), id),
        InitiatorRecord { details: r.details, state: st, created_at: r.created_at },
    )
}

/// Whether `after` is `before` with `amount` added to the balance of `a` and
/// every other balance unchanged.
pub open spec fn credited(before: Accounts, after: Accounts, a: Seq<u8>, amount: nat) -> bool {
    &&& after.balance_of(a) == before.balance_of(a) + amount
    &&& forall|b: Seq<u8>| b != a ==> #[trigger] after.balance_of(b) == before.balance_of(b)
}

/// What completing transfer `id` with a secret of digest `digest` yields, at
/// clock reading `clock`, against ledger `ledger`.
pub open spec fn initiator_complete_outcome(
    s: Seq<InitiatorRecord>,
    clock: u64,
    id: Seq<u8>,
    digest: Seq<u8>,
    ledger: Accounts,
) -> Result<(), SmartContractInitiatorError> {
    if !initiator_ids(s).contains(id) {
        Err(SmartContractInitiatorError::TransferNotFound)
    } else {
        let r = initiator_record(s, id);
        if r.details.hash_lock.0@ != digest {
            Err(SmartContractInitiatorError::InvalidHashLockPreImage)
        } else if r.state != TransferState::Pending {
            Err(SmartContractInitiatorError::TransferAlreadyFinalized)
        } else if expired(r.created_at, r.details.time_lock.0, clock) {
            Err(SmartContractInitiatorError::TimeLockExpired)
        } else if ledger.balance_of(r.details.recipient_address.0@) + r.details.amount.0
            > u64::MAX {
            Err(SmartContractInitiatorError::BalanceOverflow)
        } else {
            Ok(())
        }
    }
}

/// What refunding transfer `id` yields at clock reading `clock`, against
/// ledger `ledger`.
pub open spec fn initiator_refund_outcome(
    s: Seq<InitiatorRecord>,
    clock: u64,
    id: Seq<u8>,
    ledger: Accounts,
) -> Result<(), SmartContractInitiatorError> {
    if !initiator_ids(s).contains(id) {
        Err(SmartContractInitiatorError::TransferNotFound)
    } else {
        let r = initiator_record(s, id);
        if r.state != TransferState::Pending {
            Err(SmartContractInitiatorError::TransferAlreadyFinalized)
        } else if !expired(r.created_at, r.details.time_lock.0, clock) {
            Err(SmartContractInitiatorError::TimeLockNotExpired)
        } else if ledger.balance_of(r.details.initiator_address.0@) + r.details.amount.0
            > u64::MAX {
            Err(SmartContractInitiatorError::BalanceOverflow)
        } else {
            Ok(())
        }
    }
}

impl SmartContractInitiator {
    /// The `i`-th record's identifier carries sequence number `i`, so no two
    /// records share an identifier.
    pub open spec fn wf(&self) -> bool {
        &&& forall|i: int|
            0 <= i < self.initiated_transfers@.len() ==> id_sequence(
                #[trigger] self.initiated_transfers@[i].details.bridge_transfer_id.0@,
            ) == i
        &&& ids_unique(initiator_ids(self.initiated_transfers@))
    }

    /// Whether a record for transfer `id` exists.
    pub open spec fn has_transfer(&self, id: Seq<u8>) -> bool {
        initiator_ids(self.initiated_transfers@).contains(id)
    }

    /// An empty contract whose clock reads zero.
    pub fn new() -> (r: SmartContractInitiator)
        ensures
            r.wf(),
            r.initiated_transfers@.len() == 0,
            r.clock == 0,
    {
        SmartContractInitiator { initiated_transfers: Vec::new(), clock: 0 }
    }

    /// The index of the record of transfer `id`, if there is one.
    fn position(&self, id: &BridgeTransferId) -> (r: Option<usize>)
        requires
            self.wf(),
        ensures
            r is None ==> !self.has_transfer(id.0@),
            r matches Some(i) ==> self.has_transfer(id.0@) && i as int == index_of(
                initiator_ids(self.initiated_transfers@),
                id.0@,
            ) && i < self.initiated_transfers@.len(),
    {
        let ghost ids = initiator_ids(self.initiated_transfers@);
        let mut i: usize = 0;
        while i < self.initiated_transfers.len()
            invariant
                i <= self.initiated_transfers@.len(),
                ids == initiator_ids(self.initiated_transfers@),
                ids_unique(ids),
                forall|j: int| 0 <= j < i ==> ids[j] != id.0@,
            decreases self.initiated_transfers@.len() - i,
        {
            if bytes32_eq(&self.initiated_transfers[i].details.bridge_transfer_id.0, &id.0) {
                proof {
                    lemma_index_of(ids, i as int);
                    assert(ids[i as int] == id.0@);
                }
                return Some(i);
            }
            i = i + 1;
        }
        None
    }

    /// Moves the clock forward to `now`; a reading behind the clock leaves it as it is.
    pub fn advance_clock(&mut self, now: u64)
        ensures
            final(self).clock == if now > old(self).clock { now } else { old(self).clock },
            final(self).initiated_transfers@ == old(self).initiated_transfers@,
    {
        if now > self.clock {
            self.clock = now;
        }
    }

    /// The details of transfer `id`, if it exists.
    pub fn get_bridge_transfer_details(&self, id: &BridgeTransferId) -> (r: Option<
        BridgeTransferDetails,
    >)
        requires
            self.wf(),
        ensures
            r is None <==> !self.has_transfer(id.0@),
            r matches Some(d) ==> d == initiator_record(self.initiated_transfers@, id.0@).details,
    {
        match self.position(id) {
            Some(i) => Some(self.initiated_transfers[i].details),
            None => None,
        }
    }

    /// Records a new transfer under an identifier made of the first 24 bytes of
    /// `entropy` and the record's sequence number. The identifier differs from
    /// every one already recorded. Fails, changing nothing, only once `u64`
    /// sequence numbers are spent.
    pub fn initiate_bridge_transfer_with_entropy(
        &mut self,
        entropy: [u8; 32],
        initiator: InitiatorAddress,
        recipient: RecipientAddress,
        amount: Amount,
        time_lock: TimeLock,
        hash_lock: HashLock,
    ) -> (r: Result<BridgeTransferId, SmartContractInitiatorError>)
        requires
            old(self).wf(),
        ensures
            final(self).wf(),
            r is Ok <==> old(self).initiated_transfers@.len() < u64::MAX,
            r matches Err(e) ==> e == SmartContractInitiatorError::InitiateTransferError
                && *final(self) == *old(self),
            r matches Ok(id) ==> id.0@.subrange(0, 24) == entropy@.subrange(0, 24) && id_sequence(
                id.0@,
            ) == old(self).initiated_transfers@.len() && !old(self).has_transfer(id.0@)
                && final(self).clock == old(self).clock && final(self).initiated_transfers@ == old(
                self,
            ).initiated_transfers@.push(
                InitiatorRecord {
                    details: BridgeTransferDetails {
                        bridge_transfer_id: id,
                        initiator_address: initiator,
                        recipient_address: recipient,
                        hash_lock,
                        time_lock,
                        amount,
                    },
                    state: TransferState::Pending,
                    created_at: old(self).clock,
                },
            ),
    {
        let n = self.initiated_transfers.len();
        if n as u128 >= u64::MAX as u128 {
            return Err(SmartContractInitiatorError::InitiateTransferError);
        }
        let id = BridgeTransferId(with_sequence(&entropy, n as u64));
        let ghost pre = self.initiated_transfers@;
        proof {
            assert forall|j: int| 0 <= j < pre.len() implies initiator_ids(pre)[j] != id.0@ by {
                assert(id_sequence(pre[j].details.bridge_transfer_id.0@) == j);
            }
        }
        let record = InitiatorRecord {
            details: BridgeTransferDetails {
                bridge_transfer_id: id,
                initiator_address: initiator,
                recipient_address: recipient,
                hash_lock,
                time_lock,
                amount,
            },
            state: TransferState::Pending,
            created_at: self.clock,
        };
        self.initiated_transfers.push(record);
        proof {
            assert(initiator_ids(self.initiated_transfers@) =~= initiator_ids(pre).push(id.0@));
            assert forall|i: int| 0 <= i < self.initiated_transfers@.len() implies id_sequence(
                #[trigger] self.initiated_transfers@[i].details.bridge_transfer_id.0@,
            ) == i by {
                if i < pre.len() {
                    assert(self.initiated_transfers@[i] == pre[i]);
                }
            }
        }
        Ok(id)
    }

    /// Records a new transfer under a fresh identifier: 24 randomly drawn bytes
    /// followed by the record's sequence number. The identifier differs from
    /// every one already recorded. Fails, changing nothing, only once `u64`
    /// sequence numbers are spent.
    pub fn initiate_bridge_transfer(
        &mut self,
        initiator: InitiatorAddress,
        recipient: RecipientAddress,
        amount: Amount,
        time_lock: TimeLock,
        hash_lock: HashLock,
    ) -> (r: Result<BridgeTransferId, SmartContractInitiatorError>)
        requires
            old(self).wf(),
        ensures
            final(self).wf(),
            r is Ok <==> old(self).initiated_transfers@.len() < u64::MAX,
            r matches Err(e) ==> e == SmartContractInitiatorError::InitiateTransferError
                && *final(self) == *old(self),
            r matches Ok(id) ==> id_sequence(id.0@) == old(self).initiated_transfers@.len()
                && !old(self).has_transfer(id.0@) && final(self).clock == old(self).clock
                && final(self).initiated_transfers@ == old(self).initiated_transfers@.push(
                InitiatorRecord {
                    details: BridgeTransferDetails {
                        bridge_transfer_id: id,
                        initiator_address: initiator,
                        recipient_address: recipient,
                        hash_lock,
                        time_lock,
                        amount,
                    },
                    state: TransferState::Pending,
                    created_at: old(self).clock,
                },
            ),
    {
        let entropy = random_bytes32();
        self.initiate_bridge_transfer_with_entropy(
            entropy,
            initiator,
            recipient,
            amount,
            time_lock,
            hash_lock,
        )
    }

    /// Completes transfer `transfer_id` with a secret whose digest is `digest`,
    /// crediting the recipient with the transfer's amount. On any failure
    /// neither the contract nor the ledger changes.
    pub fn complete_bridge_transfer_with_digest(
        &mut self,
        accounts: &mut Accounts,
        transfer_id: BridgeTransferId,
        digest: [u8; 32],
    ) -> (r: Result<(), SmartContractInitiatorError>)
        requires
            old(self).wf(),
            old(accounts).wf(),
        ensures
            final(self).wf(),
            final(accounts).wf(),
            r == initiator_complete_outcome(
                old(self).initiated_transfers@,
                old(self).clock,
                transfer_id.0@,
                digest@,
                *old(accounts),
            ),
            r is Ok ==> final(self).clock == old(self).clock && final(self).initiated_transfers@
                == initiator_with_state(
                old(self).initiated_transfers@,
                transfer_id.0@,
                TransferState::Completed,
            ) && credited(
                *old(accounts),
                *final(accounts),
                initiator_record(
                    old(self).initiated_transfers@,
                    transfer_id.0@,
                ).details.recipient_address.0@,
                initiator_record(old(self).initiated_transfers@, transfer_id.0@).details.amount.0
                    as nat,
            ),
            r is Err ==> *final(self) == *old(self) && *final(accounts) == *old(accounts),
    {
        let i = match self.position(&transfer_id) {
            Some(i) => i,
            None => {
                return Err(SmartContractInitiatorError::TransferNotFound);
            },
        };
        let rec = self.initiated_transfers[i];
        if !bytes32_eq(&rec.details.hash_lock.0, &digest) {
            return Err(SmartContractInitiatorError::InvalidHashLockPreImage);
        }
        if rec.state != TransferState::Pending {
            return Err(SmartContractInitiatorError::TransferAlreadyFinalized);
        }
        if time_lock_elapsed(rec.created_at, rec.details.time_lock, self.clock) {
            return Err(SmartContractInitiatorError::TimeLockExpired);
        }
        if !accounts.credit(&rec.details.recipient_address.0, rec.details.amount.0) {
            return Err(SmartContractInitiatorError::BalanceOverflow);
        }
        let ghost pre = self.initiated_transfers@;
        self.initiated_transfers.set(
            i,
            InitiatorRecord {
                details: rec.details,
                state: TransferState::Completed,
                created_at: rec.created_at,
            },
        );
        proof {
            assert(initiator_ids(self.initiated_transfers@) =~= initiator_ids(pre));
            assert forall|j: int| 0 <= j < self.initiated_transfers@.len() implies id_sequence(
                #[trigger] self.initiated_transfers@[j].details.bridge_transfer_id.0@,
            ) == j by {
                assert(self.initiated_transfers@[j].details == pre[j].details);
            }
        }
        Ok(())
    }

    /// Completes transfer `transfer_id` with `secret`: succeeds only where the
    /// Keccak-256 digest of the secret equals the transfer's hash lock.
    pub fn complete_bridge_transfer(
        &mut self,
        accounts: &mut Accounts,
        transfer_id: BridgeTransferId,
        secret: HashLockPreImage,
    ) -> (r: Result<(), SmartContractInitiatorError>)
        requires
            old(self).wf(),
            old(accounts).wf(),
        ensures
            final(self).wf(),
            final(accounts).wf(),
            r == initiator_complete_outcome(
                old(self).initiated_transfers@,
                old(self).clock,
                transfer_id.0@,
                keccak_of(secret.0@),
                *old(accounts),
            ),
            r is Ok ==> final(self).clock == old(self).clock && final(self).initiated_transfers@
                == initiator_with_state(
                old(self).initiated_transfers@,
                transfer_id.0@,
                TransferState::Completed,
            ) && credited(
                *old(accounts),
                *final(accounts),
                initiator_record(
                    old(self).initiated_transfers@,
                    transfer_id.0@,
                ).details.recipient_address.0@,
                initiator_record(old(self).initiated_transfers@, transfer_id.0@).details.amount.0
                    as nat,
            ),
            r is Err ==> *final(self) == *old(self) && *final(accounts) == *old(accounts),
    {
        let digest = keccak256(&secret.0);
        self.complete_bridge_transfer_with_digest(accounts, transfer_id, digest)
    }

    /// Refunds transfer `transfer_id` once its time lock has elapsed without a
    /// completion, crediting the initiator with the transfer's amount. On any
    /// failure neither the contract nor the ledger changes.
    pub fn refund_bridge_transfer(
        &mut self,
        accounts: &mut Accounts,
        transfer_id: BridgeTransferId,
    ) -> (r: Result<(), SmartContractInitiatorError>)
        requires
            old(self).wf(),
            old(accounts).wf(),
        ensures
            final(self).wf(),
            final(accounts).wf(),
            r == initiator_refund_outcome(
                old(self).initiated_transfers@,
                old(self).clock,
                transfer_id.0@,
                *old(accounts),
            ),
            r is Ok ==> final(self).clock == old(self).clock && final(self).initiated_transfers@
                == initiator_with_state(
                old(self).initiated_transfers@,
                transfer_id.0@,
                TransferState::Cancelled,
            ) && credited(
                *old(accounts),
                *final(accounts),
                initiator_record(
                    old(self).initiated_transfers@,
                    transfer_id.0@,
                ).details.initiator_address.0@,
                initiator_record(old(self).initiated_transfers@, transfer_id.0@).details.amount.0
                    as nat,
            ),
            r is Err ==> *final(self) == *old(self) && *final(accounts) == *old(accounts),
    {
        let i = match self.position(&transfer_id) {
            Some(i) => i,
            None => {
                return Err(SmartContractInitiatorError::TransferNotFound);
            },
        };
        let rec = self.initiated_transfers[i];
        if rec.state != TransferState::Pending {
            return Err(SmartContractInitiatorError::TransferAlreadyFinalized);
        }
        if !time_lock_elapsed(rec.created_at, rec.details.time_lock, self.clock) {
            return Err(SmartContractInitiatorError::TimeLockNotExpired);
        }
        if !accounts.credit(&rec.details.initiator_address.0, rec.details.amount.0) {
            return Err(SmartContractInitiatorError::BalanceOverflow);
        }
        let ghost pre = self.initiated_transfers@;
        self.initiated_transfers.set(
            i,
            InitiatorRecord {
                details: rec.details,
                state: TransferState::Cancelled,
                created_at: rec.created_at,
            },
        );
        proof {
            assert(initiator_ids(self.initiated_transfers@) =~= initiator_ids(pre));
            assert forall|j: int| 0 <= j < self.initiated_transfers@.len() implies id_sequence(
                #[trigger] self.initiated_transfers@[j].details.bridge_transfer_id.0@,
            ) == j by {
                assert(self.initiated_transfers@[j].details == pre[j].details);
            }
        }
        Ok(())
    }
}

impl Default for SmartContractInitiator {
    /// An empty contract whose clock reads zero.
    fn default() -> (r: SmartContractInitiator)
        ensures
            r.wf(),
            r.initiated_transfers@.len() == 0,
            r.clock == 0,
    {
        SmartContractInitiator::new()
    }
}

} // verus!
