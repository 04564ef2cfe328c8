use vstd::prelude::*;

use crate::crypto::{keccak256, keccak_of};
use crate::types::{
    bytes32_eq, expired, ids_unique, index_of, lemma_index_of, time_lock_elapsed, Amount,
    BridgeTransferId, CompletedDetails, HashLock, HashLockPreImage, LockDetails, RecipientAddress,
    TimeLock, TransferState,
};

verus! {

/// A call on the counterparty contract, as a chain adapter submits it.
#[derive(Clone, Copy, Debug)]
pub enum CounterpartyCall {
    LockBridgeTransfer(BridgeTransferId, HashLock, TimeLock, RecipientAddress, Amount),
}

/// Why a counterparty-side operation failed.
#[derive(Clone, Copy, Debug, PartialEq, Eq, Structural)]
pub enum SmartContractCounterpartyError {
    TransferAlreadyExists,
    TransferNotFound,
    InvalidHashLockPreImage,
    TransferAlreadyFinalized,
    TimeLockExpired,
    TimeLockNotExpired,
}

/// One lock: its write-once details, where it stands, and the clock reading
/// at which it was placed.
#[derive(Clone, Copy, Debug)]
pub struct CounterpartyRecord {
    pub details: LockDetails,
    pub state: TransferState,
    pub created_at: u64,
}

/// The in-memory reference counterparty contract. A lock is placed once per
/// identifier: a second lock under the same identifier is refused. An aborted
/// lock can no longer be completed.
#[derive(Clone, Debug)]
pub struct SmartContractCounterparty {
    pub locked_transfers: Vec<CounterpartyRecord>,
    pub clock: u64,
}

/// The transfer identifiers of `s`, in order.
pub open spec fn counterparty_ids(s: Seq<CounterpartyRecord>) -> Seq<Seq<u8>> {
    s.map_values(|r: CounterpartyRecord| r.details.bridge_transfer_id.0@)
}

/// The record of transfer `id` in `s`.
pub open spec fn counterparty_record(s: Seq<CounterpartyRecord>, id: Seq<u8>) -> CounterpartyRecord {
    s[index_of(counterparty_ids(s), id)]
}

/// `s` with the record of transfer `id` moved to state `st`.
pub open spec fn counterparty_with_state(
    s: Seq<CounterpartyRecord>,
    id: Seq<u8>,
    st: TransferState,
) -> Seq<CounterpartyRecord> {
    let r = counterparty_record(s, id);
    s.update(
        index_of(counterparty_ids(s), id),
        CounterpartyRecord { details: r.details, state: st, created_at: r.created_at },
    )
}

/// What completing lock `id` with a secret of digest `digest` yields at clock
/// reading `clock`.
pub open spec fn counterparty_complete_outcome(
    s: Seq<CounterpartyRecord>,
    clock: u64,
    id: Seq<u8>,
    digest: Seq<u8>,
) -> Result<(), SmartContractCounterpartyError> {
    if !counterparty_ids(s).contains(id) {
        Err(SmartContractCounterpartyError::TransferNotFound)
    } else {
        let r = counterparty_record(s, id);
        if r.details.hash_lock.0@ != digest {
            Err(SmartContractCounterpartyError::InvalidHashLockPreImage)
        } else if r.state != TransferState::Pending {
            Err(SmartContractCounterpartyError::TransferAlreadyFinalized)
        } else if expired(r.created_at, r.details.time_lock.0, clock) {
            Err(SmartContractCounterpartyError::TimeLockExpired)
        } else {
            Ok(())
        }
    }
}

/// What aborting lock `id` yields at clock reading `clock`.
pub open spec fn counterparty_abort_outcome(
    s: Seq<CounterpartyRecord>,
    clock: u64,
    id: Seq<u8>,
) -> Result<(), SmartContractCounterpartyError> {
    if !counterparty_ids(s).contains(id) {
        Err(SmartContractCounterpartyError::TransferNotFound)
    } else {
        let r = counterparty_record(s, id);
        if r.state != TransferState::Pending {
            Err(SmartContractCounterpartyError::TransferAlreadyFinalized)
        } else if !expired(r.created_at, r.details.time_lock.0, clock) {
            Err(SmartContractCounterpartyError::TimeLockNotExpired)
        } else {
            Ok(())
        }
    }
}

impl SmartContractCounterparty {
    /// No two records share a transfer identifier.
    pub open spec fn wf(&self) -> bool {
        ids_unique(counterparty_ids(self.locked_transfers@))
    }

    /// Whether a lock for transfer `id` exists.
    pub open spec fn has_transfer(&self, id: Seq<u8>) -> bool {
        counterparty_ids(self.locked_transfers@).contains(id)
    }

    /// An empty contract whose clock reads zero.
    pub fn new() -> (r: SmartContractCounterparty)
        ensures
            r.wf(),
            r.locked_transfers@.len() == 0,
            r.clock == 0,
    {
        SmartContractCounterparty { locked_transfers: Vec::new(), clock: 0 }
    }

    /// The index of the record of transfer `id`, if there is one.
    fn position(&self, id: &BridgeTransferId) -> (r: Option<usize>)
        requires
            self.wf(),
        ensures
            r is None ==> !self.has_transfer(id.0@),
            r matches Some(i) ==> self.has_transfer(id.0@) && i as int == index_of(
                counterparty_ids(self.locked_transfers@),
                id.0@,
            ) && i < self.locked_transfers@.len(),
    {
        let ghost ids = counterparty_ids(self.locked_transfers@);
        let mut i: usize = 0;
        while i < self.locked_transfers.len()
            invariant
                i <= self.locked_transfers@.len(),
                ids == counterparty_ids(self.locked_transfers@),
                ids_unique(ids),
                forall|j: int| 0 <= j < i ==> ids[j] != id.0@,
            decreases self.locked_transfers@.len() - i,
        {
            if bytes32_eq(&self.locked_transfers[i].details.bridge_transfer_id.0, &id.0) {
                proof {
                    lemma_index_of(ids, i as int);
                }
                return Some(i);
            }
            i = i + 1;
        }
        None
    }

    /// Moves the clock forward to `now`; a reading behind the clock leaves it as it is.
    pub fn advance_clock(&mut self, now: u64)
        ensures
            final(self).clock == if now > old(self).clock { now } else { old(self).clock },
            final(self).locked_transfers@ == old(self).locked_transfers@,
    {
        if now > self.clock {
            self.clock = now;
        }
    }

    /// The details of lock `id`, if it exists.
    pub fn get_bridge_transfer_details(&self, id: &BridgeTransferId) -> (r: Option<LockDetails>)
        requires
            self.wf(),
        ensures
            r is None <==> !self.has_transfer(id.0@),
            r matches Some(d) ==> d == counterparty_record(self.locked_transfers@, id.0@).details,
    {
        match self.position(id) {
            Some(i) => Some(self.locked_transfers[i].details),
            None => None,
        }
    }

    /// Places a lock for the recipient under `bridge_transfer_id`. Fails with
    /// `TransferAlreadyExists`, changing nothing, where that identifier is taken.
    pub fn lock_bridge_transfer(
        &mut self,
        bridge_transfer_id: BridgeTransferId,
        hash_lock: HashLock,
        time_lock: TimeLock,
        recipient_address: RecipientAddress,
        amount: Amount,
    ) -> (r: Result<(), SmartContractCounterpartyError>)
        requires
            old(self).wf(),
        ensures
            final(self).wf(),
            r is Err <==> old(self).has_transfer(bridge_transfer_id.0@),
            r matches Err(e) ==> e == SmartContractCounterpartyError::TransferAlreadyExists
                && *final(self) == *old(self),
            r is Ok ==> final(self).clock == old(self).clock && final(self).locked_transfers@
                == old(self).locked_transfers@.push(
                CounterpartyRecord {
                    details: LockDetails {
                        bridge_transfer_id,
                        recipient_address,
                        hash_lock,
                        time_lock,
                        amount,
                    },
                    state: TransferState::Pending,
                    created_at: old(self).clock,
                },
            ),
    {
        if self.position(&bridge_transfer_id).is_some() {
            return Err(SmartContractCounterpartyError::TransferAlreadyExists);
        }
        let ghost pre = counterparty_ids(self.locked_transfers@);
        let record = CounterpartyRecord {
            details: LockDetails {
                bridge_transfer_id,
                recipient_address,
                hash_lock,
                time_lock,
                amount,
            },
            state: TransferState::Pending,
            created_at: self.clock,
        };
        self.locked_transfers.push(record);
        proof {
            assert(counterparty_ids(self.locked_transfers@) =~= pre.push(bridge_transfer_id.0@));
        }
        Ok(())
    }

    /// Completes lock `transfer_id` with `secret`, whose digest is `digest`,
    /// and hands back the completed record. On failure nothing changes.
    pub fn complete_bridge_transfer_with_digest(
        &mut self,
        transfer_id: BridgeTransferId,
        secret: HashLockPreImage,
        digest: [u8; 32],
    ) -> (r: Result<CompletedDetails, SmartContractCounterpartyError>)
        requires
            old(self).wf(),
        ensures
            final(self).wf(),
            r.is_ok() == counterparty_complete_outcome(
                old(self).locked_transfers@,
                old(self).clock,
                transfer_id.0@,
                digest@,
            ).is_ok(),
            r matches Err(e) ==> Err::<(), _>(e) == counterparty_complete_outcome(
                old(self).locked_transfers@,
                old(self).clock,
                transfer_id.0@,
                digest@,
            ) && *final(self) == *old(self),
            r matches Ok(c) ==> final(self).clock == old(self).clock && final(self).locked_transfers@
                == counterparty_with_state(
                old(self).locked_transfers@,
                transfer_id.0@,
                TransferState::Completed,
            ) && completed_from(
                c,
                counterparty_record(old(self).locked_transfers@, transfer_id.0@).details,
                secret.0@,
            ),
    {
        let i = match self.position(&transfer_id) {
            Some(i) => i,
            None => {
                return Err(SmartContractCounterpartyError::TransferNotFound);
            },
        };
        let rec = self.locked_transfers[i];
        if !bytes32_eq(&rec.details.hash_lock.0, &digest) {
            return Err(SmartContractCounterpartyError::InvalidHashLockPreImage);
        }
        if rec.state != TransferState::Pending {
            return Err(SmartContractCounterpartyError::TransferAlreadyFinalized);
        }
        if time_lock_elapsed(rec.created_at, rec.details.time_lock, self.clock) {
            return Err(SmartContractCounterpartyError::TimeLockExpired);
        }
        let ghost pre = self.locked_transfers@;
        self.locked_transfers.set(
            i,
            CounterpartyRecord {
                details: rec.details,
                state: TransferState::Completed,
                created_at: rec.created_at,
            },
        );
        proof {
            assert(counterparty_ids(self.locked_transfers@) =~= counterparty_ids(pre));
        }
        Ok(
            CompletedDetails {
                bridge_transfer_id: rec.details.bridge_transfer_id,
                recipient_address: rec.details.recipient_address,
                hash_lock: rec.details.hash_lock,
                secret,
                amount: rec.details.amount,
            },
        )
    }

    /// Completes lock `transfer_id` with `secret`: succeeds only where the
    /// Keccak-256 digest of the secret equals the lock's hash lock.
    pub fn complete_bridge_transfer(
        &mut self,
        transfer_id: BridgeTransferId,
        secret: HashLockPreImage,
    ) -> (r: Result<CompletedDetails, SmartContractCounterpartyError>)
        requires
            old(self).wf(),
        ensures
            final(self).wf(),
            r.is_ok() == counterparty_complete_outcome(
                old(self).locked_transfers@,
                old(self).clock,
                transfer_id.0@,
                keccak_of(secret.0@),
            ).is_ok(),
            r matches Err(e) ==> Err::<(), _>(e) == counterparty_complete_outcome(
                old(self).locked_transfers@,
                old(self).clock,
                transfer_id.0@,
                keccak_of(secret.0@),
            ) && *final(self) == *old(self),
            r matches Ok(c) ==> final(self).clock == old(self).clock && final(self).locked_transfers@
                == counterparty_with_state(
                old(self).locked_transfers@,
                transfer_id.0@,
                TransferState::Completed,
            ) && completed_from(
                c,
                counterparty_record(old(self).locked_transfers@, transfer_id.0@).details,
                secret.0@,
            ),
    {
        let digest = keccak256(&secret.0);
        self.complete_bridge_transfer_with_digest(transfer_id, secret, digest)
    }

    /// Releases lock `transfer_id` without moving funds, once its time lock has
    /// elapsed without a completion. On failure nothing changes.
    pub fn abort_bridge_transfer(&mut self, transfer_id: BridgeTransferId) -> (r: Result<
        (),
        SmartContractCounterpartyError,
    >)
        requires
            old(self).wf(),
        ensures
            final(self).wf(),
            r == counterparty_abort_outcome(
                old(self).locked_transfers@,
                old(self).clock,
                transfer_id.0@,
            ),
            r is Ok ==> final(self).clock == old(self).clock && final(self).locked_transfers@
                == counterparty_with_state(
                old(self).locked_transfers@,
                transfer_id.0@,
                TransferState::Cancelled,
            ),
            r is Err ==> *final(self) == *old(self),
    {
        let i = match self.position(&transfer_id) {
            Some(i) => i,
            None => {
                return Err(SmartContractCounterpartyError::TransferNotFound);
            },
        };
        let rec = self.locked_transfers[i];
        if rec.state != TransferState::Pending {
            return Err(SmartContractCounterpartyError::TransferAlreadyFinalized);
        }
        if !time_lock_elapsed(rec.created_at, rec.details.time_lock, self.clock) {
            return Err(SmartContractCounterpartyError::TimeLockNotExpired);
        }
        let ghost pre = self.locked_transfers@;
        self.locked_transfers.set(
            i,
            CounterpartyRecord {
                details: rec.details,
                state: TransferState::Cancelled,
                created_at: rec.created_at,
            },
        );
        proof {
            assert(counterparty_ids(self.locked_transfers@) =~= counterparty_ids(pre));
        }
        Ok(())
    }
}

/// Whether `c` is the completion of lock `d` by secret `secret`.
pub open spec fn completed_from(c: CompletedDetails, d: LockDetails, secret: Seq<u8>) -> bool {
    &&& c.bridge_transfer_id == d.bridge_transfer_id
    &&& c.recipient_address == d.recipient_address
    &&& c.hash_lock == d.hash_lock
    &&& c.amount == d.amount
    &&& c.secret.0@ == secret
}

impl Default for SmartContractCounterparty {
    /// An empty contract whose clock reads zero.
    fn default() -> (r: SmartContractCounterparty)
        ensures
            r.wf(),
            r.locked_transfers@.len() == 0,
            r.clock == 0,
    {
        SmartContractCounterparty::new()
    }
}

} // verus!
