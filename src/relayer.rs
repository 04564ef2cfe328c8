use vstd::prelude::*;

use crate::types::{
    expired, time_lock_elapsed, BridgeTransferDetails, BridgeTransferId, HashLockPreImage,
    LockDetails, TimeLock,
};

verus! {

/// Where the relayer stands with one transfer.
#[derive(Clone, Copy, Debug, PartialEq, Eq, Structural)]
pub enum TransferPhase {
    /// Seen on the initiator chain; a counterparty lock was requested.
    Initiated,
    /// The counterparty lock is in place.
    Locked,
    /// The secret surfaced on the counterparty chain; the initiator completion was requested.
    Completing,
    /// Both sides completed.
    Completed,
    /// The counterparty lock expired without completion; its abort was requested.
    Aborting,
    /// The counterparty lock was aborted; the initiator refund waits for its own expiry.
    Aborted,
    /// The initiator refund was requested.
    Refunding,
    /// Both sides rolled back.
    Refunded,
    /// A call failed for good; the transfer is left for reconciliation.
    Stalled,
}

/// The relayer's record of one transfer.
#[derive(Clone, Copy, Debug)]
pub struct TransferProgress {
    pub details: BridgeTransferDetails,
    pub counterparty_time_lock: TimeLock,
    pub initiated_at: u64,
    pub phase: TransferPhase,
}

/// What the relayer learned about one transfer.
#[derive(Clone, Debug)]
pub enum RelayerEvent {
    /// The counterparty lock was observed.
    Locked,
    /// The counterparty completion was observed, revealing the secret.
    CounterpartyCompleted(HashLockPreImage),
    /// The initiator completion was observed.
    InitiatorCompleted,
    /// The counterparty abort was observed.
    Aborted,
    /// The initiator refund was observed.
    Refunded,
    /// The external clock now reads this value.
    Tick(u64),
    /// The last requested call failed after all its retries.
    CallFailed,
}

/// What the relayer asks a chain to do next.
#[derive(Clone, Debug)]
pub enum RelayerAction {
    Nothing,
    LockBridgeTransferAssets(LockDetails),
    CompleteBridgeTransfer(BridgeTransferId, HashLockPreImage),
    AbortBridgeTransfer(BridgeTransferId),
    RefundBridgeTransfer(BridgeTransferId),
    ReportStalled(BridgeTransferId),
}

/// Whether `p` admits no further progress.
pub open spec fn is_terminal(p: TransferPhase) -> bool {
    p == TransferPhase::Completed || p == TransferPhase::Refunded || p == TransferPhase::Stalled
}

/// `t` moved to phase `p`.
pub open spec fn with_phase(t: TransferProgress, p: TransferPhase) -> TransferProgress {
    TransferProgress {
        details: t.details,
        counterparty_time_lock: t.counterparty_time_lock,
        initiated_at: t.initiated_at,
        phase: p,
    }
}

/// The record and action that follow `event` for transfer `t`.
pub open spec fn relayer_next(t: TransferProgress, event: RelayerEvent) -> (
    TransferProgress,
    RelayerAction,
) {
    let id = t.details.bridge_transfer_id;
    if is_terminal(t.phase) {
        (t, RelayerAction::Nothing)
    } else {
        match event {
            RelayerEvent::CallFailed => (
                with_phase(t, TransferPhase::Stalled),
                RelayerAction::ReportStalled(id),
            ),
            RelayerEvent::Locked => if t.phase == TransferPhase::Initiated {
                (with_phase(t, TransferPhase::Locked), RelayerAction::Nothing)
            } else {
                (t, RelayerAction::Nothing)
            },
            RelayerEvent::CounterpartyCompleted(secret) => if t.phase == TransferPhase::Initiated
                || t.phase == TransferPhase::Locked {
                (
                    with_phase(t, TransferPhase::Completing),
                    RelayerAction::CompleteBridgeTransfer(id, secret),
                )
            } else {
                (t, RelayerAction::Nothing)
            },
            RelayerEvent::InitiatorCompleted => (
                with_phase(t, TransferPhase::Completed),
                RelayerAction::Nothing,
            ),
            RelayerEvent::Aborted => if t.phase == TransferPhase::Aborting {
                (with_phase(t, TransferPhase::Aborted), RelayerAction::Nothing)
            } else {
                (t, RelayerAction::Nothing)
            },
            RelayerEvent::Refunded => if t.phase == TransferPhase::Refunding {
                (with_phase(t, TransferPhase::Refunded), RelayerAction::Nothing)
            } else {
                (t, RelayerAction::Nothing)
            },
            RelayerEvent::Tick(now) => if (t.phase == TransferPhase::Initiated || t.phase
                == TransferPhase::Locked) && expired(
                t.initiated_at,
                t.counterparty_time_lock.0,
                now,
            ) {
                (with_phase(t, TransferPhase::Aborting), RelayerAction::AbortBridgeTransfer(id))
            } else if t.phase == TransferPhase::Aborted && expired(
                t.initiated_at,
                t.details.time_lock.0,
                now,
            ) {
                (with_phase(t, TransferPhase::Refunding), RelayerAction::RefundBridgeTransfer(id))
            } else {
                (t, RelayerAction::Nothing)
            },
        }
    }
}

/// The record and action with which the relayer starts following a transfer
/// seen initiated at `now`.
pub open spec fn relayer_start(
    details: BridgeTransferDetails,
    counterparty_time_lock: TimeLock,
    now: u64,
) -> (TransferProgress, RelayerAction) {
    if counterparty_time_lock.0 < details.time_lock.0 {
        (
            TransferProgress {
                details,
                counterparty_time_lock,
                initiated_at: now,
                phase: TransferPhase::Initiated,
            },
            RelayerAction::LockBridgeTransferAssets(
                LockDetails {
                    bridge_transfer_id: details.bridge_transfer_id,
                    recipient_address: details.recipient_address,
                    hash_lock: details.hash_lock,
                    time_lock: counterparty_time_lock,
                    amount: details.amount,
                },
            ),
        )
    } else {
        (
            TransferProgress {
                details,
                counterparty_time_lock,
                initiated_at: now,
                phase: TransferPhase::Stalled,
            },
            RelayerAction::ReportStalled(details.bridge_transfer_id),
        )
    }
}

impl TransferProgress {
    /// Outside a stalled transfer, the counterparty lock expires strictly before
    /// the initiator lock.
    pub open spec fn wf(&self) -> bool {
        self.phase != TransferPhase::Stalled ==> self.counterparty_time_lock.0
            < self.details.time_lock.0
    }

    /// Starts following a transfer seen initiated at clock reading `now`. The
    /// counterparty lock is requested with `counterparty_time_lock`, which must
    /// run out strictly before the initiator's time lock; otherwise the
    /// transfer is reported stalled at once.
    pub fn on_initiated(
        details: BridgeTransferDetails,
        counterparty_time_lock: TimeLock,
        now: u64,
    ) -> (r: (TransferProgress, RelayerAction))
        ensures
            r == relayer_start(details, counterparty_time_lock, now),
            r.0.wf(),
            r.0.details == details,
            r.0.counterparty_time_lock == counterparty_time_lock,
            r.0.initiated_at == now,
            counterparty_time_lock.0 < details.time_lock.0 ==> r.0.phase == TransferPhase::Initiated
                && r.1 == RelayerAction::LockBridgeTransferAssets(
                LockDetails {
                    bridge_transfer_id: details.bridge_transfer_id,
                    recipient_address: details.recipient_address,
                    hash_lock: details.hash_lock,
                    time_lock: counterparty_time_lock,
                    amount: details.amount,
                },
            ),
            counterparty_time_lock.0 >= details.time_lock.0 ==> r.0.phase == TransferPhase::Stalled
                && r.1 == RelayerAction::ReportStalled(details.bridge_transfer_id),
    {
        if counterparty_time_lock.0 < details.time_lock.0 {
            let t = TransferProgress {
                details,
                counterparty_time_lock,
                initiated_at: now,
                phase: TransferPhase::Initiated,
            };
            let lock = LockDetails {
                bridge_transfer_id: details.bridge_transfer_id,
                recipient_address: details.recipient_address,
                hash_lock: details.hash_lock,
                time_lock: counterparty_time_lock,
                amount: details.amount,
            };
            (t, RelayerAction::LockBridgeTransferAssets(lock))
        } else {
            let t = TransferProgress {
                details,
                counterparty_time_lock,
                initiated_at: now,
                phase: TransferPhase::Stalled,
            };
            (t, RelayerAction::ReportStalled(details.bridge_transfer_id))
        }
    }

    fn moved(&self, p: TransferPhase) -> (r: TransferProgress)
        ensures
            r == with_phase(*self, p),
    {
        TransferProgress {
            details: self.details,
            counterparty_time_lock: self.counterparty_time_lock,
            initiated_at: self.initiated_at,
            phase: p,
        }
    }

    /// The record and action that follow `event`.
    pub fn step(&self, event: RelayerEvent) -> (r: (TransferProgress, RelayerAction))
        requires
            self.wf(),
        ensures
            r == relayer_next(*self, event),
            r.0.wf(),
    {
        let id = self.details.bridge_transfer_id;
        let phase = self.phase;
        if phase == TransferPhase::Completed || phase == TransferPhase::Refunded || phase
            == TransferPhase::Stalled {
            return (*self, RelayerAction::Nothing);
        }
        match event {
            RelayerEvent::CallFailed => (
                self.moved(TransferPhase::Stalled),
                RelayerAction::ReportStalled(id),
            ),
            RelayerEvent::Locked => if phase == TransferPhase::Initiated {
                (self.moved(TransferPhase::Locked), RelayerAction::Nothing)
            } else {
                (*self, RelayerAction::Nothing)
            },
            RelayerEvent::CounterpartyCompleted(secret) => if phase == TransferPhase::Initiated
                || phase == TransferPhase::Locked {
                (
                    self.moved(TransferPhase::Completing),
                    RelayerAction::CompleteBridgeTransfer(id, secret),
                )
            } else {
                (*self, RelayerAction::Nothing)
            },
            RelayerEvent::InitiatorCompleted => (
                self.moved(TransferPhase::Completed),
                RelayerAction::Nothing,
            ),
            RelayerEvent::Aborted => if phase == TransferPhase::Aborting {
                (self.moved(TransferPhase::Aborted), RelayerAction::Nothing)
            } else {
                (*self, RelayerAction::Nothing)
            },
            RelayerEvent::Refunded => if phase == TransferPhase::Refunding {
                (self.moved(TransferPhase::Refunded), RelayerAction::Nothing)
            } else {
                (*self, RelayerAction::Nothing)
            },
            RelayerEvent::Tick(now) => if (phase == TransferPhase::Initiated || phase
                == TransferPhase::Locked) && time_lock_elapsed(
                self.initiated_at,
                self.counterparty_time_lock,
                now,
            ) {
                (self.moved(TransferPhase::Aborting), RelayerAction::AbortBridgeTransfer(id))
            } else if phase == TransferPhase::Aborted && time_lock_elapsed(
                self.initiated_at,
                self.details.time_lock,
                now,
            ) {
                (self.moved(TransferPhase::Refunding), RelayerAction::RefundBridgeTransfer(id))
            } else {
                (*self, RelayerAction::Nothing)
            },
        }
    }
}

/// Once a transfer is completed, rolled back or stalled, no event changes its
/// record and none leads to a call.
pub proof fn lemma_terminal_phases_are_final(t: TransferProgress, event: RelayerEvent)
    requires
        is_terminal(t.phase),
    ensures
        relayer_next(t, event).0 == t,
        relayer_next(t, event).1 == RelayerAction::Nothing,
{
}

/// The initiator refund is only ever requested after the counterparty abort was
/// observed and the initiator time lock has elapsed; the counterparty abort only
/// before any secret was seen and after the counterparty time lock has elapsed.
pub proof fn lemma_rollback_only_after_expiry(t: TransferProgress, event: RelayerEvent)
    ensures
        relayer_next(t, event).1 is RefundBridgeTransfer ==> (t.phase == TransferPhase::Aborted
            && (event matches RelayerEvent::Tick(now) && expired(
            t.initiated_at,
            t.details.time_lock.0,
            now,
        ))),
        relayer_next(t, event).1 is AbortBridgeTransfer ==> ((t.phase == TransferPhase::Initiated
            || t.phase == TransferPhase::Locked) && (event matches RelayerEvent::Tick(now)
            && expired(t.initiated_at, t.counterparty_time_lock.0, now))),
{
}

} // verus!
