use vstd::prelude::*;

use crate::bridge_monitoring::{BridgeContractCounterpartyEvent, BridgeContractInitiatorEvent};
use crate::relayer::{relayer_next, relayer_start, RelayerAction, RelayerEvent, TransferProgress};
use crate::types::{bytes32_eq, ids_unique, index_of, lemma_index_of, BridgeTransferId, TimeLock};

verus! {

/// The relayer: one record per transfer seen initiated, each advanced by the
/// events of both chains and by the clock.
pub struct Relayer {
    pub transfers: Vec<TransferProgress>,
    pub counterparty_time_lock: TimeLock,
}

/// The transfer identifiers of `s`, in order.
pub open spec fn progress_ids(s: Seq<TransferProgress>) -> Seq<Seq<u8>> {
    s.map_values(|t: TransferProgress| t.details.bridge_transfer_id.0@)
}

/// The relayer event that a counterparty-chain event amounts to.
pub open spec fn from_counterparty(e: BridgeContractCounterpartyEvent) -> RelayerEvent {
    match e {
        BridgeContractCounterpartyEvent::Locked(_) => RelayerEvent::Locked,
        BridgeContractCounterpartyEvent::Completed(c) => RelayerEvent::CounterpartyCompleted(c.secret),
    }
}

/// The actions, in order, that a tick at `now` draws from the records `s`.
pub open spec fn tick_actions(s: Seq<TransferProgress>, now: u64) -> Seq<RelayerAction>
    decreases s.len(),
{
    if s.len() == 0 {
        Seq::empty()
    } else {
        let a = relayer_next(s.last(), RelayerEvent::Tick(now)).1;
        let rest = tick_actions(s.drop_last(), now);
        if a is Nothing {
            rest
        } else {
            rest.push(a)
        }
    }
}

impl Relayer {
    /// Records have distinct identifiers and each keeps its own invariant.
    pub open spec fn wf(&self) -> bool {
        &&& ids_unique(progress_ids(self.transfers@))
        &&& forall|i: int| 0 <= i < self.transfers@.len() ==> #[trigger] self.transfers@[i].wf()
    }

    /// Whether a record for transfer `id` exists.
    pub open spec fn follows(&self, id: Seq<u8>) -> bool {
        progress_ids(self.transfers@).contains(id)
    }

    /// `old` after event `e` reached the record of `id`: that record and the
    /// action follow `relayer_next`; where there is no record nothing changes.
    pub open spec fn applied(
        old: Seq<TransferProgress>,
        new: Seq<TransferProgress>,
        id: Seq<u8>,
        e: RelayerEvent,
        r: RelayerAction,
    ) -> bool {
        if progress_ids(old).contains(id) {
            let i = index_of(progress_ids(old), id);
            &&& new == old.update(i, relayer_next(old[i], e).0)
            &&& r == relayer_next(old[i], e).1
        } else {
            new == old && r is Nothing
        }
    }

    /// A relayer following no transfer, that locks the counterparty side for
    /// `counterparty_time_lock`.
    pub fn new(counterparty_time_lock: TimeLock) -> (r: Relayer)
        ensures
            r.wf(),
            r.transfers@.len() == 0,
            r.counterparty_time_lock == counterparty_time_lock,
    {
        Relayer { transfers: Vec::new(), counterparty_time_lock }
    }

    fn position(&self, id: &BridgeTransferId) -> (r: Option<usize>)
        requires
            self.wf(),
        ensures
            r is None ==> !self.follows(id.0@),
            r matches Some(i) ==> self.follows(id.0@) && i as int == index_of(
                progress_ids(self.transfers@),
                id.0@,
            ) && i < self.transfers@.len(),
    {
        let ghost ids = progress_ids(self.transfers@);
        let mut i: usize = 0;
        while i < self.transfers.len()
            invariant
                i <= self.transfers@.len(),
                ids == progress_ids(self.transfers@),
                ids_unique(ids),
                forall|j: int| 0 <= j < i ==> ids[j] != id.0@,
            decreases self.transfers@.len() - i,
        {
            if bytes32_eq(&self.transfers[i].details.bridge_transfer_id.0, &id.0) {
                proof {
                    lemma_index_of(ids, i as int);
                }
                return Some(i);
            }
            i = i + 1;
        }
        None
    }

    /// Hands `e` to the record of `id`, if there is one.
    fn apply(&mut self, id: &BridgeTransferId, e: RelayerEvent) -> (r: RelayerAction)
        requires
            old(self).wf(),
        ensures
            final(self).wf(),
            final(self).counterparty_time_lock == old(self).counterparty_time_lock,
            Self::applied(old(self).transfers@, final(self).transfers@, id.0@, e, r),
    {
        match self.position(id) {
            None => RelayerAction::Nothing,
            Some(i) => {
                let ghost pre = self.transfers@;
                let (t, a) = self.transfers[i].step(e);
                self.transfers.set(i, t);
                proof {
                    assert(progress_ids(self.transfers@) =~= progress_ids(pre));
                    assert forall|j: int| 0 <= j < self.transfers@.len() implies #[trigger] self.transfers@[j].wf() by {
                        if j != i {
                            assert(self.transfers@[j] == pre[j]);
                        }
                    }
                }
                a
            },
        }
    }

    /// Reacts to an initiator-chain event observed at clock reading `now`. A
    /// new initiation starts a record and asks for the counterparty lock; an
    /// initiation seen twice is ignored; completions and refunds reach the
    /// record of their transfer.
    pub fn on_initiator_event(&mut self, event: BridgeContractInitiatorEvent, now: u64) -> (r:
        RelayerAction)
        requires
            old(self).wf(),
        ensures
            final(self).wf(),
            final(self).counterparty_time_lock == old(self).counterparty_time_lock,
            event matches BridgeContractInitiatorEvent::Initiated(d) ==> if old(self).follows(
                d.bridge_transfer_id.0@,
            ) {
                *final(self) == *old(self) && r is Nothing
            } else {
                final(self).transfers@ == old(self).transfers@.push(
                    relayer_start(d, old(self).counterparty_time_lock, now).0,
                ) && r == relayer_start(d, old(self).counterparty_time_lock, now).1
            },
            event matches BridgeContractInitiatorEvent::Completed(id) ==> Self::applied(
                old(self).transfers@,
                final(self).transfers@,
                id.0@,
                RelayerEvent::InitiatorCompleted,
                r,
            ),
            event matches BridgeContractInitiatorEvent::Refunded(id) ==> Self::applied(
                old(self).transfers@,
                final(self).transfers@,
                id.0@,
                RelayerEvent::Refunded,
                r,
            ),
    {
        match event {
            BridgeContractInitiatorEvent::Initiated(d) => {
                if self.position(&d.bridge_transfer_id).is_some() {
                    return RelayerAction::Nothing;
                }
                let ghost pre = self.transfers@;
                let (t, a) = TransferProgress::on_initiated(d, self.counterparty_time_lock, now);
                self.transfers.push(t);
                proof {
                    assert(progress_ids(self.transfers@) =~= progress_ids(pre).push(
                        d.bridge_transfer_id.0@,
                    ));
                    assert forall|j: int| 0 <= j < self.transfers@.len() implies #[trigger] self.transfers@[j].wf() by {
                        if j < pre.len() {
                            assert(self.transfers@[j] == pre[j]);
                        }
                    }
                    assert(self.transfers@ == pre.push(t));
                }
                a
            },
            BridgeContractInitiatorEvent::Completed(id) => self.apply(
                &id,
                RelayerEvent::InitiatorCompleted,
            ),
            BridgeContractInitiatorEvent::Refunded(id) => self.apply(&id, RelayerEvent::Refunded),
        }
    }

    /// Reacts to a counterparty-chain event: a lock or a completion reaches the
    /// record of its transfer; a completion hands on the revealed secret.
    pub fn on_counterparty_event(&mut self, event: BridgeContractCounterpartyEvent) -> (r:
        RelayerAction)
        requires
            old(self).wf(),
        ensures
            final(self).wf(),
            final(self).counterparty_time_lock == old(self).counterparty_time_lock,
            Self::applied(
                old(self).transfers@,
                final(self).transfers@,
                crate::bridge_monitoring::counterparty_event_id(event).0@,
                from_counterparty(event),
                r,
            ),
    {
        let id = *event.bridge_transfer_id();
        let e = match event {
            BridgeContractCounterpartyEvent::Locked(_) => RelayerEvent::Locked,
            BridgeContractCounterpartyEvent::Completed(c) => RelayerEvent::CounterpartyCompleted(
                c.secret,
            ),
        };
        self.apply(&id, e)
    }

    /// Records that the last call made for transfer `id` failed for good.
    pub fn on_call_failed(&mut self, id: &BridgeTransferId) -> (r: RelayerAction)
        requires
            old(self).wf(),
        ensures
            final(self).wf(),
            final(self).counterparty_time_lock == old(self).counterparty_time_lock,
            Self::applied(
                old(self).transfers@,
                final(self).transfers@,
                id.0@,
                RelayerEvent::CallFailed,
                r,
            ),
    {
        self.apply(id, RelayerEvent::CallFailed)
    }

    /// Advances every record to clock reading `now` and gathers the calls this
    /// makes due, in record order.
    pub fn on_tick(&mut self, now: u64) -> (r: Vec<RelayerAction>)
        requires
            old(self).wf(),
        ensures
            final(self).wf(),
            final(self).counterparty_time_lock == old(self).counterparty_time_lock,
            final(self).transfers@.len() == old(self).transfers@.len(),
            forall|i: int|
                0 <= i < old(self).transfers@.len() ==> #[trigger] final(self).transfers@[i]
                    == relayer_next(old(self).transfers@[i], RelayerEvent::Tick(now)).0,
            r@ == tick_actions(old(self).transfers@, now),
    {
        let ghost pre = self.transfers@;
        let mut actions: Vec<RelayerAction> = Vec::new();
        let mut i: usize = 0;
        while i < self.transfers.len()
            invariant
                i <= self.transfers@.len(),
                self.transfers@.len() == pre.len(),
                self.counterparty_time_lock == old(self).counterparty_time_lock,
                ids_unique(progress_ids(pre)),
                forall|j: int| 0 <= j < pre.len() ==> #[trigger] pre[j].wf(),
                forall|j: int|
                    0 <= j < i ==> #[trigger] self.transfers@[j] == relayer_next(
                        pre[j],
                        RelayerEvent::Tick(now),
                    ).0,
                forall|j: int| i <= j < pre.len() ==> #[trigger] self.transfers@[j] == pre[j],
                forall|j: int| 0 <= j < i ==> #[trigger] self.transfers@[j].wf(),
                actions@ == tick_actions(pre.subrange(0, i as int), now),
            decreases pre.len() - i,
        {
            let (t, a) = self.transfers[i].step(RelayerEvent::Tick(now));
            self.transfers.set(i, t);
            proof {
                let s = pre.subrange(0, i as int + 1);
                assert(s.drop_last() =~= pre.subrange(0, i as int));
                assert(s.last() == pre[i as int]);
            }
            if !matches!(a, RelayerAction::Nothing) {
                actions.push(a);
            }
            i = i + 1;
        }
        proof {
            assert(pre.subrange(0, pre.len() as int) =~= pre);
            assert(progress_ids(self.transfers@) =~= progress_ids(pre)) by {
                assert forall|j: int| 0 <= j < pre.len() implies self.transfers@[j].details
                    == pre[j].details by {
                    assert(self.transfers@[j] == relayer_next(pre[j], RelayerEvent::Tick(now)).0);
                }
            }
        }
        actions
    }
}

} // verus!
