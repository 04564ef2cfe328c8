use vstd::prelude::*;

use std::collections::VecDeque;

use crate::types::{BridgeTransferDetails, BridgeTransferId, CompletedDetails, LockDetails};

verus! {

/// A state change observed on the initiator chain.
#[derive(Clone, Debug)]
pub enum BridgeContractInitiatorEvent {
    Initiated(BridgeTransferDetails),
    Completed(BridgeTransferId),
    Refunded(BridgeTransferId),
}

/// The transfer that an initiator event concerns.
pub open spec fn initiator_event_id(e: BridgeContractInitiatorEvent) -> BridgeTransferId {
    match e {
        BridgeContractInitiatorEvent::Initiated(d) => d.bridge_transfer_id,
        BridgeContractInitiatorEvent::Completed(id) => id,
        BridgeContractInitiatorEvent::Refunded(id) => id,
    }
}

impl BridgeContractInitiatorEvent {
    /// The transfer this event concerns.
    pub fn bridge_transfer_id(&self) -> (r: &BridgeTransferId)
        ensures
            *r == initiator_event_id(*self),
    {
        match self {
            BridgeContractInitiatorEvent::Initiated(details) => &details.bridge_transfer_id,
            BridgeContractInitiatorEvent::Completed(id) => id,
            BridgeContractInitiatorEvent::Refunded(id) => id,
        }
    }
}

/// A state change observed on the counterparty chain.
#[derive(Clone, Debug)]
pub enum BridgeContractCounterpartyEvent {
    Locked(LockDetails),
    Completed(CompletedDetails),
}

/// The transfer that a counterparty event concerns.
pub open spec fn counterparty_event_id(e: BridgeContractCounterpartyEvent) -> BridgeTransferId {
    match e {
        BridgeContractCounterpartyEvent::Locked(d) => d.bridge_transfer_id,
        BridgeContractCounterpartyEvent::Completed(c) => c.bridge_transfer_id,
    }
}

impl BridgeContractCounterpartyEvent {
    /// The transfer this event concerns.
    pub fn bridge_transfer_id(&self) -> (r: &BridgeTransferId)
        ensures
            *r == counterparty_event_id(*self),
    {
        match self {
            BridgeContractCounterpartyEvent::Locked(details) => &details.bridge_transfer_id,
            BridgeContractCounterpartyEvent::Completed(details) => &details.bridge_transfer_id,
        }
    }
}

/// A source of initiator-chain events, polled by the relayer.
pub trait BridgeContractInitiatorMonitoring {
    /// The next event, if one has arrived.
    fn next_event(&mut self) -> Option<BridgeContractInitiatorEvent>;
}

/// A source of counterparty-chain events, polled by the relayer.
pub trait BridgeContractCounterpartyMonitoring {
    /// The next event, if one has arrived.
    fn next_event(&mut self) -> Option<BridgeContractCounterpartyEvent>;
}

/// A bounded first-in first-out channel between a chain adapter and the
/// relayer. A full channel refuses new events, so the producer must wait.
pub struct EventChannel<E> {
    pub buffer: VecDeque<E>,
    pub capacity: usize,
}

impl<E> EventChannel<E> {
    /// The events waiting, oldest first.
    pub open spec fn view(&self) -> Seq<E> {
        self.buffer@
    }

    /// An empty channel holding at most `capacity` events.
    pub fn new(capacity: usize) -> (r: EventChannel<E>)
        ensures
            r@ == Seq::<E>::empty(),
            r.capacity == capacity,
    {
        EventChannel { buffer: VecDeque::new(), capacity }
    }

    /// The number of events waiting.
    pub fn len(&self) -> (r: usize)
        ensures
            r == self@.len(),
    {
        self.buffer.len()
    }

    /// Appends `event`, or hands it back where the channel is full.
    pub fn send(&mut self, event: E) -> (r: Result<(), E>)
        ensures
            final(self).capacity == old(self).capacity,
            r is Ok <==> old(self)@.len() < old(self).capacity,
            r is Ok ==> final(self)@ == old(self)@.push(event),
            r matches Err(e) ==> e == event && final(self)@ == old(self)@,
    {
        if self.buffer.len() < self.capacity {
            self.buffer.push_back(event);
            Ok(())
        } else {
            Err(event)
        }
    }

    /// Takes the oldest waiting event, if any.
    pub fn poll(&mut self) -> (r: Option<E>)
        ensures
            final(self).capacity == old(self).capacity,
            old(self)@.len() == 0 ==> r is None && final(self)@ == old(self)@,
            old(self)@.len() > 0 ==> r == Some(old(self)@[0]) && final(self)@ == old(
                self,
            )@.drop_first(),
    {
        self.buffer.pop_front()
    }
}

impl BridgeContractInitiatorMonitoring for EventChannel<BridgeContractInitiatorEvent> {
    fn next_event(&mut self) -> Option<BridgeContractInitiatorEvent> {
        self.poll()
    }
}

impl BridgeContractCounterpartyMonitoring for EventChannel<BridgeContractCounterpartyEvent> {
    fn next_event(&mut self) -> Option<BridgeContractCounterpartyEvent> {
        self.poll()
    }
}

} // verus!
