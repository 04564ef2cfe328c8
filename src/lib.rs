//! Hash-time-locked bridge transfers between two chains: the domain types,
//! the in-memory reference contracts for both sides, their event streams,
//! the transaction retry engine and the relayer's per-transfer state machine.
pub mod types;
pub mod crypto;
pub mod ledger;
pub mod initiator_contract;
pub mod counterparty_contract;
pub mod laws;
pub mod retry;
pub mod bridge_monitoring;
pub mod relayer;
pub mod config;
pub mod scenario;
pub mod coordinator;
pub mod storage_slot;
