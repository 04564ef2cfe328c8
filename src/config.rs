use vstd::prelude::*;

use crate::retry::RetryState;

verus! {

/// The local node's JSON-RPC endpoint.
pub const DEFAULT_RPC_URL: &'static str = "http://localhost:8545";

/// The local node's websocket endpoint.
pub const DEFAULT_WS_URL: &'static str = "ws://localhost:8545";

/// The local development chain.
pub const DEFAULT_CHAIN_ID: &'static str = "31337";

/// The first development account, which starts transfers by default.
pub const INITIATOR_ADDRESS: &'static str = "0xf39Fd6e51aad88F6F4ce6aB8827279cffFb92266";

/// The first development account, which receives transfers by default.
pub const RECIPIENT_ADDRESS: &'static str = "0xf39Fd6e51aad88F6F4ce6aB8827279cffFb92266";

/// The ceiling on the gas price that retries may raise a submission to.
pub const DEFAULT_GAS_LIMIT: u64 = 10_000_000_000;

/// The retry budget of one submission.
pub const MAX_RETRIES: u32 = 5;

/// Settings of an initiator-chain client.
#[derive(Clone, Debug)]
pub struct Config {
    pub rpc_url: Option<String>,
    pub ws_url: Option<String>,
    pub chain_id: String,
    pub signer_private_key: String,
    pub initiator_address: String,
    pub recipient_address: String,
    pub gas_limit: u64,
    pub num_tx_send_retries: u32,
}

impl Config {
    /// The local development settings, signing with `signer_private_key`.
    pub fn with_signer_key(signer_private_key: String) -> (r: Config)
        ensures
            r.rpc_url matches Some(u) && u@ == DEFAULT_RPC_URL@,
            r.ws_url matches Some(u) && u@ == DEFAULT_WS_URL@,
            r.chain_id@ == DEFAULT_CHAIN_ID@,
            r.signer_private_key@ == signer_private_key@,
            r.initiator_address@ == INITIATOR_ADDRESS@,
            r.recipient_address@ == RECIPIENT_ADDRESS@,
            r.gas_limit == DEFAULT_GAS_LIMIT,
            r.num_tx_send_retries == MAX_RETRIES,
    {
        Config {
            rpc_url: Some(DEFAULT_RPC_URL.to_owned()),
            ws_url: Some(DEFAULT_WS_URL.to_owned()),
            chain_id: DEFAULT_CHAIN_ID.to_owned(),
            signer_private_key,
            initiator_address: INITIATOR_ADDRESS.to_owned(),
            recipient_address: RECIPIENT_ADDRESS.to_owned(),
            gas_limit: DEFAULT_GAS_LIMIT,
            num_tx_send_retries: MAX_RETRIES,
        }
    }

    /// The retry state for a new submission at `gas_price`, under this
    /// configuration's retry budget and gas ceiling.
    pub fn retry_state(&self, gas_price: u64) -> (r: RetryState)
        ensures
            r.wf(),
            r.max_retries == self.num_tx_send_retries,
            r.retries_done == 0,
            r.gas_ceiling == self.gas_limit,
            r.gas_price == if gas_price > self.gas_limit { self.gas_limit } else { gas_price },
    {
        RetryState::start(self.num_tx_send_retries, gas_price, self.gas_limit)
    }
}

} // verus!
