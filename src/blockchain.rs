//! Placeholders for paying routing nodes and registering them on a chain; no
//! chain is contacted.
use vstd::prelude::*;
use crate::config::BlockchainConfig;

verus! {

/// Pays routing nodes (placeholder).
#[derive(Debug)]
pub struct BlockchainPayment {
    pub config: BlockchainConfig,
}

impl BlockchainPayment {
    pub fn new(config: BlockchainConfig) -> (r: Self)
        ensures
            r.config == config,
    {
        BlockchainPayment { config }
    }

    /// Returns a fixed transaction hash; nothing is sent.
    pub fn pay_node(&self, node_address: &str, amount_wei: u64) -> (r: Result<String, String>)
        ensures
            r is Ok && r->Ok_0@ == "0x1234567890abcdef"@,
    {
        Ok(String::from_str("0x1234567890abcdef"))
    }

    /// Reports every payment as verified.
    pub fn verify_node_payment(&self, tx_hash: &str) -> (r: Result<bool, String>)
        ensures
            r == Ok::<bool, String>(true),
    {
        Ok(true)
    }

    /// Reports no rewards.
    pub fn claim_rewards(&self) -> (r: Result<u64, String>)
        ensures
            r == Ok::<u64, String>(0),
    {
        Ok(0)
    }
}

/// The on-chain registry of routing nodes (placeholder).
#[derive(Debug)]
pub struct NodeRegistryContract {
    pub contract_address: String,
}

impl NodeRegistryContract {
    pub fn new(address: String) -> (r: Self)
        ensures
            r.contract_address == address,
    {
        NodeRegistryContract { contract_address: address }
    }

    /// Returns a fixed transaction hash; nothing is registered.
    pub fn register_node(&self, node_address: &str, stake_amount: u64) -> (r: Result<String, String>)
        ensures
            r is Ok && r->Ok_0@ == "0xtxhash"@,
    {
        Ok(String::from_str("0xtxhash"))
    }

    /// Returns no nodes.
    pub fn get_active_nodes(&self) -> (r: Result<Vec<String>, String>)
        ensures
            r is Ok && r->Ok_0@.len() == 0,
    {
        Ok(Vec::new())
    }
}

} // verus!
