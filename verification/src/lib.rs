//! Client-side protocol logic for the ADM storage network: fee estimation,
//! transaction receipts, sequence allocation, object-store and accumulator
//! request handling, all on plain values.

use vstd::prelude::*;

use crate::provider::message::GasParams;

pub mod account;
pub mod address;
pub mod error;
pub mod ipc;
pub mod machine;
pub mod network;
pub mod provider;
pub mod server;
pub mod signer;
pub mod text;

verus! {

/// Arguments common to transactions.
#[derive(Clone, Copy, Debug, PartialEq, Eq)]
pub struct TxParams {
    /// Sender account sequence (nonce).
    pub sequence: Option<u64>,
    /// Gas params.
    pub gas_params: GasParams,
}

impl TxParams {
    /// Creates transaction params from what was given on the command line;
    /// what was not given is the default.
    pub fn to_tx_params(
        sequence: Option<u64>,
        gas_limit: Option<u64>,
        gas_fee_cap: Option<u128>,
        gas_premium: Option<u128>,
    ) -> (params: TxParams)
        ensures
            params.sequence == sequence,
            params.gas_params.gas_limit == match gas_limit {
                Some(limit) => limit,
                None => crate::provider::message::BLOCK_GAS_LIMIT,
            },
            params.gas_params.gas_fee_cap == match gas_fee_cap {
                Some(cap) => cap,
                None => 0,
            },
            params.gas_params.gas_premium == match gas_premium {
                Some(premium) => premium,
                None => 0,
            },
    {
        TxParams { sequence, gas_params: GasParams::from_options(gas_limit, gas_fee_cap, gas_premium) }
    }
}

} // verus!
