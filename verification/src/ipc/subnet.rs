//! The configuration of a subnet's EVM side.

use vstd::prelude::*;

use crate::address::Address;
use crate::signer::subnet::SubnetID;

verus! {

/// The EVM subnet config parameters.
#[derive(Debug, Clone)]
pub struct EVMSubnet {
    /// The target subnet ID.
    pub id: SubnetID,
    /// The EVM RPC provider endpoint.
    pub provider_http: String,
    /// The EVM RPC provider request timeout, in seconds.
    pub provider_timeout: Option<u64>,
    /// The EVM RPC provider authorization token.
    pub auth_token: Option<String>,
    /// The EVM registry contract address.
    pub registry_addr: Address,
    /// The EVM gateway contract address.
    pub gateway_addr: Address,
}

} // verus!
