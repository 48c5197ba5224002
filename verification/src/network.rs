//! Network presets: subnet IDs, endpoints and contract addresses.

use vstd::prelude::*;
use vstd::string::StringExecFns;

use crate::address::Address;
use crate::error::Error;
use crate::ipc::subnet::EVMSubnet;
use crate::provider::util::{address_of_text, parse_address};
use crate::signer::subnet::{subnet_of_text, SubnetID};
use crate::text::same_text;

verus! {

/// The presets of the networks.
pub const TESTNET_SUBNET_ID: &'static str = "/r314159/t410fbslswn3rqrpdjoozbuoll6mnnfsolbp2wi3vbmi";

pub const LOCALNET_SUBNET_ID: &'static str = "/r314159/t410f726d2jv6uj4mpkcbgg5ndlpp3l7dd5rlcpgzkoi";

pub const DEVNET_SUBNET_ID: &'static str = "test";

pub const TESTNET_RPC_URL: &'static str = "https://api.n1.testnet.basin.storage";

pub const LOCALNET_RPC_URL: &'static str = "http://127.0.0.1:26657";

/// Default timeout of calls to the EVM RPC, in seconds.
pub const RPC_TIMEOUT: u64 = 60;

pub const TESTNET_EVM_RPC_URL: &'static str = "https://evm-api.n1.testnet.basin.storage";

pub const TESTNET_EVM_GATEWAY_ADDRESS: &'static str = "0x77aa40b105843728088c0132e43fc44348881da8";

pub const TESTNET_EVM_REGISTRY_ADDRESS: &'static str = "0x74539671a1d2f1c8f200826baba665179f53a1b7";

pub const TESTNET_PARENT_EVM_RPC_URL: &'static str = "https://api.calibration.node.glif.io/rpc/v1";

pub const TESTNET_PARENT_EVM_GATEWAY_ADDRESS: &'static str =
    "0x129682c2ae89d8157Ad46Ea402E13f81C1C2e2d0";

pub const TESTNET_PARENT_EVM_REGISTRY_ADDRESS: &'static str =
    "0x7Eb0a3511BB5DB2b5f945e6EB801Cb3Be9238c42";

pub const TESTNET_OBJECT_API_URL: &'static str = "https://object-api.n1.testnet.basin.storage";

pub const LOCALNET_OBJECT_API_URL: &'static str = "http://127.0.0.1:8001";

/// Options for [`EVMSubnet`] configurations.
#[derive(Debug, Clone)]
pub struct SubnetOptions {
    /// The EVM RPC provider request timeout, in seconds.
    pub evm_rpc_timeout: u64,
    /// The EVM RPC provider authorization token.
    pub evm_rpc_auth_token: Option<String>,
}

impl Default for SubnetOptions {
    fn default() -> (options: Self)
        ensures
            options.evm_rpc_timeout == RPC_TIMEOUT,
            options.evm_rpc_auth_token is None,
    {
        SubnetOptions { evm_rpc_timeout: RPC_TIMEOUT, evm_rpc_auth_token: None }
    }
}

/// The format in which the addresses of a network are written.
#[derive(Debug, Copy, Clone, PartialEq, Eq)]
pub enum AddressNetwork {
    /// Addresses begin with `f`.
    Mainnet,
    /// Addresses begin with `t`.
    Testnet,
}

/// Network presets for a subnet configuration and RPC URLs.
#[derive(Debug, Copy, Clone, PartialEq, Eq, PartialOrd, Ord)]
pub enum Network {
    /// Network presets for mainnet.
    Mainnet,
    /// Network presets for Calibration (default pre-mainnet).
    Testnet,
    /// Network presets for a local three-node network.
    Localnet,
    /// Network presets for local development.
    Devnet,
}

/// The result of reading a preset address.
pub open spec fn preset_address(text: Seq<char>, address: Result<Address, Error>) -> bool {
    match address_of_text(text) {
        Some(a) => address matches Ok(v) && v@ == a && v.wf(),
        None => address == Err::<Address, Error>(Error::InvalidAddress),
    }
}

/// The result of a preset that only the testnet has.
pub open spec fn testnet_only<T>(network: Network, value: Result<T, Error>) -> bool {
    match network {
        Network::Mainnet => value == Err::<T, Error>(Error::PreMainnet),
        Network::Testnet => true,
        Network::Localnet | Network::Devnet => value == Err::<T, Error>(Error::NoParent),
    }
}

/// The result of putting a configuration together from the presets of a
/// network: the subnet ID first, the endpoint second, the registry third
/// and the gateway last.
pub open spec fn preset_config(
    network: Network,
    options: SubnetOptions,
    url: Seq<char>,
    registry: Seq<char>,
    gateway: Seq<char>,
    config: Result<EVMSubnet, Error>,
) -> bool {
    match network.subnet_id_text() {
        None => config matches Err(Error::PreMainnet),
        Some(text) => match subnet_of_text(text) {
            None => config matches Err(Error::InvalidSubnetId(t)) && t@ == text,
            Some(id) => if network != Network::Testnet {
                config matches Err(Error::NoParent)
            } else {
                match (address_of_text(registry), address_of_text(gateway)) {
                    (Some(r), Some(g)) => config matches Ok(c) && c.id@ == id && c.provider_http@
                        == url && c.provider_timeout == Some(options.evm_rpc_timeout)
                        && c.auth_token == options.evm_rpc_auth_token && c.registry_addr@ == r
                        && c.gateway_addr@ == g,
                    _ => config matches Err(Error::InvalidAddress),
                }
            },
        },
    }
}

impl Network {
    /// The address format of the network. It is to be set before addresses
    /// are written or read as text.
    pub fn init(&self) -> (format: AddressNetwork)
        ensures
            format == match *self {
                Network::Mainnet => AddressNetwork::Mainnet,
                _ => AddressNetwork::Testnet,
            },
    {
        match self {
            Network::Mainnet => AddressNetwork::Mainnet,
            Network::Testnet | Network::Localnet | Network::Devnet => AddressNetwork::Testnet,
        }
    }

    /// The text of the subnet ID of the network.
    pub open spec fn subnet_id_text(self) -> Option<Seq<char>> {
        match self {
            Network::Mainnet => None,
            Network::Testnet => Some(TESTNET_SUBNET_ID@),
            Network::Localnet => Some(LOCALNET_SUBNET_ID@),
            Network::Devnet => Some(DEVNET_SUBNET_ID@),
        }
    }

    /// Returns the network [`SubnetID`].
    pub fn subnet_id(&self) -> (id: Result<SubnetID, Error>)
        ensures
            match self.subnet_id_text() {
                None => id == Err::<SubnetID, Error>(Error::PreMainnet),
                Some(text) => match subnet_of_text(text) {
                    Some(view) => id matches Ok(s) && s@ == view,
                    None => id matches Err(Error::InvalidSubnetId(t)) && t@ == text,
                },
            },
    {
        match self {
            Network::Mainnet => Err(Error::PreMainnet),
            Network::Testnet => SubnetID::from_str(TESTNET_SUBNET_ID),
            Network::Localnet => SubnetID::from_str(LOCALNET_SUBNET_ID),
            Network::Devnet => SubnetID::from_str(DEVNET_SUBNET_ID),
        }
    }

    /// Returns the URL of the CometBFT RPC API.
    pub fn rpc_url(&self) -> (url: Result<&'static str, Error>)
        ensures
            match *self {
                Network::Mainnet => url == Err::<&'static str, Error>(Error::PreMainnet),
                Network::Testnet => url == Ok::<&'static str, Error>(TESTNET_RPC_URL),
                Network::Localnet | Network::Devnet => url == Ok::<&'static str, Error>(
                    LOCALNET_RPC_URL,
                ),
            },
    {
        match self {
            Network::Mainnet => Err(Error::PreMainnet),
            Network::Testnet => Ok(TESTNET_RPC_URL),
            Network::Localnet | Network::Devnet => Ok(LOCALNET_RPC_URL),
        }
    }

    /// Returns the URL of the Object API.
    pub fn object_api_url(&self) -> (url: Result<&'static str, Error>)
        ensures
            match *self {
                Network::Mainnet => url == Err::<&'static str, Error>(Error::PreMainnet),
                Network::Testnet => url == Ok::<&'static str, Error>(TESTNET_OBJECT_API_URL),
                Network::Localnet | Network::Devnet => url == Ok::<&'static str, Error>(
                    LOCALNET_OBJECT_API_URL,
                ),
            },
    {
        match self {
            Network::Mainnet => Err(Error::PreMainnet),
            Network::Testnet => Ok(TESTNET_OBJECT_API_URL),
            Network::Localnet | Network::Devnet => Ok(LOCALNET_OBJECT_API_URL),
        }
    }

    /// Returns the URL of the EVM RPC API.
    pub fn evm_rpc_url(&self) -> (url: Result<&'static str, Error>)
        ensures
            testnet_only(*self, url),
            *self == Network::Testnet ==> url == Ok::<&'static str, Error>(TESTNET_EVM_RPC_URL),
    {
        match self {
            Network::Mainnet => Err(Error::PreMainnet),
            Network::Testnet => Ok(TESTNET_EVM_RPC_URL),
            Network::Localnet | Network::Devnet => Err(Error::NoParent),
        }
    }

    /// Returns the address of the EVM Gateway contract.
    pub fn evm_gateway(&self) -> (address: Result<Address, Error>)
        ensures
            testnet_only(*self, address),
            *self == Network::Testnet ==> preset_address(TESTNET_EVM_GATEWAY_ADDRESS@, address),
    {
        match self {
            Network::Mainnet => Err(Error::PreMainnet),
            Network::Testnet => parse_address(TESTNET_EVM_GATEWAY_ADDRESS),
            Network::Localnet | Network::Devnet => Err(Error::NoParent),
        }
    }

    /// Returns the address of the EVM Registry contract.
    pub fn evm_registry(&self) -> (address: Result<Address, Error>)
        ensures
            testnet_only(*self, address),
            *self == Network::Testnet ==> preset_address(TESTNET_EVM_REGISTRY_ADDRESS@, address),
    {
        match self {
            Network::Mainnet => Err(Error::PreMainnet),
            Network::Testnet => parse_address(TESTNET_EVM_REGISTRY_ADDRESS),
            Network::Localnet | Network::Devnet => Err(Error::NoParent),
        }
    }

    /// Returns the URL of the parent EVM RPC API.
    pub fn parent_evm_rpc_url(&self) -> (url: Result<&'static str, Error>)
        ensures
            testnet_only(*self, url),
            *self == Network::Testnet ==> url == Ok::<&'static str, Error>(
                TESTNET_PARENT_EVM_RPC_URL,
            ),
    {
        match self {
            Network::Mainnet => Err(Error::PreMainnet),
            Network::Testnet => Ok(TESTNET_PARENT_EVM_RPC_URL),
            Network::Localnet | Network::Devnet => Err(Error::NoParent),
        }
    }

    /// Returns the address of the parent EVM Gateway contract.
    pub fn parent_evm_gateway(&self) -> (address: Result<Address, Error>)
        ensures
            testnet_only(*self, address),
            *self == Network::Testnet ==> preset_address(
                TESTNET_PARENT_EVM_GATEWAY_ADDRESS@,
                address,
            ),
    {
        match self {
            Network::Mainnet => Err(Error::PreMainnet),
            Network::Testnet => parse_address(TESTNET_PARENT_EVM_GATEWAY_ADDRESS),
            Network::Localnet | Network::Devnet => Err(Error::NoParent),
        }
    }

    /// Returns the address of the parent EVM Registry contract.
    pub fn parent_evm_registry(&self) -> (address: Result<Address, Error>)
        ensures
            testnet_only(*self, address),
            *self == Network::Testnet ==> preset_address(
                TESTNET_PARENT_EVM_REGISTRY_ADDRESS@,
                address,
            ),
    {
        match self {
            Network::Mainnet => Err(Error::PreMainnet),
            Network::Testnet => parse_address(TESTNET_PARENT_EVM_REGISTRY_ADDRESS),
            Network::Localnet | Network::Devnet => Err(Error::NoParent),
        }
    }

    /// Returns the network [`EVMSubnet`] configuration: the first preset
    /// that is missing or malformed is the error.
    pub fn subnet_config(&self, options: SubnetOptions) -> (config: Result<EVMSubnet, Error>)
        ensures
            preset_config(
                *self,
                options,
                TESTNET_EVM_RPC_URL@,
                TESTNET_EVM_REGISTRY_ADDRESS@,
                TESTNET_EVM_GATEWAY_ADDRESS@,
                config,
            ),
    {
        let id = match self.subnet_id() {
            Ok(id) => id,
            Err(e) => {
                return Err(e);
            },
        };
        let provider_http = match self.evm_rpc_url() {
            Ok(url) => String::from_str(url),
            Err(e) => {
                return Err(e);
            },
        };
        let registry_addr = match self.evm_registry() {
            Ok(address) => address,
            Err(e) => {
                return Err(e);
            },
        };
        let gateway_addr = match self.evm_gateway() {
            Ok(address) => address,
            Err(e) => {
                return Err(e);
            },
        };
        Ok(
            EVMSubnet {
                id,
                provider_http,
                provider_timeout: Some(options.evm_rpc_timeout),
                auth_token: options.evm_rpc_auth_token,
                registry_addr,
                gateway_addr,
            },
        )
    }

    /// Returns the network [`EVMSubnet`] parent configuration: the first
    /// preset that is missing or malformed is the error.
    pub fn parent_subnet_config(&self, options: SubnetOptions) -> (config: Result<EVMSubnet, Error>)
        ensures
            preset_config(
                *self,
                options,
                TESTNET_PARENT_EVM_RPC_URL@,
                TESTNET_PARENT_EVM_REGISTRY_ADDRESS@,
                TESTNET_PARENT_EVM_GATEWAY_ADDRESS@,
                config,
            ),
    {
        let id = match self.subnet_id() {
            Ok(id) => id,
            Err(e) => {
                return Err(e);
            },
        };
        let provider_http = match self.parent_evm_rpc_url() {
            Ok(url) => String::from_str(url),
            Err(e) => {
                return Err(e);
            },
        };
        let registry_addr = match self.parent_evm_registry() {
            Ok(address) => address,
            Err(e) => {
                return Err(e);
            },
        };
        let gateway_addr = match self.parent_evm_gateway() {
            Ok(address) => address,
            Err(e) => {
                return Err(e);
            },
        };
        Ok(
            EVMSubnet {
                id,
                provider_http,
                provider_timeout: Some(options.evm_rpc_timeout),
                auth_token: options.evm_rpc_auth_token,
                registry_addr,
                gateway_addr,
            },
        )
    }

    /// The network that a name stands for.
    pub open spec fn named(s: Seq<char>) -> Option<Network> {
        if s == "mainnet"@ {
            Some(Network::Mainnet)
        } else if s == "testnet"@ {
            Some(Network::Testnet)
        } else if s == "localnet"@ {
            Some(Network::Localnet)
        } else if s == "devnet"@ {
            Some(Network::Devnet)
        } else {
            None
        }
    }

    /// Reads a network from its name.
    pub fn from_str(s: &str) -> (network: Result<Network, Error>)
        ensures
            match Self::named(s@) {
                Some(n) => network == Ok::<Network, Error>(n),
                None => network == Err::<Network, Error>(Error::UnknownNetwork),
            },
    {
        if same_text(s, "mainnet") {
            Ok(Network::Mainnet)
        } else if same_text(s, "testnet") {
            Ok(Network::Testnet)
        } else if same_text(s, "localnet") {
            Ok(Network::Localnet)
        } else if same_text(s, "devnet") {
            Ok(Network::Devnet)
        } else {
            Err(Error::UnknownNetwork)
        }
    }

    /// The name of the network.
    pub open spec fn name(self) -> Seq<char> {
        match self {
            Network::Mainnet => "mainnet"@,
            Network::Testnet => "testnet"@,
            Network::Localnet => "localnet"@,
            Network::Devnet => "devnet"@,
        }
    }

    /// The name of the network.
    pub fn to_string(&self) -> (name: String)
        ensures
            name@ == self.name(),
    {
        match self {
            Network::Mainnet => String::from_str("mainnet"),
            Network::Testnet => String::from_str("testnet"),
            Network::Localnet => String::from_str("localnet"),
            Network::Devnet => String::from_str("devnet"),
        }
    }
}

} // verus!
