//! Addresses of accounts and actors.

use vstd::prelude::*;

use crate::error::Error;
use crate::text::copy_bytes;

verus! {

/// Length of the hash in a key or actor address.
pub const PAYLOAD_HASH_LEN: usize = 20;

/// Length of the public key in a BLS address.
pub const BLS_PUB_LEN: usize = 48;

/// Greatest length of the subaddress of a delegated address.
pub const MAX_SUBADDRESS_LEN: usize = 54;

/// Length of an Ethereum address.
pub const ETH_ADDRESS_LEN: usize = 20;

/// ID of the actor that manages Ethereum accounts: the namespace of the
/// delegated addresses that stand for Ethereum addresses.
pub const EAM_ACTOR_ID: u64 = 10;

/// ID of the system actor.
pub const SYSTEM_ACTOR_ID: u64 = 0;

/// ID of the actor that deploys machines.
pub const ADM_ACTOR_ID: u64 = 17;

/// An address, by protocol.
#[derive(Debug, Clone, PartialEq, Eq, Hash)]
pub enum Address {
    /// The ID of an actor.
    Id(u64),
    /// The hash of a secp256k1 public key.
    Secp256k1(Vec<u8>),
    /// The hash of actor data.
    Actor(Vec<u8>),
    /// A BLS public key.
    Bls(Vec<u8>),
    /// A subaddress in the namespace of an actor.
    Delegated { namespace: u64, subaddress: Vec<u8> },
}

/// What an address holds.
pub enum AddressView {
    Id(u64),
    Secp256k1(Seq<u8>),
    Actor(Seq<u8>),
    Bls(Seq<u8>),
    Delegated { namespace: u64, subaddress: Seq<u8> },
}

impl AddressView {
    /// The payload has the length that its protocol asks for.
    pub open spec fn wf(self) -> bool {
        match self {
            AddressView::Id(_) => true,
            AddressView::Secp256k1(hash) => hash.len() == PAYLOAD_HASH_LEN,
            AddressView::Actor(hash) => hash.len() == PAYLOAD_HASH_LEN,
            AddressView::Bls(key) => key.len() == BLS_PUB_LEN,
            AddressView::Delegated { namespace, subaddress } => subaddress.len()
                <= MAX_SUBADDRESS_LEN,
        }
    }
}

impl View for Address {
    type V = AddressView;

    open spec fn view(&self) -> AddressView {
        match self {
            Address::Id(id) => AddressView::Id(*id),
            Address::Secp256k1(hash) => AddressView::Secp256k1(hash@),
            Address::Actor(hash) => AddressView::Actor(hash@),
            Address::Bls(key) => AddressView::Bls(key@),
            Address::Delegated { namespace, subaddress } => AddressView::Delegated {
                namespace: *namespace,
                subaddress: subaddress@,
            },
        }
    }
}

impl Address {
    /// The payload has the length that its protocol asks for.
    pub open spec fn wf(&self) -> bool {
        self@.wf()
    }

    /// The address of the actor with this ID.
    pub fn new_id(id: u64) -> (address: Address)
        ensures
            address@ == AddressView::Id(id),
            address.wf(),
    {
        Address::Id(id)
    }

    /// The address that stands for an Ethereum address: the ID address of
    /// the actor where the first byte marks an actor ID, else the
    /// delegated address in the namespace of Ethereum accounts.
    pub fn new_eth(eth_address: &Vec<u8>) -> (address: Address)
        requires
            eth_address@.len() == ETH_ADDRESS_LEN,
        ensures
            address@ == eth_address_view(eth_address@),
            address.wf(),
    {
        if eth_address[0] == MASKED_ID_PREFIX {
            let mut id: u64 = 0;
            let mut i: usize = 12;
            while i < 20
                invariant
                    12 <= i <= 20,
                    eth_address@.len() == ETH_ADDRESS_LEN,
                    id == big_endian(eth_address@.subrange(12, i as int)),
                    id < pow256((i - 12) as nat),
                decreases 20 - i,
            {
                proof {
                    let upto = eth_address@.subrange(12, i + 1);
                    assert(upto.drop_last() == eth_address@.subrange(12, i as int));
                    assert(upto.last() == eth_address@[i as int]);
                    lemma_pow256((i - 12) as nat);
                }
                id = id * 256 + eth_address[i] as u64;
                i += 1;
            }
            Address::Id(id)
        } else {
            Address::Delegated { namespace: EAM_ACTOR_ID, subaddress: copy_bytes(eth_address) }
        }
    }

    /// A copy of the address.
    pub fn copy(&self) -> (address: Address)
        ensures
            address@ == self@,
    {
        match self {
            Address::Id(id) => Address::Id(*id),
            Address::Secp256k1(hash) => Address::Secp256k1(copy_bytes(hash)),
            Address::Actor(hash) => Address::Actor(copy_bytes(hash)),
            Address::Bls(key) => Address::Bls(copy_bytes(key)),
            Address::Delegated { namespace, subaddress } => Address::Delegated {
                namespace: *namespace,
                subaddress: copy_bytes(subaddress),
            },
        }
    }

    /// Whether two addresses are the same.
    pub fn same(&self, other: &Address) -> (same: bool)
        ensures
            same == (self@ == other@),
    {
        match (self, other) {
            (Address::Id(a), Address::Id(b)) => *a == *b,
            (Address::Secp256k1(a), Address::Secp256k1(b)) => {
                let same = crate::text::bytes_eq(a.as_slice(), b.as_slice());
                same
            },
            (Address::Actor(a), Address::Actor(b)) => {
                let same = crate::text::bytes_eq(a.as_slice(), b.as_slice());
                same
            },
            (Address::Bls(a), Address::Bls(b)) => {
                let same = crate::text::bytes_eq(a.as_slice(), b.as_slice());
                same
            },
            (
                Address::Delegated { namespace: na, subaddress: sa },
                Address::Delegated { namespace: nb, subaddress: sb },
            ) => {
                let same = crate::text::bytes_eq(sa.as_slice(), sb.as_slice());
                *na == *nb && same
            },
            _ => false,
        }
    }
}

/// The first byte of an Ethereum address that stands for an actor ID.
pub const MASKED_ID_PREFIX: u8 = 0xff;

/// The number that bytes write, the first byte counting most.
pub open spec fn big_endian(bytes: Seq<u8>) -> nat
    decreases bytes.len(),
{
    if bytes.len() == 0 {
        0
    } else {
        big_endian(bytes.drop_last()) * 256 + bytes.last() as nat
    }
}

/// 256 to a power.
pub open spec fn pow256(n: nat) -> nat
    decreases n,
{
    if n == 0 {
        1
    } else {
        256 * pow256((n - 1) as nat)
    }
}

proof fn lemma_pow256(n: nat)
    requires
        n < 8,
    ensures
        pow256(n) * 256 == pow256(n + 1),
        pow256(n + 1) <= 0x1_0000_0000_0000_0000,
    decreases n,
{
    reveal_with_fuel(pow256, 10);
}

/// What an Ethereum address of twenty bytes stands for: an actor ID, written
/// in its last eight bytes, where the first byte is `MASKED_ID_PREFIX`, else
/// a subaddress in the namespace of Ethereum accounts.
pub open spec fn eth_address_view(eth_address: Seq<u8>) -> AddressView {
    if eth_address[0] == MASKED_ID_PREFIX {
        AddressView::Id(big_endian(eth_address.subrange(12, 20)) as u64)
    } else {
        AddressView::Delegated { namespace: EAM_ACTOR_ID, subaddress: eth_address }
    }
}

/// The Ethereum address behind a delegated address: the first twenty bytes
/// of its subaddress.
pub open spec fn delegated_eth_address(address: AddressView) -> Option<Seq<u8>> {
    match address {
        AddressView::Delegated { namespace, subaddress } => if subaddress.len()
            >= ETH_ADDRESS_LEN {
            Some(subaddress.take(ETH_ADDRESS_LEN as int))
        } else {
            None
        },
        _ => None,
    }
}

/// Converts f-address to eth-address. Only delegated address is supported.
pub fn get_delegated_address(a: &Address) -> (eth: Result<Vec<u8>, Error>)
    ensures
        match delegated_eth_address(a@) {
            Some(bytes) => eth matches Ok(e) && e@ == bytes,
            None => eth == Err::<Vec<u8>, Error>(Error::InvalidAddress),
        },
{
    match a {
        Address::Delegated { namespace, subaddress } => {
            if subaddress.len() < ETH_ADDRESS_LEN {
                return Err(Error::InvalidAddress);
            }
            let mut eth: Vec<u8> = Vec::new();
            let mut i: usize = 0;
            while i < ETH_ADDRESS_LEN
                invariant
                    i <= ETH_ADDRESS_LEN,
                    subaddress@.len() >= ETH_ADDRESS_LEN,
                    eth@ == subaddress@.take(i as int),
                decreases ETH_ADDRESS_LEN - i,
            {
                eth.push(subaddress[i]);
                assert(subaddress@.take(i + 1) == subaddress@.take(i as int).push(
                    subaddress@[i as int],
                ));
                i += 1;
            }
            Ok(eth)
        },
        _ => Err(Error::InvalidAddress),
    }
}

} // verus!
