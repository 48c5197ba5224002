//! Messages and their gas parameters.

use vstd::prelude::*;

use crate::address::{Address, AddressView, SYSTEM_ACTOR_ID};

verus! {

/// The gas that a block can hold: the default limit of a message.
pub const BLOCK_GAS_LIMIT: u64 = 10_000_000_000;

/// Gas parameters for transactions. Amounts are in attoFIL.
#[derive(Clone, Copy, Debug, PartialEq, Eq)]
pub struct GasParams {
    /// Maximum amount of gas that can be charged.
    pub gas_limit: u64,
    /// Price of gas.
    ///
    /// Any discrepancy between this and the base fee is paid for
    /// by the validator who puts the transaction into the block.
    pub gas_fee_cap: u128,
    /// Gas premium.
    pub gas_premium: u128,
}

impl Default for GasParams {
    fn default() -> (params: Self)
        ensures
            params == (GasParams { gas_limit: BLOCK_GAS_LIMIT, gas_fee_cap: 0, gas_premium: 0 }),
    {
        GasParams { gas_limit: BLOCK_GAS_LIMIT, gas_fee_cap: 0, gas_premium: 0 }
    }
}

impl GasParams {
    /// The gas parameters of a transaction, each taken as given or else
    /// from the defaults.
    pub fn from_options(
        gas_limit: Option<u64>,
        gas_fee_cap: Option<u128>,
        gas_premium: Option<u128>,
    ) -> (params: Self)
        ensures
            params.gas_limit == match gas_limit {
                Some(limit) => limit,
                None => BLOCK_GAS_LIMIT,
            },
            params.gas_fee_cap == match gas_fee_cap {
                Some(cap) => cap,
                None => 0,
            },
            params.gas_premium == match gas_premium {
                Some(premium) => premium,
                None => 0,
            },
    {
        GasParams {
            gas_limit: match gas_limit {
                Some(limit) => limit,
                None => BLOCK_GAS_LIMIT,
            },
            gas_fee_cap: match gas_fee_cap {
                Some(cap) => cap,
                None => 0,
            },
            gas_premium: match gas_premium {
                Some(premium) => premium,
                None => 0,
            },
        }
    }
}

/// A message to an actor. Amounts are in attoFIL.
#[derive(Clone, Debug, PartialEq, Eq)]
pub struct Message {
    pub version: u64,
    pub from: Address,
    pub to: Address,
    pub sequence: u64,
    pub value: u128,
    pub method_num: u64,
    pub params: Vec<u8>,
    pub gas_limit: u64,
    pub gas_fee_cap: u128,
    pub gas_premium: u128,
}

/// What a message holds.
pub struct MessageView {
    pub version: u64,
    pub from: AddressView,
    pub to: AddressView,
    pub sequence: u64,
    pub value: u128,
    pub method_num: u64,
    pub params: Seq<u8>,
    pub gas_limit: u64,
    pub gas_fee_cap: u128,
    pub gas_premium: u128,
}

impl View for Message {
    type V = MessageView;

    open spec fn view(&self) -> MessageView {
        MessageView {
            version: self.version,
            from: self.from@,
            to: self.to@,
            sequence: self.sequence,
            value: self.value,
            method_num: self.method_num,
            params: self.params@,
            gas_limit: self.gas_limit,
            gas_fee_cap: self.gas_fee_cap,
            gas_premium: self.gas_premium,
        }
    }
}

/// A message that is only run locally: no sequence, no value, no gas.
pub open spec fn unsigned_message(
    from: AddressView,
    to: AddressView,
    method_num: u64,
    params: Seq<u8>,
) -> MessageView {
    MessageView {
        version: 0,
        from,
        to,
        sequence: 0,
        value: 0,
        method_num,
        params,
        gas_limit: 0,
        gas_fee_cap: 0,
        gas_premium: 0,
    }
}

/// Convenience method to create a local unsigned read-only message. It
/// comes from the system actor.
pub fn local_message(to: Address, method_num: u64, params: Vec<u8>) -> (message: Message)
    ensures
        message@ == unsigned_message(AddressView::Id(SYSTEM_ACTOR_ID), to@, method_num, params@),
{
    Message {
        version: 0,
        from: Address::new_id(SYSTEM_ACTOR_ID),
        to,
        sequence: 0,
        value: 0,
        method_num,
        params,
        gas_limit: 0,
        gas_fee_cap: 0,
        gas_premium: 0,
    }
}

/// Convenience method to create a local unsigned read-only object-carrying
/// message.
pub fn object_upload_message(from: Address, to: Address, method_num: u64, params: Vec<u8>) -> (message:
    Message)
    ensures
        message@ == unsigned_message(from@, to@, method_num, params@),
{
    Message {
        version: 0,
        from,
        to,
        sequence: 0,
        value: 0,
        method_num,
        params,
        gas_limit: 0,
        gas_fee_cap: 0,
        gas_premium: 0,
    }
}

/// The message with which gas is estimated: the same message with sequence
/// zero, so that the sender's nonce does not interfere.
pub fn gas_estimation_message(message: Message) -> (estimate: Message)
    ensures
        estimate@ == (MessageView { sequence: 0, ..message@ }),
{
    let mut estimate = message;
    estimate.sequence = 0;
    estimate
}

} // verus!
