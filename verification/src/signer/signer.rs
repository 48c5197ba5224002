//! What every signer offers, and what it hands to the code that holds the
//! key.

use vstd::prelude::*;

use crate::address::{Address, AddressView};
use crate::error::Error;
use crate::provider::message::{GasParams, Message, MessageView};
use crate::provider::response::Cid;
use crate::signer::subnet::{SubnetID, SubnetIDView};

verus! {

/// The context that a message about a staged object carries: the key, the
/// content identifier and the address of the machine.
#[derive(Clone, Debug, PartialEq, Eq)]
pub struct MessageObject {
    pub key: Vec<u8>,
    pub cid: Cid,
    pub address: Address,
}

/// What the context of a message holds.
pub struct MessageObjectView {
    pub key: Seq<u8>,
    pub cid: Seq<u8>,
    pub address: AddressView,
}

impl View for MessageObject {
    type V = MessageObjectView;

    open spec fn view(&self) -> MessageObjectView {
        MessageObjectView { key: self.key@, cid: self.cid@, address: self.address@ }
    }
}

impl MessageObject {
    /// The context for an object under a key in a machine.
    pub fn new(key: Vec<u8>, cid: Cid, address: Address) -> (object: MessageObject)
        ensures
            object@ == (MessageObjectView { key: key@, cid: cid@, address: address@ }),
    {
        MessageObject { key, cid, address }
    }
}

/// What an optional context holds.
pub open spec fn object_view(object: Option<MessageObject>) -> Option<MessageObjectView> {
    match object {
        Some(o) => Some(o@),
        None => None,
    }
}

/// A message to be signed with the key of the signer, for a chain.
#[derive(Clone, Debug, PartialEq, Eq)]
pub struct SigningRequest {
    pub message: Message,
    pub object: Option<MessageObject>,
    pub chain_id: u64,
}

/// A signature to be checked against a message, for a chain.
#[derive(Clone, Debug, PartialEq, Eq)]
pub struct VerifyRequest {
    pub message: Message,
    pub object: Option<MessageObject>,
    pub signature: Vec<u8>,
    pub chain_id: u64,
}

/// Trait that must be implemented by all signers.
pub trait Signer {
    /// The address that the signer sends from.
    spec fn address_view(&self) -> AddressView;

    /// Returns the signer address.
    fn address(&self) -> (address: Address)
        ensures
            address@ == self.address_view(),
    ;

    /// The bytes of the secret key, if the signer holds one.
    spec fn secret_key_view(&self) -> Option<Seq<u8>>;

    /// The subnet that the signer signs for, if it signs.
    spec fn subnet_id_view(&self) -> Option<SubnetIDView>;

    /// Returns the bytes of the signer's secret key if it exists.
    fn secret_key(&self) -> (key: Option<Vec<u8>>)
        ensures
            match self.secret_key_view() {
                Some(bytes) => key matches Some(k) && k@ == bytes,
                None => key is None,
            },
    ;

    /// Returns the signer [`SubnetID`] if it exists.
    ///
    /// This is used to derive a chain ID associated with a message.
    fn subnet_id(&self) -> (id: Option<SubnetID>)
        ensures
            match self.subnet_id_view() {
                Some(view) => id matches Some(s) && s@ == view,
                None => id is None,
            },
    ;

    /// Returns the message of a transaction, to be signed and submitted to a
    /// provider.
    fn transaction(
        &mut self,
        to: Address,
        value: u128,
        method_num: u64,
        params: Vec<u8>,
        object: Option<MessageObject>,
        gas_params: GasParams,
    ) -> Result<SigningRequest, Error>;

    /// Returns a raw message to be signed.
    fn sign_message(&self, message: Message, object: Option<MessageObject>) -> Result<
        SigningRequest,
        Error,
    >;

    /// Returns the check to make of a signature on a raw message.
    fn verify_message(
        &self,
        message: Message,
        object: Option<MessageObject>,
        signature: Vec<u8>,
    ) -> Result<VerifyRequest, Error>;
}

/// The message of a transaction.
pub open spec fn transaction_message(
    from: AddressView,
    to: AddressView,
    sequence: u64,
    value: u128,
    method_num: u64,
    params: Seq<u8>,
    gas_params: GasParams,
) -> MessageView {
    MessageView {
        version: 0,
        from,
        to,
        sequence,
        value,
        method_num,
        params,
        gas_limit: gas_params.gas_limit,
        gas_fee_cap: gas_params.gas_fee_cap,
        gas_premium: gas_params.gas_premium,
    }
}

} // verus!
