//! A signer without a key: it can be asked who it is and nothing else.

use vstd::prelude::*;

use crate::address::{get_delegated_address, delegated_eth_address, Address, AddressView};
use crate::error::Error;
use crate::provider::message::{GasParams, Message};
use crate::signer::signer::{MessageObject, Signer, SigningRequest, VerifyRequest};
use crate::signer::subnet::{SubnetID, SubnetIDView};

verus! {

/// A read-only signer.
#[derive(Clone, Debug)]
pub struct Void {
    address: Address,
}

impl Void {
    /// A signer that only has an address.
    pub fn new(address: Address) -> (void: Void)
        ensures
            void.address_view() == address@,
    {
        Void { address }
    }

    /// Returns the signer EVM address.
    pub fn evm_address(&self) -> (eth: Result<Vec<u8>, Error>)
        ensures
            match delegated_eth_address(self.address_view()) {
                Some(bytes) => eth matches Ok(e) && e@ == bytes,
                None => eth == Err::<Vec<u8>, Error>(Error::InvalidAddress),
            },
    {
        get_delegated_address(&self.address)
    }
}

impl Signer for Void {
    closed spec fn address_view(&self) -> AddressView {
        self.address@
    }

    fn address(&self) -> (address: Address) {
        self.address.copy()
    }

    open spec fn secret_key_view(&self) -> Option<Seq<u8>> {
        None
    }

    open spec fn subnet_id_view(&self) -> Option<SubnetIDView> {
        None
    }

    fn secret_key(&self) -> (key: Option<Vec<u8>>) {
        None
    }

    fn subnet_id(&self) -> (id: Option<SubnetID>) {
        None
    }

    fn transaction(
        &mut self,
        to: Address,
        value: u128,
        method_num: u64,
        params: Vec<u8>,
        object: Option<MessageObject>,
        gas_params: GasParams,
    ) -> (request: Result<SigningRequest, Error>)
        ensures
            request == Err::<SigningRequest, Error>(Error::VoidTransaction),
            final(self).address_view() == old(self).address_view(),
    {
        Err(Error::VoidTransaction)
    }

    fn sign_message(&self, message: Message, object: Option<MessageObject>) -> (request: Result<
        SigningRequest,
        Error,
    >)
        ensures
            request == Err::<SigningRequest, Error>(Error::VoidSign),
    {
        Err(Error::VoidSign)
    }

    fn verify_message(
        &self,
        message: Message,
        object: Option<MessageObject>,
        signature: Vec<u8>,
    ) -> (request: Result<VerifyRequest, Error>)
        ensures
            request == Err::<VerifyRequest, Error>(Error::VoidVerify),
    {
        Err(Error::VoidVerify)
    }
}

} // verus!
