//! A signer with a key and a sequence.

use vstd::prelude::*;

use crate::address::{get_delegated_address, delegated_eth_address, Address, AddressView};
use crate::error::Error;
use crate::provider::message::{GasParams, Message};
use crate::provider::query::FvmQueryHeight;
use crate::signer::signer::{
    object_view, transaction_message, MessageObject, Signer, SigningRequest, VerifyRequest,
};
use crate::signer::subnet::{chain_id_of, SubnetID, SubnetIDView};
use crate::text::copy_bytes;

verus! {

/// How the address of an account is derived from its public key.
#[derive(Debug, Clone, Copy, PartialEq, Eq)]
pub enum AccountKind {
    Regular,
    Ethereum,
}

/// The part of an actor's on-chain state that a signer reads.
#[derive(Debug, Clone, Copy, PartialEq, Eq)]
pub struct ActorState {
    pub sequence: u64,
    pub balance: u128,
}

/// The height at which the sequence of a signer is read from the chain: the
/// pending state, which takes the signer's own transactions in flight into
/// account.
pub open spec fn sequence_query_height() -> FvmQueryHeight {
    FvmQueryHeight::Pending
}

/// What a transaction does to a sequence: the sequence that goes into the
/// message and the sequence that follows, or why there is no transaction.
pub open spec fn allocate(sequence: Option<u64>) -> Result<(u64, Option<u64>), Error> {
    match sequence {
        None => Err(Error::SequenceUnset),
        Some(s) => if s == u64::MAX {
            Err(Error::SequenceExhausted)
        } else {
            Ok((s, Some((s + 1) as u64)))
        },
    }
}

/// The sequence of a wallet after `n` calls of `transaction`.
pub open spec fn sequence_after(start: Option<u64>, n: nat) -> Option<u64>
    decreases n,
{
    if n == 0 {
        start
    } else {
        let before = sequence_after(start, (n - 1) as nat);
        match allocate(before) {
            Ok((_, next)) => next,
            Err(_) => before,
        }
    }
}

/// The sequence that the call of `transaction` number `i`, counted from
/// zero, puts into its message.
pub open spec fn nth_allocated(start: Option<u64>, i: nat) -> Result<u64, Error> {
    match allocate(sequence_after(start, i)) {
        Ok((s, _)) => Ok(s),
        Err(e) => Err(e),
    }
}

/// Sequences are never reused: `n` transactions from one wallet that starts
/// at `start` carry exactly `start`, `start + 1`, ..., `start + n - 1`, each
/// once, whatever the order in which the callers took their turn.
pub proof fn lemma_sequences_are_contiguous(start: u64, n: nat)
    requires
        start + n <= u64::MAX,
    ensures
        sequence_after(Some(start), n) == Some((start + n) as u64),
        forall|i: nat| i < n ==> #[trigger] nth_allocated(Some(start), i) == Ok::<u64, Error>((start + i) as u64),
        forall|i: nat, j: nat|
            i < j < n ==> #[trigger] nth_allocated(Some(start), i) != #[trigger] nth_allocated(
                Some(start),
                j,
            ),
    decreases n,
{
    if n > 0 {
        lemma_sequences_are_contiguous(start, (n - 1) as nat);
        assert forall|i: nat| i < n implies #[trigger] nth_allocated(Some(start), i) == Ok::<
            u64,
            Error,
        >((start + i) as u64) by {
            if i + 1 < n {
            } else {
                assert(sequence_after(Some(start), i) == Some((start + i) as u64));
            }
        }
    }
}

/// A signer that holds a secret key and allocates sequences.
#[derive(Debug, Clone)]
pub struct Wallet {
    addr: Address,
    sk: Vec<u8>,
    kind: AccountKind,
    subnet_id: SubnetID,
    sequence: Option<u64>,
}

impl Wallet {
    /// The sequence of the next transaction, if it has been set.
    pub closed spec fn sequence_view(&self) -> Option<u64> {
        self.sequence
    }

    /// The subnet that the wallet signs for.
    pub closed spec fn subnet_view(&self) -> SubnetIDView {
        self.subnet_id@
    }

    /// The bytes of the secret key.
    pub closed spec fn key_view(&self) -> Seq<u8> {
        self.sk@
    }

    /// The kind of account.
    pub closed spec fn kind_view(&self) -> AccountKind {
        self.kind
    }

    /// A wallet for a secp256k1 key and the address derived from it. The
    /// sequence is unset.
    pub fn new_secp256k1(sk: Vec<u8>, kind: AccountKind, addr: Address, subnet_id: SubnetID) -> (wallet:
        Wallet)
        ensures
            wallet.address_view() == addr@,
            wallet.key_view() == sk@,
            wallet.kind_view() == kind,
            wallet.subnet_view() == subnet_id@,
            wallet.sequence_view() is None,
    {
        Wallet { addr, sk, kind, subnet_id, sequence: None }
    }

    /// The sequence of the next transaction, if it has been set.
    pub fn sequence(&self) -> (sequence: Option<u64>)
        ensures
            sequence == self.sequence_view(),
    {
        self.sequence
    }

    /// The kind of account.
    pub fn kind(&self) -> (kind: AccountKind)
        ensures
            kind == self.kind_view(),
    {
        self.kind
    }

    /// Returns the signer EVM address.
    pub fn evm_address(&self) -> (eth: Result<Vec<u8>, Error>)
        ensures
            match delegated_eth_address(self.address_view()) {
                Some(bytes) => eth matches Ok(e) && e@ == bytes,
                None => eth == Err::<Vec<u8>, Error>(Error::InvalidAddress),
            },
    {
        get_delegated_address(&self.addr)
    }

    /// Initialize the sequence from the actor's on-chain state, read at
    /// `sequence_query_height`. Without an actor the sequence stays as it is.
    pub fn init_sequence(&mut self, actor: Option<ActorState>) -> (done: Result<(), Error>)
        ensures
            final(self).address_view() == old(self).address_view(),
            final(self).key_view() == old(self).key_view(),
            final(self).kind_view() == old(self).kind_view(),
            final(self).subnet_view() == old(self).subnet_view(),
            match actor {
                Some(state) => done is Ok && final(self).sequence_view() == Some(state.sequence),
                None => done == Err::<(), Error>(Error::ActorNotFound) && final(self).sequence_view() == old(self).sequence_view(),
            },
    {
        match actor {
            Some(state) => {
                self.sequence = Some(state.sequence);
                Ok(())
            },
            None => Err(Error::ActorNotFound),
        }
    }

    /// Set the sequence to the given value. Without a value nothing changes
    /// and the result is the height at which to read the actor's state for
    /// `init_sequence`.
    pub fn set_sequence(&mut self, maybe_sequence: Option<u64>) -> (query: Option<FvmQueryHeight>)
        ensures
            final(self).address_view() == old(self).address_view(),
            final(self).key_view() == old(self).key_view(),
            final(self).kind_view() == old(self).kind_view(),
            final(self).subnet_view() == old(self).subnet_view(),
            match maybe_sequence {
                Some(sequence) => query is None && final(self).sequence_view() == Some(sequence),
                None => query == Some(sequence_query_height()) && final(self).sequence_view()
                    == old(self).sequence_view(),
            },
    {
        match maybe_sequence {
            Some(sequence) => {
                self.sequence = Some(sequence);
                None
            },
            None => Some(FvmQueryHeight::Pending),
        }
    }
}

impl Signer for Wallet {
    closed spec fn address_view(&self) -> AddressView {
        self.addr@
    }

    fn address(&self) -> (address: Address) {
        self.addr.copy()
    }

    open spec fn secret_key_view(&self) -> Option<Seq<u8>> {
        Some(self.key_view())
    }

    open spec fn subnet_id_view(&self) -> Option<SubnetIDView> {
        Some(self.subnet_view())
    }

    fn secret_key(&self) -> (key: Option<Vec<u8>>) {
        Some(copy_bytes(&self.sk))
    }

    fn subnet_id(&self) -> (id: Option<SubnetID>) {
        Some(self.subnet_id.copy())
    }

    /// Reads the current sequence, puts it into the message and moves the
    /// sequence on by one, all in one step under the exclusive borrow.
    fn transaction(
        &mut self,
        to: Address,
        value: u128,
        method_num: u64,
        params: Vec<u8>,
        object: Option<MessageObject>,
        gas_params: GasParams,
    ) -> (request: Result<SigningRequest, Error>)
        ensures
            final(self).address_view() == old(self).address_view(),
            final(self).key_view() == old(self).key_view(),
            final(self).kind_view() == old(self).kind_view(),
            final(self).subnet_view() == old(self).subnet_view(),
            match allocate(old(self).sequence_view()) {
                Ok((sequence, next)) => final(self).sequence_view() == next && (request matches Ok(
                    r,
                ) && r.message@ == transaction_message(
                    old(self).address_view(),
                    to@,
                    sequence,
                    value,
                    method_num,
                    params@,
                    gas_params,
                ) && object_view(r.object) == object_view(object) && r.chain_id == chain_id_of(
                    old(self).subnet_view(),
                )),
                Err(e) => request == Err::<SigningRequest, Error>(e) && final(self).sequence_view() == old(self).sequence_view(),
            },
    {
        let sequence = match self.sequence {
            Some(sequence) => sequence,
            None => {
                return Err(Error::SequenceUnset);
            },
        };
        if sequence == u64::MAX {
            return Err(Error::SequenceExhausted);
        }
        let message = Message {
            version: 0,
            from: self.addr.copy(),
            to,
            sequence,
            value,
            method_num,
            params,
            gas_limit: gas_params.gas_limit,
            gas_fee_cap: gas_params.gas_fee_cap,
            gas_premium: gas_params.gas_premium,
        };
        self.sequence = Some(sequence + 1);
        Ok(SigningRequest { message, object, chain_id: self.subnet_id.chain_id() })
    }

    fn sign_message(&self, message: Message, object: Option<MessageObject>) -> (request: Result<
        SigningRequest,
        Error,
    >)
        ensures
            request matches Ok(r) && r.message@ == message@ && object_view(r.object) == object_view(
                object,
            ) && r.chain_id == chain_id_of(self.subnet_view()),
    {
        Ok(SigningRequest { message, object, chain_id: self.subnet_id.chain_id() })
    }

    fn verify_message(
        &self,
        message: Message,
        object: Option<MessageObject>,
        signature: Vec<u8>,
    ) -> (request: Result<VerifyRequest, Error>)
        ensures
            request matches Ok(r) && r.message@ == message@ && object_view(r.object) == object_view(
                object,
            ) && r.signature@ == signature@ && r.chain_id == chain_id_of(self.subnet_view()),
    {
        Ok(VerifyRequest { message, object, signature, chain_id: self.subnet_id.chain_id() })
    }
}

} // verus!
