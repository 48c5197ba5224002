//! Accounts: sequences read from the chain.

use vstd::prelude::*;

use crate::error::Error;
use crate::signer::wallet::ActorState;

verus! {

/// A static wrapper around ADM account methods.
pub struct Account {}

impl Account {
    /// The sequence (nonce) of an account, from the state that the chain
    /// returned for its address. Without a state the account does not exist.
    pub fn sequence(state: Option<ActorState>) -> (sequence: Result<u64, Error>)
        ensures
            match state {
                Some(s) => sequence == Ok::<u64, Error>(s.sequence),
                None => sequence == Err::<u64, Error>(Error::ActorNotFound),
            },
    {
        match state {
            Some(state) => Ok(state.sequence),
            None => Err(Error::ActorNotFound),
        }
    }
}

} // verus!
