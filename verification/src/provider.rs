//! Queries and transactions against the chain, decided on plain values.

pub mod json_rpc;
pub mod message;
pub mod query;
pub mod response;
pub mod tx;
pub mod util;

pub use tx::{BroadcastMode, TxReceipt, TxStatus};

use vstd::prelude::*;

verus! {

/// Get to the underlying client if necessary, for example, to query the
/// state of transactions.
pub trait TendermintClient<C> {
    /// The underlying client.
    fn underlying(&self) -> &C;
}

/// Provider capable of submitting queries and transactions.
pub trait Provider<C>: TendermintClient<C> {

}

} // verus!
