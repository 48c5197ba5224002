//! Broadcast modes and transaction receipts.

use vstd::prelude::*;

use crate::error::Error;
use crate::text::same_text;

verus! {

/// Controls how the provider waits for the result of a transaction.
#[derive(Debug, Copy, Clone, PartialEq, Eq)]
pub enum BroadcastMode {
    /// Return immediately after the transaction is broadcasted without
    /// waiting for check results.
    Async,
    /// Wait for the check results before returning from broadcast.
    Sync,
    /// Wait for the delivery results before returning from broadcast.
    Commit,
}

impl Default for BroadcastMode {
    fn default() -> (mode: Self)
        ensures
            mode == BroadcastMode::Commit,
    {
        BroadcastMode::Commit
    }
}

impl BroadcastMode {
    /// The mode that a name stands for.
    pub open spec fn named(s: Seq<char>) -> Option<BroadcastMode> {
        if s == "async"@ {
            Some(BroadcastMode::Async)
        } else if s == "sync"@ {
            Some(BroadcastMode::Sync)
        } else if s == "commit"@ {
            Some(BroadcastMode::Commit)
        } else {
            None
        }
    }

    /// Reads a mode from its name: `async`, `sync` or `commit`.
    pub fn from_str(s: &str) -> (mode: Result<BroadcastMode, Error>)
        ensures
            match Self::named(s@) {
                Some(m) => mode == Ok::<BroadcastMode, Error>(m),
                None => mode == Err::<BroadcastMode, Error>(Error::InvalidBroadcastMode),
            },
    {
        if same_text(s, "async") {
            Ok(BroadcastMode::Async)
        } else if same_text(s, "sync") {
            Ok(BroadcastMode::Sync)
        } else if same_text(s, "commit") {
            Ok(BroadcastMode::Commit)
        } else {
            Err(Error::InvalidBroadcastMode)
        }
    }
}

/// The current status of a transaction.
#[derive(Debug, Copy, Clone, PartialEq, Eq)]
pub enum TxStatus {
    /// The transaction is in the memory pool waiting to be included in a
    /// block.
    Pending,
    /// The transaction has been committed to a finalized block.
    Committed,
}

/// The receipt of a transaction.
#[derive(Debug, Clone, PartialEq, Eq)]
pub struct TxReceipt<T> {
    /// The transaction's current status.
    pub status: TxStatus,
    /// The hash of the transaction.
    pub hash: Vec<u8>,
    /// The block height at which the transaction was included.
    pub height: Option<u64>,
    /// Gas used by the transaction.
    pub gas_used: i64,
    /// Data returned by the transaction.
    pub data: Option<T>,
}

impl<D> TxReceipt<D> {
    /// A pending receipt carries neither height nor gas nor data; a
    /// committed one always carries its height.
    pub open spec fn wf(&self) -> bool {
        match self.status {
            TxStatus::Pending => self.height is None && self.gas_used == 0 && self.data is None,
            TxStatus::Committed => self.height is Some,
        }
    }

    /// Create a new receipt with status pending.
    pub fn pending(hash: Vec<u8>) -> (receipt: Self)
        ensures
            receipt == (TxReceipt::<D> {
                status: TxStatus::Pending,
                hash,
                height: None,
                gas_used: 0,
                data: None,
            }),
            receipt.wf(),
    {
        TxReceipt { status: TxStatus::Pending, hash, height: None, gas_used: 0, data: None }
    }

    /// Create a new receipt with status committed.
    pub fn committed(hash: Vec<u8>, height: u64, gas_used: i64, data: Option<D>) -> (receipt: Self)
        ensures
            receipt == (TxReceipt::<D> {
                status: TxStatus::Committed,
                hash,
                height: Some(height),
                gas_used,
                data,
            }),
            receipt.wf(),
    {
        TxReceipt { status: TxStatus::Committed, hash, height: Some(height), gas_used, data }
    }
}

} // verus!
