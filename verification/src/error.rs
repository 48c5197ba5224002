//! The errors that the library reports.

use vstd::prelude::*;

verus! {

/// The shapes that a payload is decoded as.
#[derive(Debug, Copy, Clone, PartialEq, Eq)]
pub enum Payload {
    /// Bytes wrapped in Base64 by the transport.
    Base64,
    /// A content identifier.
    Cid,
    /// A list of content identifiers.
    CidList,
    /// An unsigned number.
    Number,
    /// A list of bytes.
    Bytes,
    /// The root and index that a push returns.
    PushReturn,
}

/// What can go wrong on the client side of the network.
#[derive(Debug, Clone, PartialEq, Eq)]
pub enum Error {
    /// The transport could not be reached or timed out.
    Network(String),
    /// A read-only query came back with a failing exit code.
    QueryRejected { code: u32, info: String, log: String },
    /// The admission check or the execution of a transaction failed.
    TxRejected(String),
    /// The staging service reported another content identifier than the one
    /// computed locally.
    CidMismatch,
    /// A payload did not have the expected shape.
    Decode(Payload),
    /// A text or a byte string is no content identifier.
    InvalidCid,
    /// A fund transfer was sent but no receipt was seen in time.
    Unconfirmed,
    /// The signer holds no secret key.
    MissingSecretKey,
    /// The signer holds no subnet ID.
    MissingSubnetId,
    /// A void signer was asked to create a transaction.
    VoidTransaction,
    /// A void signer was asked to sign a message.
    VoidSign,
    /// A void signer was asked to verify a message.
    VoidVerify,
    /// The sequence of a wallet was used before it was set.
    SequenceUnset,
    /// The actor that a sequence was asked for does not exist.
    ActorNotFound,
    /// An object stream held no bytes.
    EmptyObject,
    /// An accumulator payload is larger than the limit.
    PayloadTooLarge,
    /// A byte range is malformed or does not fit the object.
    InvalidRange,
    /// The object is not in the store.
    ObjectNotFound,
    /// The object was staged but validators have not resolved it yet.
    ObjectNotResolved,
    /// No accumulator leaf is stored at the index.
    LeafNotFound(u64),
    /// The object provider is not configured.
    ObjectProviderRequired,
    /// The staging service refused an upload.
    UploadFailed(String),
    /// The staging service refused a download.
    DownloadFailed(String),
    /// The amount of a fund transfer does not fit the transaction value.
    InvalidFundValue,
    /// The chain has no base fee.
    BaseFeeMissing,
    /// The latest block could not be found.
    LatestBlockMissing,
    /// The broadcast mode is not one of `async`, `sync`, `commit`.
    InvalidBroadcastMode,
    /// The query height is neither `committed`, `pending` nor a number.
    InvalidHeight,
    /// The network name is unknown.
    UnknownNetwork,
    /// The network has no presets yet.
    PreMainnet,
    /// The network has no parent.
    NoParent,
    /// The subnet has no parent.
    SubnetHasNoParent,
    /// A subnet ID is malformed.
    InvalidSubnetId(String),
    /// An address is malformed.
    InvalidAddress,
    /// A secret key is not valid hex.
    InvalidSecretKeyHex,
    /// A token amount is no whole number of attoFIL that fits 128 bits.
    InvalidAmount,
    /// The sequence of a wallet cannot grow any further.
    SequenceExhausted,
    /// A flow was handed an event that its state does not wait for.
    UnexpectedEvent,
}

} // verus!
