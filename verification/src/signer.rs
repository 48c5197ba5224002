//! Signers: who sends a message, under which sequence, for which chain.

pub mod key;
pub mod signer;
pub mod subnet;
pub mod void;
pub mod wallet;

pub use signer::{MessageObject, Signer, SigningRequest, VerifyRequest};
pub use subnet::SubnetID;
pub use void::Void;
pub use wallet::{AccountKind, Wallet};
