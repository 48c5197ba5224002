//! The accumulator machine: an append-only log whose root the chain keeps.

use vstd::prelude::*;

use crate::address::{Address, AddressView};
use crate::error::{Error, Payload};
use crate::machine::{
    Kind, Machine, Method, Params, ParamsView, QueryCall, QueryCallView, TxCall, TxCallView,
};
use crate::provider::json_rpc::TxResult;
use crate::provider::message::GasParams;
use crate::provider::query::FvmQueryHeight;
use crate::provider::response::{
    all_cids, base64_standard_decoded, byte_list_from_raw, cbor_byte_list, cbor_cid_list,
    cbor_decode_push_return, cbor_number, cbor_push_return, cid_list_from_raw, decode_data, number_from_raw, Cid,
};
use crate::provider::tx::BroadcastMode;

verus! {

/// The greatest payload that can be pushed, in bytes.
pub const MAX_ACC_PAYLOAD_SIZE: usize = 1024 * 500;

/// The root after a push and the index that the payload got.
#[derive(Clone, Debug, PartialEq, Eq)]
pub struct PushReturn {
    pub root: Cid,
    pub index: u64,
}

/// A machine for event stream accumulation.
#[derive(Clone, Debug)]
pub struct Accumulator {
    address: Address,
}

impl Machine for Accumulator {
    closed spec fn address_view(&self) -> AddressView {
        self.address@
    }

    open spec fn kind_spec() -> Kind {
        Kind::Accumulator
    }

    fn kind() -> (kind: Kind) {
        Kind::Accumulator
    }

    fn attach(address: Address) -> (machine: Self) {
        Accumulator { address }
    }

    fn address(&self) -> (address: Address) {
        self.address.copy()
    }
}

impl Accumulator {
    /// The call that pushes a payload into the accumulator. A payload of
    /// more than `MAX_ACC_PAYLOAD_SIZE` bytes is refused.
    pub fn push(&self, payload: Vec<u8>, broadcast_mode: BroadcastMode, gas_params: GasParams) -> (call:
        Result<TxCall, Error>)
        ensures
            payload@.len() > MAX_ACC_PAYLOAD_SIZE ==> call == Err::<TxCall, Error>(
                Error::PayloadTooLarge,
            ),
            payload@.len() <= MAX_ACC_PAYLOAD_SIZE ==> (call matches Ok(c) && c@ == (TxCallView {
                to: self.address_view(),
                method: Method::Push,
                params: ParamsView::Push { payload: payload@ },
                gas_params,
                broadcast_mode,
            })),
    {
        if payload.len() > MAX_ACC_PAYLOAD_SIZE {
            return Err(Error::PayloadTooLarge);
        }
        Ok(
            TxCall {
                to: self.address.copy(),
                method: Method::Push,
                params: Params::Push { payload },
                gas_params,
                broadcast_mode,
            },
        )
    }

    /// The call that gets the leaf stored at a given index and height.
    pub fn leaf(&self, index: u64, height: FvmQueryHeight) -> (call: QueryCall)
        ensures
            call@ == (QueryCallView {
                to: self.address_view(),
                method: Method::Get,
                params: ParamsView::Get { index },
                height,
            }),
    {
        QueryCall {
            to: self.address.copy(),
            method: Method::Get,
            params: Params::Get { index },
            height,
        }
    }

    /// The call that gets the total leaf count at a given height.
    pub fn count(&self, height: FvmQueryHeight) -> (call: QueryCall)
        ensures
            call@ == (QueryCallView {
                to: self.address_view(),
                method: Method::Count,
                params: ParamsView::Empty,
                height,
            }),
    {
        QueryCall { to: self.address.copy(), method: Method::Count, params: Params::Empty, height }
    }

    /// The call that gets all peaks at a given height.
    pub fn peaks(&self, height: FvmQueryHeight) -> (call: QueryCall)
        ensures
            call@ == (QueryCallView {
                to: self.address_view(),
                method: Method::Peaks,
                params: ParamsView::Empty,
                height,
            }),
    {
        QueryCall { to: self.address.copy(), method: Method::Peaks, params: Params::Empty, height }
    }

    /// The call that gets the root at a given height.
    pub fn root(&self, height: FvmQueryHeight) -> (call: QueryCall)
        ensures
            call@ == (QueryCallView {
                to: self.address_view(),
                method: Method::Root,
                params: ParamsView::Empty,
                height,
            }),
    {
        QueryCall { to: self.address.copy(), method: Method::Root, params: Params::Empty, height }
    }
}

/// The root and index that raw output holds.
pub open spec fn decoded_push_return(raw: Seq<u8>) -> Option<(Seq<u8>, u64)> {
    match cbor_push_return(raw) {
        Some((root, index)) => match Cid::read(root) {
            Some(normal) => Some((normal, index)),
            None => None,
        },
        None => None,
    }
}

/// Reads the root and index of a push out of raw output.
pub fn push_return_from_raw(raw: &[u8]) -> (pushed: Result<PushReturn, Error>)
    ensures
        match decoded_push_return(raw@) {
            Some((root, index)) => pushed matches Ok(p) && p.root@ == root && p.root.wf()
                && p.index == index,
            None => pushed == Err::<PushReturn, Error>(Error::Decode(Payload::PushReturn)),
        },
{
    match cbor_decode_push_return(raw) {
        Some((root, index)) => match Cid::from_bytes(root.as_slice()) {
            Ok(root) => Ok(PushReturn { root, index }),
            Err(_) => Err(Error::Decode(Payload::PushReturn)),
        },
        None => Err(Error::Decode(Payload::PushReturn)),
    }
}

/// The result of a push as the transaction returns it.
pub fn decode_push_return(deliver_tx: &TxResult) -> (pushed: Result<PushReturn, Error>)
    ensures
        match base64_standard_decoded(deliver_tx.data@) {
            Some(raw) => match decoded_push_return(raw) {
                Some((root, index)) => pushed matches Ok(p) && p.root@ == root && p.root.wf()
                    && p.index == index,
                None => pushed == Err::<PushReturn, Error>(Error::Decode(Payload::PushReturn)),
            },
            None => pushed == Err::<PushReturn, Error>(Error::Decode(Payload::Base64)),
        },
{
    match decode_data(deliver_tx.data.as_slice()) {
        Ok(raw) => push_return_from_raw(raw.as_slice()),
        Err(e) => Err(e),
    }
}

/// Reads a leaf out of raw output. Empty output says that there is no leaf
/// at the index.
pub fn leaf_from_raw(raw: &[u8], index: u64) -> (leaf: Result<Vec<u8>, Error>)
    ensures
        raw@.len() == 0 ==> leaf == Err::<Vec<u8>, Error>(Error::LeafNotFound(index)),
        raw@.len() > 0 ==> match cbor_byte_list(raw@) {
            Some(b) => leaf matches Ok(v) && v@ == b,
            None => leaf == Err::<Vec<u8>, Error>(Error::Decode(Payload::Bytes)),
        },
{
    if raw.len() == 0 {
        return Err(Error::LeafNotFound(index));
    }
    byte_list_from_raw(raw)
}

/// The leaf at an index as the query returns it.
pub fn decode_leaf(deliver_tx: &TxResult, index: u64) -> (leaf: Result<Vec<u8>, Error>)
    ensures
        match base64_standard_decoded(deliver_tx.data@) {
            Some(raw) => if raw.len() == 0 {
                leaf == Err::<Vec<u8>, Error>(Error::LeafNotFound(index))
            } else {
                match cbor_byte_list(raw) {
                    Some(b) => leaf matches Ok(v) && v@ == b,
                    None => leaf == Err::<Vec<u8>, Error>(Error::Decode(Payload::Bytes)),
                }
            },
            None => leaf == Err::<Vec<u8>, Error>(Error::Decode(Payload::Base64)),
        },
{
    match decode_data(deliver_tx.data.as_slice()) {
        Ok(raw) => leaf_from_raw(raw.as_slice(), index),
        Err(e) => Err(e),
    }
}

/// The leaf count as the query returns it.
pub fn decode_count(deliver_tx: &TxResult) -> (count: Result<u64, Error>)
    ensures
        match base64_standard_decoded(deliver_tx.data@) {
            Some(raw) => match cbor_number(raw) {
                Some(n) => count == Ok::<u64, Error>(n),
                None => count == Err::<u64, Error>(Error::Decode(Payload::Number)),
            },
            None => count == Err::<u64, Error>(Error::Decode(Payload::Base64)),
        },
{
    match decode_data(deliver_tx.data.as_slice()) {
        Ok(raw) => number_from_raw(raw.as_slice()),
        Err(e) => Err(e),
    }
}

/// The peaks as the query returns them.
pub fn decode_peaks(deliver_tx: &TxResult) -> (peaks: Result<Vec<Cid>, Error>)
    ensures
        match base64_standard_decoded(deliver_tx.data@) {
            Some(raw) => match cbor_cid_list(raw) {
                Some(list) => if all_cids(list) {
                    peaks matches Ok(v) && v@.len() == list.len() && forall|i: int|
                        0 <= i < list.len() ==> Some((#[trigger] v@[i])@) == Cid::read(list[i])
                            && v@[i].wf()
                } else {
                    peaks == Err::<Vec<Cid>, Error>(Error::Decode(Payload::CidList))
                },
                None => peaks == Err::<Vec<Cid>, Error>(Error::Decode(Payload::CidList)),
            },
            None => peaks == Err::<Vec<Cid>, Error>(Error::Decode(Payload::Base64)),
        },
{
    match decode_data(deliver_tx.data.as_slice()) {
        Ok(raw) => cid_list_from_raw(raw.as_slice()),
        Err(e) => Err(e),
    }
}

} // verus!
