//! The object store machine: a key/value store whose small objects live on
//! the chain and whose large objects are staged with an object service and
//! anchored by their content identifier.

use vstd::prelude::*;
use vstd::slice::slice_subrange;
use vstd::string::StringExecFns;
use vstd::string::StringSliceAdditionalSpecFns;
use vstd::utf8::encode_utf8;

use crate::address::{Address, AddressView};
use crate::error::Error;
use crate::machine::{
    Kind, Machine, Method, Params, ParamsView, QueryCall, QueryCallView, TxCall, TxCallView,
};
use crate::provider::message::{object_upload_message, unsigned_message, GasParams, Message};
use crate::provider::query::FvmQueryHeight;
use crate::provider::response::{base64_url_encode, base64_url_safe, Cid};
use crate::provider::tx::{BroadcastMode, TxReceipt};
use crate::signer::signer::{MessageObject, MessageObjectView, Signer};
use crate::signer::subnet::chain_id_of;
use crate::text::{copy_bytes, decimal_digits, decimal_text, parse_decimal, parsed_decimal};

verus! {

/// The greatest size, in bytes, of an object that is stored on the chain
/// itself.
pub const MAX_INTERNAL_OBJECT_SIZE: usize = 1024;

/// The size of the chunks that a content identifier is computed over.
pub const CHUNK_SIZE: usize = 1024 * 1024;

/// The greatest number of objects that one query lists: what a limit of
/// zero stands for.
pub const MAX_QUERY_LIMIT: u64 = 10000;

/// Object add options.
#[derive(Clone, Debug)]
pub struct AddOptions {
    /// Overwrite the object if it already exists.
    pub overwrite: bool,
    /// Broadcast mode for the transaction.
    pub broadcast_mode: BroadcastMode,
    /// Gas params for the transaction.
    pub gas_params: GasParams,
    /// Whether to show progress-related output (useful for command-line
    /// interfaces).
    pub show_progress: bool,
}

impl AddOptions {
    /// Options with an explicit choice on overwriting; everything else is
    /// the default.
    pub fn new(overwrite: bool) -> (options: AddOptions)
        ensures
            options.overwrite == overwrite,
            options.broadcast_mode == BroadcastMode::Commit,
            options.gas_params == (GasParams {
                gas_limit: crate::provider::message::BLOCK_GAS_LIMIT,
                gas_fee_cap: 0,
                gas_premium: 0,
            }),
            !options.show_progress,
    {
        AddOptions {
            overwrite,
            broadcast_mode: BroadcastMode::Commit,
            gas_params: GasParams::from_options(None, None, None),
            show_progress: false,
        }
    }
}

/// Object delete options.
#[derive(Clone, Debug)]
pub struct DeleteOptions {
    /// Broadcast mode for the transaction.
    pub broadcast_mode: BroadcastMode,
    /// Gas params for the transaction.
    pub gas_params: GasParams,
}

impl Default for DeleteOptions {
    fn default() -> (options: Self)
        ensures
            options.broadcast_mode == BroadcastMode::Commit,
            options.gas_params == (GasParams {
                gas_limit: crate::provider::message::BLOCK_GAS_LIMIT,
                gas_fee_cap: 0,
                gas_premium: 0,
            }),
    {
        DeleteOptions {
            broadcast_mode: BroadcastMode::Commit,
            gas_params: GasParams::from_options(None, None, None),
        }
    }
}

/// Object get options.
#[derive(Clone, Debug)]
pub struct GetOptions {
    /// Optional range of bytes to get from the object.
    /// Format: "start-end" (inclusive).
    /// Example: "0-99" (first 100 bytes).
    pub range: Option<String>,
    /// Query block height.
    pub height: FvmQueryHeight,
    /// Whether to show progress-related output (useful for command-line
    /// interfaces).
    pub show_progress: bool,
}

impl Default for GetOptions {
    fn default() -> (options: Self)
        ensures
            options.range is None,
            options.height == FvmQueryHeight::Committed,
            !options.show_progress,
    {
        GetOptions { range: None, height: FvmQueryHeight::Committed, show_progress: false }
    }
}

/// Object query options.
#[derive(Clone, Debug)]
pub struct QueryOptions {
    /// The prefix to filter objects by.
    pub prefix: String,
    /// The delimiter used to define object hierarchy.
    pub delimiter: String,
    /// The offset to start listing objects from.
    pub offset: u64,
    /// The maximum number of objects to list; zero stands for the most that
    /// the service lists, `MAX_QUERY_LIMIT`.
    pub limit: u64,
    /// Query block height.
    pub height: FvmQueryHeight,
}

impl Default for QueryOptions {
    fn default() -> (options: Self)
        ensures
            options.prefix@ == Seq::<char>::empty(),
            options.delimiter@ == "/"@,
            options.offset == 0,
            options.limit == 0,
            options.height == FvmQueryHeight::Committed,
    {
        QueryOptions {
            prefix: String::new(),
            delimiter: String::from_str("/"),
            offset: 0,
            limit: 0,
            height: FvmQueryHeight::Committed,
        }
    }
}

/// How an object is stored.
#[derive(Clone, Debug, PartialEq, Eq)]
pub enum ObjectKind {
    /// On the chain, with its bytes.
    Internal(Vec<u8>),
    /// With the object service, under its content identifier; resolved once
    /// validators have fetched and verified the bytes.
    External { cid: Cid, resolved: bool },
}

/// An object of a store.
#[derive(Clone, Debug, PartialEq, Eq)]
pub struct Object {
    pub key: Vec<u8>,
    pub kind: ObjectKind,
}

/// Index of the first `-` of a text, or its length where there is none.
pub open spec fn first_dash(text: Seq<u8>) -> int
    decreases text.len(),
{
    if text.len() == 0 || text[0] == 45 {
        0
    } else {
        1 + first_dash(text.skip(1))
    }
}

/// One end of a range: absent where the text is empty, else a number in
/// decimal digits. The outer `None` says that the text is neither.
pub open spec fn range_end(text: Seq<u8>) -> Option<Option<u64>> {
    if text.len() == 0 {
        Some(None)
    } else {
        match parsed_decimal(text) {
            Some(n) => Some(Some(n)),
            None => None,
        }
    }
}

/// The first and last byte that a range asks for, both ends given or not,
/// before it is held against the size.
pub open spec fn range_ends(start: Option<u64>, end: Option<u64>, size: u64) -> (int, int) {
    match (start, end) {
        (Some(s), Some(e)) => (s as int, e as int),
        (Some(s), None) => (s as int, size - 1),
        (None, Some(e)) => (
            if e <= size {
                size - e
            } else {
                0
            },
            size - 1,
        ),
        (None, None) => (0, size - 1),
    }
}

/// The first and last byte, both counted in, that a range of the form
/// `start-end` asks of an object of a size. Both ends are optional: without
/// an end the range runs to the last byte, without a start it covers the
/// last `end` bytes, without either it covers the object. A range whose
/// start lies behind its end, or whose end lies behind the object, is none.
pub open spec fn range_of_text(text: Seq<u8>, size: u64) -> Option<(u64, u64)> {
    let dash = first_dash(text);
    if dash < 0 || dash >= text.len() {
        None
    } else {
        match (range_end(text.take(dash)), range_end(text.skip(dash + 1))) {
            (Some(start), Some(end)) => {
                let (first, last) = range_ends(start, end, size);
                if 0 <= first <= last < size {
                    Some((first as u64, last as u64))
                } else {
                    None
                }
            },
            _ => None,
        }
    }
}

proof fn lemma_first_dash(text: Seq<u8>, end: int)
    requires
        0 <= end <= text.len(),
        forall|k: int| 0 <= k < end ==> text[k] != 45,
        end == text.len() || text[end] == 45,
    ensures
        first_dash(text) == end,
    decreases text.len(),
{
    if end > 0 {
        let rest = text.skip(1);
        assert forall|k: int| 0 <= k < end - 1 implies rest[k] != 45 by {
            assert(rest[k] == text[k + 1]);
        }
        lemma_first_dash(rest, end - 1);
    }
}

fn parse_range_end(text: &[u8]) -> (end: Option<Option<u64>>)
    ensures
        end == range_end(text@),
{
    if text.len() == 0 {
        return Some(None);
    }
    match parse_decimal(text) {
        Some(n) => Some(Some(n)),
        None => None,
    }
}

/// Reads a byte range and holds it against the size of the object.
pub fn parse_range(range: &str, size: u64) -> (ends: Result<(u64, u64), Error>)
    ensures
        match range_of_text(encode_utf8(range@), size) {
            Some(r) => ends == Ok::<(u64, u64), Error>(r),
            None => ends == Err::<(u64, u64), Error>(Error::InvalidRange),
        },
{
    let text = range.as_bytes();
    let mut dash: usize = 0;
    while dash < text.len() && text[dash] != 45
        invariant
            dash <= text@.len(),
            forall|k: int| 0 <= k < dash ==> text@[k] != 45,
        decreases text.len() - dash,
    {
        dash += 1;
    }
    proof {
        lemma_first_dash(text@, dash as int);
    }
    if dash >= text.len() {
        return Err(Error::InvalidRange);
    }
    let before = slice_subrange(text, 0, dash);
    let after = slice_subrange(text, dash + 1, text.len());
    assert(before@ == text@.take(dash as int));
    assert(after@ == text@.skip(dash + 1));
    let start = match parse_range_end(before) {
        Some(start) => start,
        None => {
            return Err(Error::InvalidRange);
        },
    };
    let end = match parse_range_end(after) {
        Some(end) => end,
        None => {
            return Err(Error::InvalidRange);
        },
    };
    if size == 0 {
        return Err(Error::InvalidRange);
    }
    let (first, last): (u64, u64) = match (start, end) {
        (Some(s), Some(e)) => (s, e),
        (Some(s), None) => (s, size - 1),
        (None, Some(e)) => (
            if e <= size {
                size - e
            } else {
                0
            },
            size - 1,
        ),
        (None, None) => (0, size - 1),
    };
    if first <= last && last < size {
        Ok((first, last))
    } else {
        Err(Error::InvalidRange)
    }
}

/// The bytes of an object that a range asks for; all of them without a
/// range.
pub open spec fn ranged(bytes: Seq<u8>, range: Option<Seq<char>>) -> Option<Seq<u8>> {
    match range {
        None => Some(bytes),
        Some(text) => if bytes.len() > u64::MAX {
            None
        } else {
            match range_of_text(encode_utf8(text), bytes.len() as u64) {
                Some((first, last)) => Some(bytes.subrange(first as int, last + 1)),
                None => None,
            }
        },
    }
}

/// What a text option holds.
pub open spec fn text_view(text: Option<String>) -> Option<Seq<char>> {
    match text {
        Some(t) => Some(t@),
        None => None,
    }
}

/// Cuts the bytes that a range asks for out of the bytes of an object.
pub fn slice_range(bytes: &Vec<u8>, range: &Option<String>) -> (part: Result<Vec<u8>, Error>)
    ensures
        match ranged(bytes@, text_view(*range)) {
            Some(b) => part matches Ok(v) && v@ == b,
            None => part == Err::<Vec<u8>, Error>(Error::InvalidRange),
        },
{
    match range {
        None => Ok(copy_bytes(bytes)),
        Some(text) => {
            let size: u64 = bytes.len() as u64;
            match parse_range(text.as_str(), size) {
                Ok((first, last)) => {
                    let from: usize = first as usize;
                    let to: usize = last as usize;
                    let mut part: Vec<u8> = Vec::new();
                    let mut i: usize = from;
                    while i <= to
                        invariant
                            from <= i <= to + 1,
                            to < bytes@.len() <= usize::MAX,
                            part@ == bytes@.subrange(from as int, i as int),
                        decreases to + 1 - i,
                    {
                        part.push(bytes[i]);
                        assert(bytes@.subrange(from as int, i + 1) == bytes@.subrange(
                            from as int,
                            i as int,
                        ).push(bytes@[i as int]));
                        i += 1;
                    }
                    Ok(part)
                },
                Err(_) => Err(Error::InvalidRange),
            }
        },
    }
}

/// What to do to hand an object to the caller.
#[derive(Clone, Debug, PartialEq, Eq)]
pub enum GetPlan {
    /// The object lives on the chain: these are the bytes asked for.
    Inline(Vec<u8>),
    /// The object is staged: fetch it from the object service, which
    /// applies the range itself.
    Download { address: Address, key: String, range: Option<String>, height: u64, cid: Cid },
}

/// A machine for S3-like object storage.
#[derive(Clone, Debug)]
pub struct ObjectStore {
    address: Address,
}

impl Machine for ObjectStore {
    closed spec fn address_view(&self) -> AddressView {
        self.address@
    }

    open spec fn kind_spec() -> Kind {
        Kind::ObjectStore
    }

    fn kind() -> (kind: Kind) {
        Kind::ObjectStore
    }

    fn attach(address: Address) -> (machine: Self) {
        ObjectStore { address }
    }

    fn address(&self) -> (address: Address) {
        self.address.copy()
    }
}

/// The fields of the form that uploads an object, beside the object itself.
#[derive(Clone, Debug, PartialEq, Eq)]
pub struct UploadForm {
    /// The chain ID, in decimal.
    pub chain_id: String,
    /// The signed message that authorises the upload, in URL-safe Base64.
    pub msg: String,
    /// The declared length of the object.
    pub size: u64,
}

impl ObjectStore {
    /// The message that authorises the staging of an object, and the
    /// context to sign it with: a message from the signer to the store that
    /// is never submitted.
    pub fn upload_message(&self, from: Address, method_num: u64, params: Vec<u8>, key: &str, cid: &Cid) -> (auth:
        (Message, MessageObject))
        ensures
            auth.0@ == unsigned_message(from@, self.address_view(), method_num, params@),
            auth.1@ == (MessageObjectView {
                key: encode_utf8(key@),
                cid: cid@,
                address: self.address_view(),
            }),
    {
        (
            object_upload_message(from, self.address.copy(), method_num, params),
            MessageObject::new(key.as_bytes_vec(), cid.copy(), self.address.copy()),
        )
    }

    /// The form that uploads an object of a size under a signed message. A
    /// signer without a subnet has no chain to upload for.
    pub fn upload<S: Signer>(signer: &S, signed_message: &[u8], size: u64) -> (form: Result<
        UploadForm,
        Error,
    >)
        requires
            signed_message@.len() / 3 * 4 + 4 <= usize::MAX,
        ensures
            match signer.subnet_id_view() {
                Some(subnet) => form matches Ok(f) && f.chain_id@ == decimal_digits(
                    chain_id_of(subnet) as nat,
                ) && f.msg@ == base64_url_safe(signed_message@) && f.size == size,
                None => form == Err::<UploadForm, Error>(Error::MissingSubnetId),
            },
    {
        let chain_id = match signer.subnet_id() {
            Some(id) => id.chain_id(),
            None => {
                return Err(Error::MissingSubnetId);
            },
        };
        Ok(
            UploadForm {
                chain_id: decimal_text(chain_id),
                msg: base64_url_encode(signed_message),
                size,
            },
        )
    }

    /// The call that deletes an object.
    pub fn delete(&self, key: &str, options: DeleteOptions) -> (call: TxCall)
        ensures
            call@ == (TxCallView {
                to: self.address_view(),
                method: Method::DeleteObject,
                params: ParamsView::DeleteObject { key: encode_utf8(key@) },
                gas_params: options.gas_params,
                broadcast_mode: options.broadcast_mode,
            }),
    {
        TxCall {
            to: self.address.copy(),
            method: Method::DeleteObject,
            params: Params::DeleteObject { key: key.as_bytes_vec() },
            gas_params: options.gas_params,
            broadcast_mode: options.broadcast_mode,
        }
    }

    /// The call that asks for the object at a key and height.
    pub fn get_call(&self, key: &str, height: FvmQueryHeight) -> (call: QueryCall)
        ensures
            call@ == (QueryCallView {
                to: self.address_view(),
                method: Method::GetObject,
                params: ParamsView::GetObject { key: encode_utf8(key@) },
                height,
            }),
    {
        QueryCall {
            to: self.address.copy(),
            method: Method::GetObject,
            params: Params::GetObject { key: key.as_bytes_vec() },
            height,
        }
    }

    /// Decides how the object that the store returned for a key reaches the
    /// caller. No object is an error. An object on the chain is cut to the
    /// range here. A staged object that validators have not resolved is an
    /// error; a resolved one is fetched from the object service.
    pub fn get(&self, key: &str, object: Option<Object>, options: GetOptions) -> (plan: Result<
        GetPlan,
        Error,
    >)
        ensures
            match object {
                None => plan == Err::<GetPlan, Error>(Error::ObjectNotFound),
                Some(Object { key: _, kind: ObjectKind::Internal(bytes) }) => match ranged(
                    bytes@,
                    text_view(options.range),
                ) {
                    Some(part) => plan matches Ok(GetPlan::Inline(v)) && v@ == part,
                    None => plan == Err::<GetPlan, Error>(Error::InvalidRange),
                },
                Some(Object { key: _, kind: ObjectKind::External { cid, resolved } }) => if resolved {
                    plan matches Ok(
                        GetPlan::Download { address, key: k, range, height, cid: c },
                    ) && address@ == self.address_view() && k@ == key@ && range == options.range
                        && height == options.height.number() && c == cid
                } else {
                    plan == Err::<GetPlan, Error>(Error::ObjectNotResolved)
                },
            },
    {
        let object = match object {
            Some(object) => object,
            None => {
                return Err(Error::ObjectNotFound);
            },
        };
        match object.kind {
            ObjectKind::Internal(bytes) => match slice_range(&bytes, &options.range) {
                Ok(part) => Ok(GetPlan::Inline(part)),
                Err(e) => Err(e),
            },
            ObjectKind::External { cid, resolved } => {
                if !resolved {
                    return Err(Error::ObjectNotResolved);
                }
                Ok(
                    GetPlan::Download {
                        address: self.address.copy(),
                        key: String::from_str(key),
                        range: options.range,
                        height: options.height.to_u64(),
                        cid,
                    },
                )
            },
        }
    }

    /// The call that lists objects at the given height, filtered by prefix
    /// and grouped by delimiter. A limit of zero asks for as many objects
    /// as the service lists at most.
    pub fn query(&self, options: QueryOptions) -> (call: QueryCall)
        ensures
            call@ == (QueryCallView {
                to: self.address_view(),
                method: Method::ListObjects,
                params: ParamsView::ListObjects {
                    prefix: encode_utf8(options.prefix@),
                    delimiter: encode_utf8(options.delimiter@),
                    offset: options.offset,
                    limit: options.limit,
                },
                height: options.height,
            }),
    {
        QueryCall {
            to: self.address.copy(),
            method: Method::ListObjects,
            params: Params::ListObjects {
                prefix: options.prefix.as_str().as_bytes_vec(),
                delimiter: options.delimiter.as_str().as_bytes_vec(),
                offset: options.offset,
                limit: options.limit,
            },
            height: options.height,
        }
    }
}

/// Where the writing of an object stands.
#[derive(Clone, Debug, PartialEq, Eq)]
pub enum AddState {
    /// Waiting for the first bytes of the stream.
    Sampling,
    /// Waiting for the content identifier of the whole stream.
    Hashing,
    /// Waiting for the object service to report the identifier of what it
    /// received.
    Staging { cid: Cid, size: u64 },
    /// Waiting for the anchoring transaction.
    Anchoring,
    /// Nothing is left to do.
    Finished,
}

/// What a state holds.
pub enum AddStateView {
    Sampling,
    Hashing,
    Staging { cid: Seq<u8>, size: u64 },
    Anchoring,
    Finished,
}

impl View for AddState {
    type V = AddStateView;

    open spec fn view(&self) -> AddStateView {
        match self {
            AddState::Sampling => AddStateView::Sampling,
            AddState::Hashing => AddStateView::Hashing,
            AddState::Staging { cid, size } => AddStateView::Staging { cid: cid@, size: *size },
            AddState::Anchoring => AddStateView::Anchoring,
            AddState::Finished => AddStateView::Finished,
        }
    }
}

/// What happened outside since the last action.
#[derive(Clone, Debug, PartialEq, Eq)]
pub enum AddEvent {
    /// The bytes read from the start of the stream: as many as were asked
    /// for, or fewer where the stream ended.
    Sampled(Vec<u8>),
    /// The identifier and size of the whole stream, computed locally.
    Hashed { cid: Cid, size: u64 },
    /// The identifier that the object service computed from what it got.
    Staged(Cid),
    /// The receipt of the anchoring transaction.
    Anchored(TxReceipt<Cid>),
    /// Reading, staging or the transaction failed.
    Failed(Error),
}

/// What to do next.
#[derive(Debug, PartialEq, Eq)]
pub enum AddAction {
    /// Read up to this many bytes from the start of the stream.
    Sample { limit: usize },
    /// Compute the identifier of the whole stream over chunks of this size.
    Hash { chunk_size: usize },
    /// Stream the object to the object service. The parameters, signed
    /// together with the context, authorise the upload.
    Stage { params: Params, object: MessageObject, size: u64 },
    /// Submit the transaction that anchors the object.
    Anchor { call: TxCall, object: Option<MessageObject> },
    /// Hand this to the caller.
    Finish(Result<TxReceipt<Cid>, Error>),
}

/// The writing of one object into a store.
#[derive(Clone, Debug)]
pub struct AddFlow {
    address: Address,
    key: Vec<u8>,
    options: AddOptions,
    state: AddState,
}

/// What the writing of an object holds.
pub struct AddFlowView {
    pub address: AddressView,
    pub key: Seq<u8>,
    pub overwrite: bool,
    pub broadcast_mode: BroadcastMode,
    pub gas_params: GasParams,
    pub state: AddStateView,
}

impl View for AddFlow {
    type V = AddFlowView;

    closed spec fn view(&self) -> AddFlowView {
        AddFlowView {
            address: self.address@,
            key: self.key@,
            overwrite: self.options.overwrite,
            broadcast_mode: self.options.broadcast_mode,
            gas_params: self.options.gas_params,
            state: self.state@,
        }
    }
}

/// The transaction that anchors an object under the key of a flow.
pub open spec fn anchor_call(flow: AddFlowView, params: ParamsView) -> TxCallView {
    TxCallView {
        to: flow.address,
        method: Method::AddObject,
        params,
        gas_params: flow.gas_params,
        broadcast_mode: flow.broadcast_mode,
    }
}

/// The context that goes with a staged object of a flow.
pub open spec fn staged_object(flow: AddFlowView, cid: Seq<u8>) -> MessageObjectView {
    MessageObjectView { key: flow.key, cid, address: flow.address }
}

/// Whether `action` is what follows `event` in the state of `flow`.
///
/// A failure ends the flow with that failure. A sample without bytes is an
/// error; one of at most `MAX_INTERNAL_OBJECT_SIZE` bytes is anchored with
/// its bytes; a longer one has the whole stream hashed. The hashed object
/// is staged. The staged object is anchored by its identifier where the
/// object service reports the identifier that was computed here, and ends
/// in `CidMismatch` where it reports another. The receipt of the anchoring
/// transaction ends the flow. Any other event is unexpected.
pub open spec fn add_action(flow: AddFlowView, event: AddEvent, action: AddAction) -> bool {
    if flow.state is Finished {
        action == AddAction::Finish(Err(Error::UnexpectedEvent))
    } else if event is Failed {
        action == AddAction::Finish(Err(event->Failed_0))
    } else if flow.state is Sampling && event is Sampled {
        let bytes = event->Sampled_0;
        if bytes@.len() == 0 {
            action == AddAction::Finish(Err(Error::EmptyObject))
        } else if bytes@.len() <= MAX_INTERNAL_OBJECT_SIZE {
            action matches AddAction::Anchor { call, object } && call@ == anchor_call(
                flow,
                ParamsView::AddInline { key: flow.key, body: bytes@, overwrite: flow.overwrite },
            ) && object is None
        } else {
            action == (AddAction::Hash { chunk_size: CHUNK_SIZE })
        }
    } else if flow.state is Hashing && event is Hashed {
        action matches AddAction::Stage { params, object, size } && params@
            == (ParamsView::AddObject {
            key: flow.key,
            cid: event->Hashed_cid@,
            overwrite: flow.overwrite,
        }) && object@ == staged_object(flow, event->Hashed_cid@) && size == event->Hashed_size
    } else if flow.state is Staging && event is Staged {
        let cid = flow.state->Staging_cid;
        if event->Staged_0@ == cid {
            action matches AddAction::Anchor { call, object } && call@ == anchor_call(
                flow,
                ParamsView::AddObject { key: flow.key, cid, overwrite: flow.overwrite },
            ) && (object matches Some(o) && o@ == staged_object(flow, cid))
        } else {
            action == AddAction::Finish(Err(Error::CidMismatch))
        }
    } else if flow.state is Anchoring && event is Anchored {
        action == AddAction::Finish(Ok(event->Anchored_0))
    } else {
        action == AddAction::Finish(Err(Error::UnexpectedEvent))
    }
}

/// The state that follows `event` in the state of `flow`.
pub open spec fn add_state(flow: AddFlowView, event: AddEvent) -> AddStateView {
    if flow.state is Finished || event is Failed {
        AddStateView::Finished
    } else if flow.state is Sampling && event is Sampled {
        let bytes = event->Sampled_0;
        if bytes@.len() == 0 {
            AddStateView::Finished
        } else if bytes@.len() <= MAX_INTERNAL_OBJECT_SIZE {
            AddStateView::Anchoring
        } else {
            AddStateView::Hashing
        }
    } else if flow.state is Hashing && event is Hashed {
        AddStateView::Staging { cid: event->Hashed_cid@, size: event->Hashed_size }
    } else if flow.state is Staging && event is Staged {
        if event->Staged_0@ == flow.state->Staging_cid {
            AddStateView::Anchoring
        } else {
            AddStateView::Finished
        }
    } else {
        AddStateView::Finished
    }
}

impl ObjectStore {
    /// Begins to add an object under a key: the first action is to sample
    /// the stream, one byte further than an object on the chain may be long.
    pub fn add(&self, key: &str, options: AddOptions) -> (begun: (AddFlow, AddAction))
        ensures
            begun.0@ == (AddFlowView {
                address: self.address_view(),
                key: encode_utf8(key@),
                overwrite: options.overwrite,
                broadcast_mode: options.broadcast_mode,
                gas_params: options.gas_params,
                state: AddStateView::Sampling,
            }),
            begun.1 == (AddAction::Sample { limit: (MAX_INTERNAL_OBJECT_SIZE + 1) as usize }),
    {
        (
            AddFlow {
                address: self.address.copy(),
                key: key.as_bytes_vec(),
                options,
                state: AddState::Sampling,
            },
            AddAction::Sample { limit: MAX_INTERNAL_OBJECT_SIZE + 1 },
        )
    }
}

impl AddFlow {
    /// Whether nothing is left to do.
    pub fn is_finished(&self) -> (finished: bool)
        ensures
            finished == (self@.state is Finished),
    {
        match self.state {
            AddState::Finished => true,
            _ => false,
        }
    }

    fn anchor(&self, params: Params) -> (call: TxCall)
        ensures
            call@ == anchor_call(self@, params@),
    {
        TxCall {
            to: self.address.copy(),
            method: Method::AddObject,
            params,
            gas_params: self.options.gas_params,
            broadcast_mode: self.options.broadcast_mode,
        }
    }

    fn context(&self, cid: &Cid) -> (object: MessageObject)
        ensures
            object@ == staged_object(self@, cid@),
    {
        MessageObject::new(copy_bytes(&self.key), cid.copy(), self.address.copy())
    }

    fn moved(self, state: AddState) -> (flow: AddFlow)
        ensures
            flow@ == (AddFlowView { state: state@, ..self@ }),
    {
        AddFlow { address: self.address, key: self.key, options: self.options, state }
    }

    /// Takes what happened and says what to do next.
    pub fn step(self, event: AddEvent) -> (next: (AddFlow, AddAction))
        ensures
            next.0@ == (AddFlowView { state: add_state(self@, event), ..self@ }),
            add_action(self@, event, next.1),
    {
        if self.is_finished() {
            return (self, AddAction::Finish(Err(Error::UnexpectedEvent)));
        }
        let overwrite = self.options.overwrite;
        match event {
            AddEvent::Failed(e) => (self.moved(AddState::Finished), AddAction::Finish(Err(e))),
            AddEvent::Sampled(bytes) => {
                match self.state {
                    AddState::Sampling => {},
                    _ => {
                        return (
                            self.moved(AddState::Finished),
                            AddAction::Finish(Err(Error::UnexpectedEvent)),
                        );
                    },
                }
                if bytes.len() == 0 {
                    (self.moved(AddState::Finished), AddAction::Finish(Err(Error::EmptyObject)))
                } else if bytes.len() <= MAX_INTERNAL_OBJECT_SIZE {
                    let call = self.anchor(
                        Params::AddInline { key: copy_bytes(&self.key), body: bytes, overwrite },
                    );
                    (self.moved(AddState::Anchoring), AddAction::Anchor { call, object: None })
                } else {
                    (self.moved(AddState::Hashing), AddAction::Hash { chunk_size: CHUNK_SIZE })
                }
            },
            AddEvent::Hashed { cid, size } => {
                match self.state {
                    AddState::Hashing => {},
                    _ => {
                        return (
                            self.moved(AddState::Finished),
                            AddAction::Finish(Err(Error::UnexpectedEvent)),
                        );
                    },
                }
                let params = Params::AddObject {
                    key: copy_bytes(&self.key),
                    cid: cid.to_bytes(),
                    overwrite,
                };
                let object = self.context(&cid);
                (
                    self.moved(AddState::Staging { cid, size }),
                    AddAction::Stage { params, object, size },
                )
            },
            AddEvent::Staged(remote) => {
                let verified = match &self.state {
                    AddState::Staging { cid, size } => {
                        if remote.same(cid) {
                            let call = self.anchor(
                                Params::AddObject {
                                    key: copy_bytes(&self.key),
                                    cid: cid.to_bytes(),
                                    overwrite,
                                },
                            );
                            Some(AddAction::Anchor { call, object: Some(self.context(cid)) })
                        } else {
                            None
                        }
                    },
                    _ => {
                        return (
                            self.moved(AddState::Finished),
                            AddAction::Finish(Err(Error::UnexpectedEvent)),
                        );
                    },
                };
                match verified {
                    Some(action) => (self.moved(AddState::Anchoring), action),
                    None => (
                        self.moved(AddState::Finished),
                        AddAction::Finish(Err(Error::CidMismatch)),
                    ),
                }
            },
            AddEvent::Anchored(receipt) => {
                match self.state {
                    AddState::Anchoring => {},
                    _ => {
                        return (
                            self.moved(AddState::Finished),
                            AddAction::Finish(Err(Error::UnexpectedEvent)),
                        );
                    },
                }
                (self.moved(AddState::Finished), AddAction::Finish(Ok(receipt)))
            },
        }
    }
}

/// The threshold between objects on the chain and staged objects: a sample
/// of at most `MAX_INTERNAL_OBJECT_SIZE` bytes is anchored with its bytes
/// and nothing is staged; a longer sample is never anchored directly but
/// has the stream hashed first.
pub proof fn lemma_threshold(flow: AddFlowView, bytes: Vec<u8>, action: AddAction)
    requires
        flow.state is Sampling,
        bytes@.len() > 0,
        add_action(flow, AddEvent::Sampled(bytes), action),
    ensures
        bytes@.len() <= MAX_INTERNAL_OBJECT_SIZE ==> (action matches AddAction::Anchor {
            call,
            object,
        } && call@.params == (ParamsView::AddInline {
            key: flow.key,
            body: bytes@,
            overwrite: flow.overwrite,
        })) && add_state(flow, AddEvent::Sampled(bytes)) is Anchoring,
        bytes@.len() > MAX_INTERNAL_OBJECT_SIZE ==> action is Hash && add_state(
            flow,
            AddEvent::Sampled(bytes),
        ) is Hashing,
{
}

/// No staged object is anchored unverified: an action that anchors an
/// object by its identifier follows only on the report of the object
/// service, in the state that waits for it, and only where the reported
/// identifier is the one computed locally.
pub proof fn lemma_anchor_needs_verification(flow: AddFlowView, event: AddEvent, action: AddAction)
    requires
        add_action(flow, event, action),
        action matches AddAction::Anchor { call, object } && call@.params is AddObject,
    ensures
        flow.state is Staging,
        event is Staged,
        event->Staged_0@ == flow.state->Staging_cid,
        action->Anchor_call@.params->AddObject_cid == flow.state->Staging_cid,
{
}

/// Bytes that go onto the chain come back as they went: the body that a
/// flow anchors is the sample, and reading an object on the chain without a
/// range gives its bytes untouched.
pub proof fn lemma_internal_round_trip(flow: AddFlowView, bytes: Vec<u8>, action: AddAction)
    requires
        flow.state is Sampling,
        0 < bytes@.len() <= MAX_INTERNAL_OBJECT_SIZE,
        add_action(flow, AddEvent::Sampled(bytes), action),
    ensures
        action matches AddAction::Anchor { call, object } && call@.params matches ParamsView::AddInline {
            key,
            body,
            overwrite,
        } && key == flow.key && overwrite == flow.overwrite && ranged(body, None) == Some(bytes@),
{
}

/// How many steps a flow in a state can still take at most.
pub open spec fn steps_left(state: AddStateView) -> nat {
    match state {
        AddStateView::Sampling => 4,
        AddStateView::Hashing => 3,
        AddStateView::Staging { .. } => 2,
        AddStateView::Anchoring => 1,
        AddStateView::Finished => 0,
    }
}

/// Every step brings a flow nearer to its end: nothing is ever retried, and
/// a flow is finished after four steps at most.
pub proof fn lemma_flow_ends(flow: AddFlowView, event: AddEvent)
    requires
        !(flow.state is Finished),
    ensures
        steps_left(add_state(flow, event)) < steps_left(flow.state),
{
}

/// A rejected anchoring transaction is reported and not retried: the flow
/// is finished, and whatever comes after is unexpected.
pub proof fn lemma_rejection_is_final(flow: AddFlowView, e: Error, action: AddAction)
    requires
        flow.state is Anchoring,
        add_action(flow, AddEvent::Failed(e), action),
    ensures
        action == AddAction::Finish(Err(e)),
        add_state(flow, AddEvent::Failed(e)) is Finished,
{
}

} // verus!
