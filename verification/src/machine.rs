//! Machines: typed objects on the chain, deployed once and addressed ever
//! after.

use vstd::prelude::*;

use crate::address::{Address, AddressView, ADM_ACTOR_ID};
use crate::provider::message::GasParams;
use crate::provider::query::FvmQueryHeight;
use crate::provider::tx::{BroadcastMode, TxReceipt};

pub mod accumulator;
pub mod content;
pub mod objectstore;


verus! {

/// The kinds of machines.
#[derive(Copy, Clone, Debug, PartialEq, Eq)]
pub enum Kind {
    /// A content-addressed key/value store.
    ObjectStore,
    /// An append-only log.
    Accumulator,
}

/// Who may write to a machine.
#[derive(Copy, Clone, Debug, PartialEq, Eq)]
pub enum WriteAccess {
    /// Only the owner will be able to mutate the machine.
    OnlyOwner,
    /// Any account can mutate the machine.
    Public,
}

/// The methods that the library calls on actors.
#[derive(Copy, Clone, Debug, PartialEq, Eq)]
pub enum Method {
    /// Deploy a machine.
    CreateExternal,
    /// List the machines of an owner.
    ListMetadata,
    /// Owner and kind of a machine.
    GetMetadata,
    /// Add an object to a store.
    AddObject,
    /// Delete an object from a store.
    DeleteObject,
    /// Get an object of a store.
    GetObject,
    /// List the objects of a store.
    ListObjects,
    /// Push a payload into an accumulator.
    Push,
    /// Get the leaf at an index of an accumulator.
    Get,
    /// Count the leaves of an accumulator.
    Count,
    /// The peaks of an accumulator.
    Peaks,
    /// The root of an accumulator.
    Root,
}

/// The parameters of a call, before they are encoded.
#[derive(Clone, Debug, PartialEq, Eq)]
pub enum Params {
    /// No parameters.
    Empty,
    CreateExternal { kind: Kind, write_access: WriteAccess },
    ListMetadata { owner: Address },
    AddObject { key: Vec<u8>, cid: Vec<u8>, overwrite: bool },
    AddInline { key: Vec<u8>, body: Vec<u8>, overwrite: bool },
    DeleteObject { key: Vec<u8> },
    GetObject { key: Vec<u8> },
    ListObjects { prefix: Vec<u8>, delimiter: Vec<u8>, offset: u64, limit: u64 },
    Push { payload: Vec<u8> },
    Get { index: u64 },
}

/// What the parameters of a call hold.
pub enum ParamsView {
    Empty,
    CreateExternal { kind: Kind, write_access: WriteAccess },
    ListMetadata { owner: AddressView },
    AddObject { key: Seq<u8>, cid: Seq<u8>, overwrite: bool },
    AddInline { key: Seq<u8>, body: Seq<u8>, overwrite: bool },
    DeleteObject { key: Seq<u8> },
    GetObject { key: Seq<u8> },
    ListObjects { prefix: Seq<u8>, delimiter: Seq<u8>, offset: u64, limit: u64 },
    Push { payload: Seq<u8> },
    Get { index: u64 },
}

impl View for Params {
    type V = ParamsView;

    open spec fn view(&self) -> ParamsView {
        match self {
            Params::Empty => ParamsView::Empty,
            Params::CreateExternal { kind, write_access } => ParamsView::CreateExternal {
                kind: *kind,
                write_access: *write_access,
            },
            Params::ListMetadata { owner } => ParamsView::ListMetadata { owner: owner@ },
            Params::AddObject { key, cid, overwrite } => ParamsView::AddObject {
                key: key@,
                cid: cid@,
                overwrite: *overwrite,
            },
            Params::AddInline { key, body, overwrite } => ParamsView::AddInline {
                key: key@,
                body: body@,
                overwrite: *overwrite,
            },
            Params::DeleteObject { key } => ParamsView::DeleteObject { key: key@ },
            Params::GetObject { key } => ParamsView::GetObject { key: key@ },
            Params::ListObjects { prefix, delimiter, offset, limit } => ParamsView::ListObjects {
                prefix: prefix@,
                delimiter: delimiter@,
                offset: *offset,
                limit: *limit,
            },
            Params::Push { payload } => ParamsView::Push { payload: payload@ },
            Params::Get { index } => ParamsView::Get { index: *index },
        }
    }
}

/// A read-only call of a method, run against the state at a height.
#[derive(Clone, Debug, PartialEq, Eq)]
pub struct QueryCall {
    pub to: Address,
    pub method: Method,
    pub params: Params,
    pub height: FvmQueryHeight,
}

/// What a read-only call holds.
pub struct QueryCallView {
    pub to: AddressView,
    pub method: Method,
    pub params: ParamsView,
    pub height: FvmQueryHeight,
}

impl View for QueryCall {
    type V = QueryCallView;

    open spec fn view(&self) -> QueryCallView {
        QueryCallView {
            to: self.to@,
            method: self.method,
            params: self.params@,
            height: self.height,
        }
    }
}

/// A call of a method in a transaction that carries no value.
#[derive(Clone, Debug, PartialEq, Eq)]
pub struct TxCall {
    pub to: Address,
    pub method: Method,
    pub params: Params,
    pub gas_params: GasParams,
    pub broadcast_mode: BroadcastMode,
}

/// What a call in a transaction holds.
pub struct TxCallView {
    pub to: AddressView,
    pub method: Method,
    pub params: ParamsView,
    pub gas_params: GasParams,
    pub broadcast_mode: BroadcastMode,
}

impl View for TxCall {
    type V = TxCallView;

    open spec fn view(&self) -> TxCallView {
        TxCallView {
            to: self.to@,
            method: self.method,
            params: self.params@,
            gas_params: self.gas_params,
            broadcast_mode: self.broadcast_mode,
        }
    }
}

/// Deployed machine transaction receipt details.
#[derive(Clone, Debug, PartialEq, Eq)]
pub struct DeployTxReceipt {
    pub hash: Vec<u8>,
    pub height: u64,
    pub gas_used: i64,
}

/// What the deploying actor returns.
#[derive(Clone, Debug, PartialEq, Eq)]
pub struct CreateExternalReturn {
    pub actor_id: u64,
    pub robust_address: Option<Address>,
}

/// Kind and address of a machine, as the deploying actor lists them.
#[derive(Clone, Debug, PartialEq, Eq)]
pub struct Metadata {
    pub kind: Kind,
    pub address: Address,
}

/// What an entry of the list of machines holds.
pub struct MetadataView {
    pub kind: Kind,
    pub address: AddressView,
}

impl View for Metadata {
    type V = MetadataView;

    open spec fn view(&self) -> MetadataView {
        MetadataView { kind: self.kind, address: self.address@ }
    }
}

/// Trait implemented by different machine kinds.
pub trait Machine: Sized {
    /// The address of the machine.
    spec fn address_view(&self) -> AddressView;

    /// The kind of machine.
    spec fn kind_spec() -> Kind;

    /// The kind of machine.
    fn kind() -> (kind: Kind)
        ensures
            kind == Self::kind_spec(),
    ;

    /// Create a machine instance from an existing machine [`Address`].
    fn attach(address: Address) -> (machine: Self)
        ensures
            machine.address_view() == address@,
    ;

    /// Returns the machine [`Address`].
    fn address(&self) -> (address: Address)
        ensures
            address@ == self.address_view(),
    ;
}

/// The entries of a list that are of a kind, in their order.
pub open spec fn of_kind(list: Seq<MetadataView>, kind: Kind) -> Seq<MetadataView>
    decreases list.len(),
{
    if list.len() == 0 {
        Seq::empty()
    } else {
        let rest = of_kind(list.drop_last(), kind);
        if list.last().kind == kind {
            rest.push(list.last())
        } else {
            rest
        }
    }
}

/// What a list of machines holds.
pub open spec fn metadata_views(list: Seq<Metadata>) -> Seq<MetadataView> {
    Seq::new(list.len(), |i: int| list[i]@)
}

/// The call that lists the machines owned by an address.
pub fn list_call(owner: Address, height: FvmQueryHeight) -> (call: QueryCall)
    ensures
        call@ == (QueryCallView {
            to: AddressView::Id(ADM_ACTOR_ID),
            method: Method::ListMetadata,
            params: ParamsView::ListMetadata { owner: owner@ },
            height,
        }),
{
    QueryCall {
        to: Address::new_id(ADM_ACTOR_ID),
        method: Method::ListMetadata,
        params: Params::ListMetadata { owner },
        height,
    }
}

/// Keeps the machines of one kind out of the list of all machines of an
/// owner.
pub fn list<M: Machine>(all: Vec<Metadata>) -> (list: Vec<Metadata>)
    ensures
        metadata_views(list@) == of_kind(metadata_views(all@), M::kind_spec()),
{
    let kind = M::kind();
    let mut list: Vec<Metadata> = Vec::new();
    let mut i: usize = 0;
    assert(metadata_views(all@).take(0) =~= Seq::empty());
    assert(metadata_views(list@) =~= Seq::empty());
    while i < all.len()
        invariant
            i <= all.len(),
            kind == M::kind_spec(),
            metadata_views(list@) == of_kind(metadata_views(all@).take(i as int), kind),
        decreases all.len() - i,
    {
        let ghost views = metadata_views(all@);
        let ghost before = metadata_views(list@);
        assert(views.take(i + 1).drop_last() == views.take(i as int));
        assert(views.take(i + 1).last() == all@[i as int]@);
        let same = match (all[i].kind, kind) {
            (Kind::ObjectStore, Kind::ObjectStore) => true,
            (Kind::Accumulator, Kind::Accumulator) => true,
            _ => false,
        };
        if same {
            list.push(Metadata { kind: all[i].kind, address: all[i].address.copy() });
            assert(metadata_views(list@) =~= before.push(all@[i as int]@));
        }
        i += 1;
    }
    assert(metadata_views(all@).take(i as int) == metadata_views(all@));
    list
}

/// The call that asks a machine for its owner and kind.
pub fn info(address: Address, height: FvmQueryHeight) -> (call: QueryCall)
    ensures
        call@ == (QueryCallView {
            to: address@,
            method: Method::GetMetadata,
            params: ParamsView::Empty,
            height,
        }),
{
    QueryCall { to: address, method: Method::GetMetadata, params: Params::Empty, height }
}

/// The call that deploys a machine. It is always broadcast in commit mode.
pub fn deploy_machine(kind: Kind, write_access: WriteAccess, gas_params: GasParams) -> (call: TxCall)
    ensures
        call@ == (TxCallView {
            to: AddressView::Id(ADM_ACTOR_ID),
            method: Method::CreateExternal,
            params: ParamsView::CreateExternal { kind, write_access },
            gas_params,
            broadcast_mode: BroadcastMode::Commit,
        }),
{
    TxCall {
        to: Address::new_id(ADM_ACTOR_ID),
        method: Method::CreateExternal,
        params: Params::CreateExternal { kind, write_access },
        gas_params,
        broadcast_mode: BroadcastMode::Commit,
    }
}

/// The address of a deployed machine and the details of the transaction
/// that deployed it. A committed receipt with its data and a robust
/// address is what commit mode returns.
pub fn deployed(tx: TxReceipt<CreateExternalReturn>) -> (deployed: (Address, DeployTxReceipt))
    requires
        tx.height is Some,
        tx.data is Some,
        tx.data->0.robust_address is Some,
    ensures
        deployed.0 == tx.data->0.robust_address->0,
        deployed.1 == (DeployTxReceipt {
            hash: tx.hash,
            height: tx.height->0,
            gas_used: tx.gas_used,
        }),
{
    let TxReceipt { status, hash, height, gas_used, data } = tx;
    let address = data.unwrap().robust_address.unwrap();
    (address, DeployTxReceipt { hash, height: height.unwrap(), gas_used })
}

} // verus!
