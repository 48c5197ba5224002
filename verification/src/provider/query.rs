//! Read-only queries: heights and the treatment of exit codes.

use vstd::prelude::*;

use crate::address::Address;
use crate::error::Error;
use crate::provider::json_rpc::TxResult;
use crate::provider::message::{gas_estimation_message, Message, MessageView};
use crate::provider::response::Cid;

verus! {

/// The exit code by which the chain says that what was asked for does not
/// exist.
pub const EXIT_CODE_NOT_FOUND: u32 = 17;

/// The state that a query is run against.
#[derive(Debug, Copy, Clone, PartialEq, Eq)]
pub enum FvmQueryHeight {
    /// The latest committed state.
    Committed,
    /// The committed state with the pending transactions applied.
    Pending,
    /// The state at a block height.
    Height(u64),
}

impl Default for FvmQueryHeight {
    fn default() -> (height: Self)
        ensures
            height == FvmQueryHeight::Committed,
    {
        FvmQueryHeight::Committed
    }
}

impl FvmQueryHeight {
    /// The height as the number that goes over the wire: 0 stands for the
    /// committed state, 1 for the pending one.
    pub open spec fn number(self) -> u64 {
        match self {
            FvmQueryHeight::Committed => 0,
            FvmQueryHeight::Pending => 1,
            FvmQueryHeight::Height(h) => h,
        }
    }

    /// The height that a number stands for.
    pub open spec fn of_number(n: u64) -> FvmQueryHeight {
        if n == 0 {
            FvmQueryHeight::Committed
        } else if n == 1 {
            FvmQueryHeight::Pending
        } else {
            FvmQueryHeight::Height(n)
        }
    }

    /// The height as the number that goes over the wire.
    pub fn to_u64(self) -> (n: u64)
        ensures
            n == self.number(),
    {
        match self {
            FvmQueryHeight::Committed => 0,
            FvmQueryHeight::Pending => 1,
            FvmQueryHeight::Height(h) => h,
        }
    }

    /// The height that a number stands for.
    pub fn from_u64(n: u64) -> (height: Self)
        ensures
            height == Self::of_number(n),
    {
        if n == 0 {
            FvmQueryHeight::Committed
        } else if n == 1 {
            FvmQueryHeight::Pending
        } else {
            FvmQueryHeight::Height(n)
        }
    }
}

/// The raw answer to a read-only query.
#[derive(Debug, Clone, PartialEq, Eq)]
pub struct QueryResponse {
    /// Exit code; zero is success.
    pub code: u32,
    pub info: String,
    pub log: String,
    /// The value, still encoded.
    pub value: Vec<u8>,
    /// The height that the query ran at.
    pub height: u64,
}

/// A decoded value together with the height it was read at.
#[derive(Debug, Clone, PartialEq, Eq)]
pub struct QueryResult<T> {
    pub height: u64,
    pub value: T,
}

/// The value of a query that must succeed: any failing exit code is an error
/// that carries code, info and log.
pub fn extract(response: QueryResponse) -> (value: Result<QueryResult<Vec<u8>>, Error>)
    ensures
        response.code == 0 ==> value == Ok::<QueryResult<Vec<u8>>, Error>(
            QueryResult { height: response.height, value: response.value },
        ),
        response.code != 0 ==> value == Err::<QueryResult<Vec<u8>>, Error>(
            Error::QueryRejected { code: response.code, info: response.info, log: response.log },
        ),
{
    if response.code != 0 {
        return Err(
            Error::QueryRejected { code: response.code, info: response.info, log: response.log },
        );
    }
    Ok(QueryResult { height: response.height, value: response.value })
}

/// The value of a query for something that may not exist: the exit code for
/// "not found" gives `None`, any other failing exit code is an error.
pub fn extract_opt(response: QueryResponse) -> (value: Result<
    QueryResult<Option<Vec<u8>>>,
    Error,
>)
    ensures
        response.code == 0 ==> value == Ok::<QueryResult<Option<Vec<u8>>>, Error>(
            QueryResult { height: response.height, value: Some(response.value) },
        ),
        response.code == EXIT_CODE_NOT_FOUND ==> value == Ok::<QueryResult<Option<Vec<u8>>>, Error>(
            QueryResult { height: response.height, value: None },
        ),
        response.code != 0 && response.code != EXIT_CODE_NOT_FOUND ==> value == Err::<
            QueryResult<Option<Vec<u8>>>,
            Error,
        >(Error::QueryRejected { code: response.code, info: response.info, log: response.log }),
{
    if response.code == EXIT_CODE_NOT_FOUND {
        return Ok(QueryResult { height: response.height, value: None });
    }
    if response.code != 0 {
        return Err(
            Error::QueryRejected { code: response.code, info: response.info, log: response.log },
        );
    }
    Ok(QueryResult { height: response.height, value: Some(response.value) })
}

/// What can be asked of the state of the chain.
#[derive(Debug, Clone, PartialEq, Eq)]
pub enum FvmQuery {
    /// The raw block behind a content identifier.
    Ipld(Cid),
    /// The state of the actor at an address.
    ActorState(Address),
    /// The result of running a read-only message.
    Call(Message),
    /// The gas that a message would use.
    EstimateGas(Message),
}

/// The query that runs a read-only message.
pub fn call_query(message: Message) -> (query: FvmQuery)
    ensures
        query == FvmQuery::Call(message),
{
    FvmQuery::Call(message)
}

/// The query that estimates the gas of a message. The sequence of the
/// message is forced to zero, so that the sender's nonce does not interfere.
pub fn estimate_gas_query(message: Message) -> (query: FvmQuery)
    ensures
        query matches FvmQuery::EstimateGas(m) && m@ == (MessageView { sequence: 0, ..message@ }),
{
    FvmQuery::EstimateGas(gas_estimation_message(message))
}

/// The query for the state of an actor.
pub fn actor_state_query(address: Address) -> (query: FvmQuery)
    ensures
        query == FvmQuery::ActorState(address),
{
    FvmQuery::ActorState(address)
}

/// The query for a raw block.
pub fn ipld_query(cid: Cid) -> (query: FvmQuery)
    ensures
        query == FvmQuery::Ipld(cid),
{
    FvmQuery::Ipld(cid)
}

/// The decoded result of a read-only message. A failing exit code is an
/// error. Otherwise `parse` reads the execution result out of the value and
/// `f` decodes its output; the error of either is handed on.
pub fn call<T, P, F>(response: QueryResponse, parse: P, f: F) -> (result: Result<
    QueryResult<T>,
    Error,
>)
    where P: FnOnce(&Vec<u8>) -> Result<TxResult, Error>, F: FnOnce(&TxResult) -> Result<T, Error>
    requires
        forall|value: &Vec<u8>| call_requires(parse, (value,)),
        forall|tx: &TxResult| call_requires(f, (tx,)),
    ensures
        response.code != 0 ==> result == Err::<QueryResult<T>, Error>(
            Error::QueryRejected { code: response.code, info: response.info, log: response.log },
        ),
        response.code == 0 ==> exists|parsed: Result<TxResult, Error>|
            call_ensures(parse, (&response.value,), parsed) && match parsed {
                Err(e) => result == Err::<QueryResult<T>, Error>(e),
                Ok(tx) => exists|decoded: Result<T, Error>|
                    call_ensures(f, (&tx,), decoded) && match decoded {
                        Err(e) => result == Err::<QueryResult<T>, Error>(e),
                        Ok(value) => result == Ok::<QueryResult<T>, Error>(
                            QueryResult { height: response.height, value },
                        ),
                    },
            },
{
    if response.code != 0 {
        return Err(
            Error::QueryRejected { code: response.code, info: response.info, log: response.log },
        );
    }
    let height = response.height;
    let tx = match parse(&response.value) {
        Ok(tx) => tx,
        Err(e) => {
            return Err(e);
        },
    };
    match f(&tx) {
        Ok(value) => Ok(QueryResult { height, value }),
        Err(e) => Err(e),
    }
}

/// The decoded value of a query for something that may not exist. The exit
/// code for "not found" gives no value; any other failing exit code is an
/// error. Otherwise `parse` decodes the value and its error is handed on.
pub fn query_opt<T, P>(response: QueryResponse, parse: P) -> (result: Result<
    QueryResult<Option<T>>,
    Error,
>)
    where P: FnOnce(&Vec<u8>) -> Result<T, Error>
    requires
        forall|value: &Vec<u8>| call_requires(parse, (value,)),
    ensures
        response.code == EXIT_CODE_NOT_FOUND ==> result == Ok::<QueryResult<Option<T>>, Error>(
            QueryResult { height: response.height, value: None },
        ),
        response.code != 0 && response.code != EXIT_CODE_NOT_FOUND ==> result == Err::<
            QueryResult<Option<T>>,
            Error,
        >(Error::QueryRejected { code: response.code, info: response.info, log: response.log }),
        response.code == 0 ==> exists|parsed: Result<T, Error>|
            call_ensures(parse, (&response.value,), parsed) && match parsed {
                Err(e) => result == Err::<QueryResult<Option<T>>, Error>(e),
                Ok(value) => result == Ok::<QueryResult<Option<T>>, Error>(
                    QueryResult { height: response.height, value: Some(value) },
                ),
            },
{
    if response.code == EXIT_CODE_NOT_FOUND {
        return Ok(QueryResult { height: response.height, value: None });
    }
    if response.code != 0 {
        return Err(
            Error::QueryRejected { code: response.code, info: response.info, log: response.log },
        );
    }
    let height = response.height;
    match parse(&response.value) {
        Ok(value) => Ok(QueryResult { height, value: Some(value) }),
        Err(e) => Err(e),
    }
}

} // verus!
