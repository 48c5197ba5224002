//! What a JSON-RPC provider makes of the answers of the chain and of the
//! object service.

use vstd::prelude::*;
use vstd::string::StringExecFns;

use crate::error::Error;
use crate::provider::tx::{TxReceipt, TxStatus};
use crate::text::{decimal_digits, push_decimal};

verus! {

/// The result of the admission check or of the execution of a transaction.
#[derive(Debug, Clone, PartialEq, Eq)]
pub struct TxResult {
    /// Exit code; zero is success.
    pub code: u32,
    /// Output, as the transport wraps it.
    pub data: Vec<u8>,
    pub info: String,
    pub log: String,
    pub gas_used: i64,
}

/// What the chain answered to a broadcast, by mode.
#[derive(Debug, Clone, PartialEq, Eq)]
pub enum BroadcastResponse {
    /// Submitted; nothing was waited for.
    Async { hash: Vec<u8> },
    /// The admission check has run.
    Sync { hash: Vec<u8>, code: u32, log: String },
    /// The transaction was included in a block.
    Commit { hash: Vec<u8>, height: u64, check_tx: TxResult, deliver_tx: TxResult },
}

/// The text of a rejected transaction: the info alone when there is no log.
pub open spec fn err_text(info: Seq<char>, log: Seq<char>) -> Seq<char> {
    if log.len() == 0 {
        info
    } else {
        "info: "@ + info + "; log: "@ + log
    }
}

/// Format transaction receipt errors.
pub fn format_err(info: &str, log: &str) -> (text: String)
    ensures
        text@ == err_text(info@, log@),
{
    if log.unicode_len() == 0 {
        String::from_str(info)
    } else {
        let mut text = String::from_str("info: ");
        text.append(info);
        text.append("; log: ");
        text.append(log);
        text
    }
}

/// Turns the chain's answer to a broadcast into a receipt.
///
/// `Async` gives a pending receipt at once. `Sync` gives a pending receipt
/// unless the admission check failed, which is an error carrying its log.
/// `Commit` inspects the admission check first and the execution second;
/// either failing is an error carrying info and log. Otherwise `f` decodes
/// the execution result: its error is handed on, its value goes into a
/// committed receipt together with height and gas used.
pub fn perform<T, F>(response: BroadcastResponse, f: F) -> (receipt: Result<TxReceipt<T>, Error>)
    where F: FnOnce(&TxResult) -> Result<T, Error>
    requires
        forall|r: &TxResult| call_requires(f, (r,)),
    ensures
        match response {
            BroadcastResponse::Async { hash } => receipt == Ok::<TxReceipt<T>, Error>(
                TxReceipt { status: TxStatus::Pending, hash, height: None, gas_used: 0, data: None },
            ),
            BroadcastResponse::Sync { hash, code, log } => if code != 0 {
                receipt matches Err(Error::TxRejected(text)) && text@ == log@
            } else {
                receipt == Ok::<TxReceipt<T>, Error>(
                    TxReceipt {
                        status: TxStatus::Pending,
                        hash,
                        height: None,
                        gas_used: 0,
                        data: None,
                    },
                )
            },
            BroadcastResponse::Commit { hash, height, check_tx, deliver_tx } => if check_tx.code
                != 0 {
                receipt matches Err(Error::TxRejected(text)) && text@ == err_text(
                    check_tx.info@,
                    check_tx.log@,
                )
            } else if deliver_tx.code != 0 {
                receipt matches Err(Error::TxRejected(text)) && text@ == err_text(
                    deliver_tx.info@,
                    deliver_tx.log@,
                )
            } else {
                exists|decoded: Result<T, Error>|
                    call_ensures(f, (&deliver_tx,), decoded) && match decoded {
                        Ok(value) => receipt == Ok::<TxReceipt<T>, Error>(
                            TxReceipt {
                                status: TxStatus::Committed,
                                hash,
                                height: Some(height),
                                gas_used: deliver_tx.gas_used,
                                data: Some(value),
                            },
                        ),
                        Err(e) => receipt == Err::<TxReceipt<T>, Error>(e),
                    }
            },
        },
        (receipt matches Ok(r) ==> r.wf()),
{
    match response {
        BroadcastResponse::Async { hash } => Ok(TxReceipt::pending(hash)),
        BroadcastResponse::Sync { hash, code, log } => {
            if code != 0 {
                return Err(Error::TxRejected(log));
            }
            Ok(TxReceipt::pending(hash))
        },
        BroadcastResponse::Commit { hash, height, check_tx, deliver_tx } => {
            if check_tx.code != 0 {
                return Err(Error::TxRejected(format_err(check_tx.info.as_str(), check_tx.log.as_str())));
            } else if deliver_tx.code != 0 {
                return Err(
                    Error::TxRejected(format_err(deliver_tx.info.as_str(), deliver_tx.log.as_str())),
                );
            }
            let gas_used = deliver_tx.gas_used;
            match f(&deliver_tx) {
                Ok(return_data) => Ok(TxReceipt::committed(hash, height, gas_used, Some(return_data))),
                Err(e) => Err(e),
            }
        },
    }
}

/// The URL of the object service, which uploads and downloads need.
pub fn object_api_url(configured: Option<String>) -> (url: Result<String, Error>)
    ensures
        match configured {
            Some(u) => url == Ok::<String, Error>(u),
            None => url == Err::<String, Error>(Error::ObjectProviderRequired),
        },
{
    match configured {
        Some(url) => Ok(url),
        None => Err(Error::ObjectProviderRequired),
    }
}

/// The address of the upload endpoint under a base URL.
pub open spec fn upload_url_text(base: Seq<char>) -> Seq<char> {
    base + "v1/objects"@
}

/// The URL to post an object to.
pub fn upload_url(base: &str) -> (url: String)
    ensures
        url@ == upload_url_text(base@),
{
    let mut url = String::from_str(base);
    url.append("v1/objects");
    url
}

/// The address of an object under a base URL, at a height.
pub open spec fn download_url_text(
    base: Seq<char>,
    address: Seq<char>,
    key: Seq<char>,
    height: u64,
) -> Seq<char> {
    base + "v1/objectstores/"@ + address + "/"@ + key + "?height="@ + decimal_digits(height as nat)
}

/// The URL to get an object from.
pub fn download_url(base: &str, address: &str, key: &str, height: u64) -> (url: String)
    ensures
        url@ == download_url_text(base@, address@, key@, height),
{
    let mut url = String::from_str(base);
    url.append("v1/objectstores/");
    url.append(address);
    url.append("/");
    url.append(key);
    url.append("?height=");
    push_decimal(&mut url, height);
    url
}

/// The value of the `Range` header for a byte range.
pub fn range_header(range: &str) -> (value: String)
    ensures
        value@ == "bytes="@ + range@,
{
    let mut value = String::from_str("bytes=");
    value.append(range);
    value
}

/// What the object service answered: whether the status was a success, and
/// the body as text.
#[derive(Debug, Clone, PartialEq, Eq)]
pub struct ObjectResponse {
    pub success: bool,
    pub body: String,
}

/// The error of a refused upload: it carries the body of the answer.
pub fn upload_outcome(response: ObjectResponse) -> (body: Result<String, Error>)
    ensures
        response.success ==> body == Ok::<String, Error>(response.body),
        !response.success ==> (body matches Err(Error::UploadFailed(detail)) && detail@
            == response.body@),
{
    if !response.success {
        return Err(Error::UploadFailed(response.body));
    }
    Ok(response.body)
}

/// The error of a refused download: it carries the body of the answer.
pub fn download_outcome(success: bool, body: String) -> (outcome: Result<(), Error>)
    ensures
        success ==> outcome is Ok,
        !success ==> (outcome matches Err(Error::DownloadFailed(detail)) && detail@ == body@),
{
    if !success {
        return Err(Error::DownloadFailed(body));
    }
    Ok(())
}

} // verus!
