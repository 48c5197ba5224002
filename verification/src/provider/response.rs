//! Decoding what the chain returns: Base64 unwrapping, content identifiers,
//! numbers and byte lists in CBOR.

use base64::Engine;
use vstd::prelude::*;

use crate::error::{Error, Payload};
use crate::provider::json_rpc::TxResult;
use crate::text::{bytes_eq, copy_bytes};

verus! {

/// The Base64 symbol of a six-bit value, in the standard alphabet or in the
/// URL-safe one.
pub open spec fn base64_symbol(url_safe: bool, value: int) -> u8 {
    if value < 26 {
        (65 + value) as u8
    } else if value < 52 {
        (71 + value) as u8
    } else if value < 62 {
        (value - 4) as u8
    } else if value == 62 {
        if url_safe {
            45
        } else {
            43
        }
    } else {
        if url_safe {
            95
        } else {
            47
        }
    }
}

/// The padding symbol `=`.
pub const BASE64_PAD: u8 = 61;

/// The Base64 text, with padding, of a byte string: four symbols for every
/// three bytes, and a last group filled up with `=`.
pub open spec fn base64_text(url_safe: bool, data: Seq<u8>) -> Seq<u8>
    decreases data.len(),
{
    if data.len() == 0 {
        Seq::empty()
    } else {
        let first = data[0] as int;
        let second = if data.len() >= 2 {
            data[1] as int
        } else {
            0
        };
        let third = if data.len() >= 3 {
            data[2] as int
        } else {
            0
        };
        let group = seq![
            base64_symbol(url_safe, first / 4),
            base64_symbol(url_safe, first % 4 * 16 + second / 16),
            if data.len() >= 2 {
                base64_symbol(url_safe, second % 16 * 4 + third / 64)
            } else {
                BASE64_PAD
            },
            if data.len() >= 3 {
                base64_symbol(url_safe, third % 64)
            } else {
                BASE64_PAD
            },
        ];
        if data.len() <= 3 {
            group
        } else {
            group + base64_text(url_safe, data.skip(3))
        }
    }
}

/// The standard Base64 text, with padding, of a byte string.
pub open spec fn base64_standard(data: Seq<u8>) -> Seq<u8> {
    base64_text(false, data)
}

/// The bytes that a standard Base64 text with canonical padding stands for,
/// if it is one.
pub open spec fn base64_standard_decoded(text: Seq<u8>) -> Option<Seq<u8>> {
    if exists|data: Seq<u8>| #[trigger] base64_standard(data) == text {
        Some(choose|data: Seq<u8>| #[trigger] base64_standard(data) == text)
    } else {
        None
    }
}

/// The URL-safe Base64 text, with padding, of a byte string.
pub open spec fn base64_url_safe(data: Seq<u8>) -> Seq<char> {
    base64_text(true, data).map_values(|symbol: u8| symbol as char)
}

proof fn lemma_base64_len(url_safe: bool, data: Seq<u8>)
    ensures
        base64_text(url_safe, data).len() == 4 * ((data.len() + 2) / 3),
    decreases data.len(),
{
    if data.len() > 3 {
        lemma_base64_len(url_safe, data.skip(3));
    }
}

proof fn lemma_base64_symbol(url_safe: bool, a: int, b: int)
    requires
        0 <= a < 64,
        0 <= b < 64,
    ensures
        base64_symbol(url_safe, a) != BASE64_PAD,
        base64_symbol(url_safe, a) == base64_symbol(url_safe, b) ==> a == b,
{
}

/// No two byte strings have the same Base64 text.
pub proof fn lemma_base64_injective(url_safe: bool, a: Seq<u8>, b: Seq<u8>)
    requires
        base64_text(url_safe, a) == base64_text(url_safe, b),
    ensures
        a == b,
    decreases a.len(),
{
    let ta = base64_text(url_safe, a);
    let tb = base64_text(url_safe, b);
    lemma_base64_len(url_safe, a);
    lemma_base64_len(url_safe, b);
    if a.len() == 0 {
        assert(b.len() == 0);
        assert(a =~= b);
    } else {
        assert(b.len() > 0);
        let a0 = a[0] as int;
        let b0 = b[0] as int;
        let a1: int = if a.len() >= 2 {
            a[1] as int
        } else {
            0
        };
        let a2: int = if a.len() >= 3 {
            a[2] as int
        } else {
            0
        };
        let b1: int = if b.len() >= 2 {
            b[1] as int
        } else {
            0
        };
        let b2: int = if b.len() >= 3 {
            b[2] as int
        } else {
            0
        };
        lemma_base64_symbol(url_safe, a0 / 4, b0 / 4);
        lemma_base64_symbol(url_safe, a0 % 4 * 16 + a1 / 16, b0 % 4 * 16 + b1 / 16);
        lemma_base64_symbol(url_safe, a1 % 16 * 4 + a2 / 64, b1 % 16 * 4 + b2 / 64);
        lemma_base64_symbol(url_safe, a2 % 64, b2 % 64);
        assert(ta[0] == tb[0]);
        assert(ta[1] == tb[1]);
        assert(ta[2] == tb[2]);
        assert(ta[3] == tb[3]);
        assert(ta[0] == base64_symbol(url_safe, a0 / 4));
        assert(tb[0] == base64_symbol(url_safe, b0 / 4));
        assert(ta[1] == base64_symbol(url_safe, a0 % 4 * 16 + a1 / 16));
        assert(tb[1] == base64_symbol(url_safe, b0 % 4 * 16 + b1 / 16));
        assert(ta[2] == if a.len() == 1 {
            BASE64_PAD
        } else {
            base64_symbol(url_safe, a1 % 16 * 4 + a2 / 64)
        });
        assert(tb[2] == if b.len() == 1 {
            BASE64_PAD
        } else {
            base64_symbol(url_safe, b1 % 16 * 4 + b2 / 64)
        });
        assert(ta[3] == if a.len() <= 2 {
            BASE64_PAD
        } else {
            base64_symbol(url_safe, a2 % 64)
        });
        assert(tb[3] == if b.len() <= 2 {
            BASE64_PAD
        } else {
            base64_symbol(url_safe, b2 % 64)
        });
        assert((a.len() == 1) == (b.len() == 1));
        assert((a.len() <= 2) == (b.len() <= 2));
        assert(a0 == b0);
        assert(a1 == b1);
        assert(a2 == b2);
        if a.len() > 3 {
            assert(b.len() > 3);
            assert(ta.skip(4) =~= base64_text(url_safe, a.skip(3)));
            assert(tb.skip(4) =~= base64_text(url_safe, b.skip(3)));
            lemma_base64_injective(url_safe, a.skip(3), b.skip(3));
            assert(a =~= a.take(3) + a.skip(3));
            assert(b =~= b.take(3) + b.skip(3));
            assert(a.take(3) =~= b.take(3));
        } else {
            assert(b.len() <= 3);
            assert(a =~= b);
        }
    }
}

/// What a Base64 text is decoded to is what was encoded.
pub proof fn lemma_base64_round_trip(data: Seq<u8>)
    ensures
        base64_standard_decoded(base64_standard(data)) == Some(data),
{
    let text = base64_standard(data);
    assert(base64_standard(data) == text);
    let chosen = choose|d: Seq<u8>| #[trigger] base64_standard(d) == text;
    lemma_base64_injective(false, chosen, data);
}

/// The binary form of the content identifier that a text writes, if it
/// writes one.
pub uninterp spec fn cid_of_text(text: Seq<char>) -> Option<Seq<u8>>;

/// The binary form of the content identifier that a byte string starts with,
/// if it starts with one.
pub uninterp spec fn cid_of_bytes(bytes: Seq<u8>) -> Option<Seq<u8>>;

/// The text of the content identifier that a byte string starts with, if it
/// starts with one.
pub uninterp spec fn cid_text(bytes: Seq<u8>) -> Option<Seq<char>>;

/// The binary form of the content identifier that a CBOR item holds, if it
/// holds one.
pub uninterp spec fn cbor_cid(data: Seq<u8>) -> Option<Seq<u8>>;

/// The binary forms of the content identifiers that a CBOR list holds, if
/// it is such a list.
pub uninterp spec fn cbor_cid_list(data: Seq<u8>) -> Option<Seq<Seq<u8>>>;

/// The number that a CBOR item holds, if it holds an unsigned number that
/// fits 64 bits.
pub uninterp spec fn cbor_number(data: Seq<u8>) -> Option<u64>;

/// The bytes that a CBOR list of small numbers holds, if it is such a list.
pub uninterp spec fn cbor_byte_list(data: Seq<u8>) -> Option<Seq<u8>>;

/// The root and index that a CBOR pair holds, if it is such a pair.
pub uninterp spec fn cbor_push_return(data: Seq<u8>) -> Option<(Seq<u8>, u64)>;

/// `base64::engine::general_purpose::STANDARD.encode`: the result is the
/// standard Base64 text of the input. The engine panics where the length of
/// the text overflows `usize`, which the precondition rules out.
#[verifier::external_body]
fn base64_encode(data: &[u8]) -> (text: Vec<u8>)
    requires
        data@.len() / 3 * 4 + 4 <= usize::MAX,
    ensures
        text@ == base64_standard(data@),
{
    base64::engine::general_purpose::STANDARD.encode(data).into_bytes()
}

/// `base64::engine::general_purpose::STANDARD.decode`: the bytes whose
/// standard Base64 text the input is, or nothing where the input is the
/// text of no bytes: the engine asks for canonical padding and takes no
/// stray bits.
#[verifier::external_body]
fn base64_decode(text: &[u8]) -> (data: Option<Vec<u8>>)
    ensures
        match data {
            Some(d) => base64_standard(d@) == text@,
            None => forall|bytes: Seq<u8>| #[trigger] base64_standard(bytes) != text@,
        },
{
    match base64::engine::general_purpose::STANDARD.decode(text) {
        Ok(data) => Some(data),
        Err(_) => None,
    }
}

/// `base64::engine::general_purpose::URL_SAFE.encode`: the result is the
/// URL-safe Base64 text of the input. The engine panics where the length of
/// the text overflows `usize`, which the precondition rules out.
#[verifier::external_body]
pub(crate) fn base64_url_encode(data: &[u8]) -> (text: String)
    requires
        data@.len() / 3 * 4 + 4 <= usize::MAX,
    ensures
        text@ == base64_url_safe(data@),
{
    base64::engine::general_purpose::URL_SAFE.encode(data)
}

/// `cid::Cid::try_from(&str)` followed by `to_bytes`: the binary form of
/// the identifier that the text writes, or nothing where parsing fails.
#[verifier::external_body]
fn cid_parse_text(text: &str) -> (bytes: Option<Vec<u8>>)
    ensures
        match cid_of_text(text@) {
            Some(b) => bytes matches Some(v) && v@ == b,
            None => bytes is None,
        },
{
    match cid::Cid::try_from(text) {
        Ok(c) => Some(c.to_bytes()),
        Err(_) => None,
    }
}

/// `cid::Cid::try_from(&[u8])` followed by `to_bytes`: the binary form of
/// the identifier at the start of the bytes, or nothing where reading fails.
#[verifier::external_body]
fn cid_parse_bytes(bytes: &[u8]) -> (normal: Option<Vec<u8>>)
    ensures
        match cid_of_bytes(bytes@) {
            Some(b) => normal matches Some(v) && v@ == b,
            None => normal is None,
        },
{
    match cid::Cid::try_from(bytes) {
        Ok(c) => Some(c.to_bytes()),
        Err(_) => None,
    }
}

/// `cid::Cid::try_from(&[u8])` followed by `to_string`: the text of the
/// identifier at the start of the bytes, or nothing where reading fails.
#[verifier::external_body]
fn cid_format(bytes: &[u8]) -> (text: Option<String>)
    ensures
        match cid_text(bytes@) {
            Some(t) => text matches Some(s) && s@ == t,
            None => text is None,
        },
{
    match cid::Cid::try_from(bytes) {
        Ok(c) => Some(c.to_string()),
        Err(_) => None,
    }
}

/// `fvm_ipld_encoding::from_slice::<cid::Cid>` followed by `to_bytes`.
#[verifier::external_body]
fn cbor_decode_cid(data: &[u8]) -> (bytes: Option<Vec<u8>>)
    ensures
        match cbor_cid(data@) {
            Some(b) => bytes matches Some(v) && v@ == b,
            None => bytes is None,
        },
{
    match fvm_ipld_encoding::from_slice::<cid::Cid>(data) {
        Ok(c) => Some(c.to_bytes()),
        Err(_) => None,
    }
}

/// `fvm_ipld_encoding::from_slice::<Vec<cid::Cid>>`, each identifier turned
/// into its binary form by `to_bytes`.
#[verifier::external_body]
fn cbor_decode_cid_list(data: &[u8]) -> (list: Option<Vec<Vec<u8>>>)
    ensures
        match cbor_cid_list(data@) {
            Some(l) => list matches Some(v) && v.deep_view() == l,
            None => list is None,
        },
{
    match fvm_ipld_encoding::from_slice::<Vec<cid::Cid>>(data) {
        Ok(items) => Some(items.iter().map(cid::Cid::to_bytes).collect()),
        Err(_) => None,
    }
}

/// `fvm_ipld_encoding::from_slice::<u64>`.
#[verifier::external_body]
fn cbor_decode_number(data: &[u8]) -> (number: Option<u64>)
    ensures
        number == cbor_number(data@),
{
    match fvm_ipld_encoding::from_slice::<u64>(data) {
        Ok(n) => Some(n),
        Err(_) => None,
    }
}

/// `fvm_ipld_encoding::from_slice::<Vec<u8>>`.
#[verifier::external_body]
fn cbor_decode_byte_list(data: &[u8]) -> (bytes: Option<Vec<u8>>)
    ensures
        match cbor_byte_list(data@) {
            Some(b) => bytes matches Some(v) && v@ == b,
            None => bytes is None,
        },
{
    match fvm_ipld_encoding::from_slice::<Vec<u8>>(data) {
        Ok(bytes) => Some(bytes),
        Err(_) => None,
    }
}

/// `fvm_ipld_encoding::from_slice::<(cid::Cid, u64)>`, the identifier
/// turned into its binary form by `to_bytes`.
#[verifier::external_body]
pub(crate) fn cbor_decode_push_return(data: &[u8]) -> (pair: Option<(Vec<u8>, u64)>)
    ensures
        match cbor_push_return(data@) {
            Some(p) => pair matches Some(v) && v.0@ == p.0 && v.1 == p.1,
            None => pair is None,
        },
{
    match fvm_ipld_encoding::from_slice::<(cid::Cid, u64)>(data) {
        Ok((root, index)) => Some((root.to_bytes(), index)),
        Err(_) => None,
    }
}

/// A content identifier: its binary form and its text.
#[derive(Debug, Clone, PartialEq, Eq, Hash)]
pub struct Cid {
    bytes: Vec<u8>,
    text: String,
}

impl View for Cid {
    type V = Seq<u8>;

    closed spec fn view(&self) -> Seq<u8> {
        self.bytes@
    }
}

impl Cid {
    /// The text of the identifier.
    pub closed spec fn text(&self) -> Seq<char> {
        self.text@
    }

    /// The text is the one that goes with the binary form.
    pub open spec fn wf(&self) -> bool {
        cid_text(self@) == Some(self.text())
    }

    fn checked(bytes: Vec<u8>) -> (cid: Result<Cid, Error>)
        ensures
            match cid_text(bytes@) {
                Some(t) => cid matches Ok(c) && c@ == bytes@ && c.text() == t && c.wf(),
                None => cid == Err::<Cid, Error>(Error::InvalidCid),
            },
    {
        match cid_format(bytes.as_slice()) {
            Some(text) => Ok(Cid { bytes, text }),
            None => Err(Error::InvalidCid),
        }
    }

    /// The identifier that a text writes.
    pub open spec fn parsed(text: Seq<char>) -> Option<Seq<u8>> {
        match cid_of_text(text) {
            Some(bytes) => if cid_text(bytes) is Some {
                Some(bytes)
            } else {
                None
            },
            None => None,
        }
    }

    /// The identifier that a byte string starts with.
    pub open spec fn read(bytes: Seq<u8>) -> Option<Seq<u8>> {
        match cid_of_bytes(bytes) {
            Some(normal) => if cid_text(normal) is Some {
                Some(normal)
            } else {
                None
            },
            None => None,
        }
    }

    /// Reads an identifier from its text.
    pub fn from_str(s: &str) -> (cid: Result<Cid, Error>)
        ensures
            match Self::parsed(s@) {
                Some(bytes) => cid matches Ok(c) && c@ == bytes && c.wf(),
                None => cid == Err::<Cid, Error>(Error::InvalidCid),
            },
    {
        match cid_parse_text(s) {
            Some(bytes) => Self::checked(bytes),
            None => Err(Error::InvalidCid),
        }
    }

    /// Reads an identifier from its binary form.
    pub fn from_bytes(bytes: &[u8]) -> (cid: Result<Cid, Error>)
        ensures
            match Self::read(bytes@) {
                Some(normal) => cid matches Ok(c) && c@ == normal && c.wf(),
                None => cid == Err::<Cid, Error>(Error::InvalidCid),
            },
    {
        match cid_parse_bytes(bytes) {
            Some(normal) => Self::checked(normal),
            None => Err(Error::InvalidCid),
        }
    }

    /// The binary form of the identifier.
    pub fn to_bytes(&self) -> (bytes: Vec<u8>)
        ensures
            bytes@ == self@,
    {
        copy_bytes(&self.bytes)
    }

    /// The text of the identifier.
    pub fn to_string(&self) -> (text: String)
        ensures
            text@ == self.text(),
    {
        self.text.clone()
    }

    /// A copy of the identifier.
    pub fn copy(&self) -> (cid: Cid)
        ensures
            cid@ == self@,
            cid.text() == self.text(),
    {
        Cid { bytes: copy_bytes(&self.bytes), text: self.text.clone() }
    }

    /// Whether two identifiers have the same binary form.
    pub fn same(&self, other: &Cid) -> (same: bool)
        ensures
            same == (self@ == other@),
    {
        bytes_eq(self.bytes.as_slice(), other.bytes.as_slice())
    }
}

/// Apply the encoding that the transport applies to the output of a
/// transaction.
pub fn encode_data(data: &[u8]) -> (text: Vec<u8>)
    requires
        data@.len() / 3 * 4 + 4 <= usize::MAX,
    ensures
        text@ == base64_standard(data@),
{
    base64_encode(data)
}

/// Undo the wrapping that the transport applies to the output of a
/// transaction: the bytes are the text of a Base64 string.
pub fn decode_data(data: &[u8]) -> (bytes: Result<Vec<u8>, Error>)
    ensures
        match base64_standard_decoded(data@) {
            Some(b) => bytes matches Ok(v) && v@ == b,
            None => bytes == Err::<Vec<u8>, Error>(Error::Decode(Payload::Base64)),
        },
{
    match base64_decode(data) {
        Some(bytes) => {
            proof {
                let chosen = choose|d: Seq<u8>| #[trigger] base64_standard(d) == data@;
                lemma_base64_injective(false, chosen, bytes@);
            }
            Ok(bytes)
        },
        None => Err(Error::Decode(Payload::Base64)),
    }
}

/// The output of a transaction as raw bytes.
///
/// Only call this after the exit codes of both the admission check and the
/// execution have been inspected.
pub fn decode_bytes(deliver_tx: &TxResult) -> (bytes: Result<Vec<u8>, Error>)
    ensures
        match base64_standard_decoded(deliver_tx.data@) {
            Some(b) => bytes matches Ok(v) && v@ == b,
            None => bytes == Err::<Vec<u8>, Error>(Error::Decode(Payload::Base64)),
        },
{
    decode_data(deliver_tx.data.as_slice())
}

/// The identifier that the raw output of a transaction holds.
pub open spec fn decoded_cid(raw: Seq<u8>) -> Option<Seq<u8>> {
    match cbor_cid(raw) {
        Some(bytes) => Cid::read(bytes),
        None => None,
    }
}

/// Reads the identifier out of raw output.
pub fn cid_from_raw(raw: &[u8]) -> (cid: Result<Cid, Error>)
    ensures
        match decoded_cid(raw@) {
            Some(bytes) => cid matches Ok(c) && c@ == bytes && c.wf(),
            None => cid == Err::<Cid, Error>(Error::Decode(Payload::Cid)),
        },
{
    match cbor_decode_cid(raw) {
        Some(bytes) => match Cid::from_bytes(bytes.as_slice()) {
            Ok(cid) => Ok(cid),
            Err(_) => Err(Error::Decode(Payload::Cid)),
        },
        None => Err(Error::Decode(Payload::Cid)),
    }
}

/// The output of a transaction as a content identifier.
pub fn decode_cid(deliver_tx: &TxResult) -> (cid: Result<Cid, Error>)
    ensures
        match base64_standard_decoded(deliver_tx.data@) {
            Some(raw) => match decoded_cid(raw) {
                Some(bytes) => cid matches Ok(c) && c@ == bytes && c.wf(),
                None => cid == Err::<Cid, Error>(Error::Decode(Payload::Cid)),
            },
            None => cid == Err::<Cid, Error>(Error::Decode(Payload::Base64)),
        },
{
    match decode_data(deliver_tx.data.as_slice()) {
        Ok(raw) => cid_from_raw(raw.as_slice()),
        Err(e) => Err(e),
    }
}

/// Reads a number out of raw output.
pub fn number_from_raw(raw: &[u8]) -> (number: Result<u64, Error>)
    ensures
        match cbor_number(raw@) {
            Some(n) => number == Ok::<u64, Error>(n),
            None => number == Err::<u64, Error>(Error::Decode(Payload::Number)),
        },
{
    match cbor_decode_number(raw) {
        Some(n) => Ok(n),
        None => Err(Error::Decode(Payload::Number)),
    }
}

/// Reads a list of bytes out of raw output.
pub fn byte_list_from_raw(raw: &[u8]) -> (bytes: Result<Vec<u8>, Error>)
    ensures
        match cbor_byte_list(raw@) {
            Some(b) => bytes matches Ok(v) && v@ == b,
            None => bytes == Err::<Vec<u8>, Error>(Error::Decode(Payload::Bytes)),
        },
{
    match cbor_decode_byte_list(raw) {
        Some(bytes) => Ok(bytes),
        None => Err(Error::Decode(Payload::Bytes)),
    }
}

/// Whether every entry of a list is the binary form of an identifier.
pub open spec fn all_cids(list: Seq<Seq<u8>>) -> bool {
    forall|i: int| 0 <= i < list.len() ==> Cid::read(#[trigger] list[i]) is Some
}

/// Reads a list of identifiers out of raw output.
pub fn cid_list_from_raw(raw: &[u8]) -> (cids: Result<Vec<Cid>, Error>)
    ensures
        match cbor_cid_list(raw@) {
            Some(list) => if all_cids(list) {
                cids matches Ok(v) && v@.len() == list.len() && forall|i: int|
                    0 <= i < list.len() ==> Some((#[trigger] v@[i])@) == Cid::read(list[i])
                        && v@[i].wf()
            } else {
                cids == Err::<Vec<Cid>, Error>(Error::Decode(Payload::CidList))
            },
            None => cids == Err::<Vec<Cid>, Error>(Error::Decode(Payload::CidList)),
        },
{
    match cbor_decode_cid_list(raw) {
        Some(items) => {
            let mut mapped: Vec<Cid> = Vec::new();
            let mut i: usize = 0;
            let ghost list = items.deep_view();
            while i < items.len()
                invariant
                    i <= items.len(),
                    list == items.deep_view(),
                    cbor_cid_list(raw@) == Some(list),
                    mapped@.len() == i,
                    forall|k: int|
                        0 <= k < i ==> Some((#[trigger] mapped@[k])@) == Cid::read(
                            items.deep_view()[k],
                        ) && mapped@[k].wf(),
                decreases items.len() - i,
            {
                assert(items.deep_view()[i as int] == items@[i as int]@);
                match Cid::from_bytes(items[i].as_slice()) {
                    Ok(cid) => {
                        mapped.push(cid);
                    },
                    Err(_) => {
                        assert(Cid::read(list[i as int]) is None);
                        return Err(Error::Decode(Payload::CidList));
                    },
                }
                i += 1;
            }
            assert(all_cids(list)) by {
                assert forall|k: int| 0 <= k < list.len() implies Cid::read(
                    #[trigger] list[k],
                ) is Some by {
                    assert(Some(mapped@[k]@) == Cid::read(list[k]));
                }
            }
            Ok(mapped)
        },
        None => Err(Error::Decode(Payload::CidList)),
    }
}

} // verus!
