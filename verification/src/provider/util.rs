//! Reading addresses, heights and token amounts from text.

use std::str::FromStr;
use fvm_shared::address::{Error as FvmError, Network, Payload};
use num_traits::ToPrimitive;
use vstd::prelude::*;
use vstd::slice::slice_subrange;
use vstd::string::StringSliceAdditionalSpecFns;
use vstd::utf8::encode_utf8;

use crate::address::{eth_address_view, Address, AddressView, ETH_ADDRESS_LEN};
use crate::error::Error;
use crate::provider::query::FvmQueryHeight;
use crate::text::{eq_ignore_ascii_case, eq_ignoring_ascii_case, parse_decimal, parsed_decimal};

verus! {

/// Why the text of an address was not accepted.
#[derive(Debug, Copy, Clone, PartialEq, Eq)]
pub enum AddressFailure {
    /// The text names no network, or another network than the one asked.
    UnknownNetwork,
    /// Anything else.
    Malformed,
}

/// The address that a text writes in the format of the network: mainnet
/// addresses begin with `f`, testnet addresses with `t`.
pub uninterp spec fn fvm_address_of_text(testnet: bool, text: Seq<char>) -> Result<
    AddressView,
    AddressFailure,
>;

/// The whole number of attoFIL that a text writes, if it writes one that
/// fits 128 bits.
pub uninterp spec fn atto_of_text(text: Seq<char>) -> Option<u128>;

/// The value of a hexadecimal digit.
pub open spec fn hex_digit(c: u8) -> Option<u8> {
    if 48 <= c <= 57 {
        Some((c - 48) as u8)
    } else if 65 <= c <= 70 {
        Some((c - 55) as u8)
    } else if 97 <= c <= 102 {
        Some((c - 87) as u8)
    } else {
        None
    }
}

/// The bytes that a hexadecimal text writes: two digits a byte, capital and
/// small letters alike.
pub open spec fn hex_decoded(text: Seq<u8>) -> Option<Seq<u8>> {
    if text.len() % 2 == 0 && forall|i: int| 0 <= i < text.len() ==> hex_digit(#[trigger] text[i])
        is Some {
        Some(
            Seq::new(
                text.len() / 2,
                |i: int| (hex_digit(text[2 * i])->0 * 16 + hex_digit(text[2 * i + 1])->0) as u8,
            ),
        )
    } else {
        None
    }
}

/// `fvm_shared::address::Network::parse_address`: the address that the text
/// writes for the network, by protocol, or why it was refused. The payload
/// of the address is moved into the library's own type, variant by variant.
#[verifier::external_body]
fn fvm_parse_address(testnet: bool, s: &str) -> (address: Result<Address, AddressFailure>)
    ensures
        match fvm_address_of_text(testnet, s@) {
            Ok(a) => address matches Ok(v) && v@ == a && v.wf(),
            Err(f) => address == Err::<Address, AddressFailure>(f),
        },
{
    match (if testnet { Network::Testnet } else { Network::Mainnet }).parse_address(s) {
        Ok(a) => Ok(match a.into_payload() {
            Payload::ID(id) => Address::Id(id),
            Payload::Secp256k1(h) => Address::Secp256k1(h.to_vec()),
            Payload::Actor(h) => Address::Actor(h.to_vec()),
            Payload::BLS(k) => Address::Bls(k.to_vec()),
            Payload::Delegated(d) => Address::Delegated {
                namespace: d.namespace(),
                subaddress: d.subaddress().to_vec(),
            },
        }),
        Err(FvmError::UnknownNetwork) => Err(AddressFailure::UnknownNetwork),
        Err(_) => Err(AddressFailure::Malformed),
    }
}

/// `hex::decode`: the bytes that the text writes, or nothing where the
/// length is odd or a character is no hexadecimal digit.
#[verifier::external_body]
fn hex_decode(text: &[u8]) -> (bytes: Option<Vec<u8>>)
    ensures
        match hex_decoded(text@) {
            Some(b) => bytes matches Some(v) && v@ == b,
            None => bytes is None,
        },
{
    match hex::decode(text) {
        Ok(bytes) => Some(bytes),
        Err(_) => None,
    }
}

/// `fvm_shared::bigint::BigInt::from_str` followed by `to_u128`: the number
/// that the text writes, or nothing where it writes none or one that does
/// not fit.
#[verifier::external_body]
fn parse_atto(s: &str) -> (atto: Option<u128>)
    ensures
        atto == atto_of_text(s@),
{
    match fvm_shared::bigint::BigInt::from_str(s) {
        Ok(n) => n.to_u128(),
        Err(_) => None,
    }
}

/// The bytes of a hexadecimal text, without regard to a leading `0x`.
pub open spec fn hex_decoded_unprefixed(text: Seq<u8>) -> Option<Seq<u8>> {
    if text.len() >= 2 && text[0] == 48 && text[1] == 120 {
        hex_decoded(text.skip(2))
    } else {
        hex_decoded(text)
    }
}

/// Decodes a hexadecimal text that may begin with `0x`.
pub fn decode_hex_unprefixed(text: &[u8]) -> (bytes: Option<Vec<u8>>)
    ensures
        match hex_decoded_unprefixed(text@) {
            Some(b) => bytes matches Some(v) && v@ == b,
            None => bytes is None,
        },
{
    if text.len() >= 2 && text[0] == 48 && text[1] == 120 {
        let rest = slice_subrange(text, 2, text.len());
        assert(rest@ == text@.skip(2));
        hex_decode(rest)
    } else {
        hex_decode(text)
    }
}

/// The address that an Ethereum address in hexadecimal stands for.
pub open spec fn eth_address_of_text(text: Seq<u8>) -> Option<AddressView> {
    match hex_decoded_unprefixed(text) {
        Some(bytes) => if bytes.len() == ETH_ADDRESS_LEN {
            Some(eth_address_view(bytes))
        } else {
            None
        },
        None => None,
    }
}

/// The address that a text writes: a mainnet address, else a testnet
/// address where the text names no network or another one, else an
/// Ethereum address.
pub open spec fn address_of_text(text: Seq<char>) -> Option<AddressView> {
    let fvm = match fvm_address_of_text(false, text) {
        Err(AddressFailure::UnknownNetwork) => fvm_address_of_text(true, text),
        other => other,
    };
    match fvm {
        Ok(a) => Some(a),
        Err(_) => eth_address_of_text(encode_utf8(text)),
    }
}

/// Parse an f/eth-address from string.
pub fn parse_address(s: &str) -> (address: Result<Address, Error>)
    ensures
        match address_of_text(s@) {
            Some(a) => address matches Ok(v) && v@ == a && v.wf(),
            None => address == Err::<Address, Error>(Error::InvalidAddress),
        },
{
    let fvm = match fvm_parse_address(false, s) {
        Err(AddressFailure::UnknownNetwork) => fvm_parse_address(true, s),
        other => other,
    };
    match fvm {
        Ok(a) => Ok(a),
        Err(_) => {
            match decode_hex_unprefixed(s.as_bytes()) {
                Some(bytes) => {
                    if bytes.len() == ETH_ADDRESS_LEN {
                        Ok(Address::new_eth(&bytes))
                    } else {
                        Err(Error::InvalidAddress)
                    }
                },
                None => Err(Error::InvalidAddress),
            }
        },
    }
}

/// Parse token amount in attoFIL (10**18) from string.
pub fn parse_token_amount_from_atto(s: &str) -> (amount: Result<u128, Error>)
    ensures
        match atto_of_text(s@) {
            Some(atto) => amount == Ok::<u128, Error>(atto),
            None => amount == Err::<u128, Error>(Error::InvalidAmount),
        },
{
    match parse_atto(s) {
        Some(atto) => Ok(atto),
        None => Err(Error::InvalidAmount),
    }
}

/// The number that a text writes in decimal digits, with or without a
/// leading plus sign.
pub open spec fn parsed_height_number(text: Seq<u8>) -> Option<u64> {
    if text.len() > 0 && text[0] == 43 {
        parsed_decimal(text.skip(1))
    } else {
        parsed_decimal(text)
    }
}

/// The height that a text names: `committed` or `pending` in any mix of
/// capital and small letters, or a block height in decimal digits.
pub open spec fn height_of_text(text: Seq<char>) -> Option<FvmQueryHeight> {
    if eq_ignoring_ascii_case(encode_utf8(text), "committed".spec_bytes()) {
        Some(FvmQueryHeight::Committed)
    } else if eq_ignoring_ascii_case(encode_utf8(text), "pending".spec_bytes()) {
        Some(FvmQueryHeight::Pending)
    } else {
        match parsed_height_number(encode_utf8(text)) {
            Some(h) => Some(FvmQueryHeight::Height(h)),
            None => None,
        }
    }
}

/// Reads a number written in decimal digits, with or without a leading
/// plus sign.
pub fn parse_number(bytes: &[u8]) -> (number: Option<u64>)
    ensures
        number == parsed_height_number(bytes@),
{
    if bytes.len() > 0 && bytes[0] == 43 {
        let rest = slice_subrange(bytes, 1, bytes.len());
        assert(rest@ == bytes@.skip(1));
        parse_decimal(rest)
    } else {
        parse_decimal(bytes)
    }
}

/// Parse query height from string.
pub fn parse_query_height(s: &str) -> (height: Result<FvmQueryHeight, Error>)
    ensures
        match height_of_text(s@) {
            Some(h) => height == Ok::<FvmQueryHeight, Error>(h),
            None => height == Err::<FvmQueryHeight, Error>(Error::InvalidHeight),
        },
{
    let bytes = s.as_bytes();
    if eq_ignore_ascii_case(bytes, "committed".as_bytes()) {
        return Ok(FvmQueryHeight::Committed);
    }
    if eq_ignore_ascii_case(bytes, "pending".as_bytes()) {
        return Ok(FvmQueryHeight::Pending);
    }
    match parse_number(bytes) {
        Some(h) => Ok(FvmQueryHeight::Height(h)),
        None => Err(Error::InvalidHeight),
    }
}

} // verus!
