//! Reading secret keys.

use vstd::prelude::*;
use vstd::string::StringSliceAdditionalSpecFns;
use vstd::utf8::encode_utf8;

use crate::error::Error;
use crate::provider::util::{decode_hex_unprefixed, hex_decoded_unprefixed};

verus! {

/// Whether a character is white space in the sense of Unicode.
pub open spec fn is_white_space(c: char) -> bool {
    let code = c as u32;
    ||| 0x09 <= code <= 0x0d
    ||| code == 0x20
    ||| code == 0x85
    ||| code == 0xa0
    ||| code == 0x1680
    ||| 0x2000 <= code <= 0x200a
    ||| code == 0x2028
    ||| code == 0x2029
    ||| code == 0x202f
    ||| code == 0x205f
    ||| code == 0x3000
}

/// A text without the white space that it begins with.
pub open spec fn trimmed_start(text: Seq<char>) -> Seq<char>
    decreases text.len(),
{
    if text.len() > 0 && is_white_space(text[0]) {
        trimmed_start(text.skip(1))
    } else {
        text
    }
}

/// A text without the white space that it ends with.
pub open spec fn trimmed_end(text: Seq<char>) -> Seq<char>
    decreases text.len(),
{
    if text.len() > 0 && is_white_space(text.last()) {
        trimmed_end(text.drop_last())
    } else {
        text
    }
}

/// A text without the white space around it.
pub open spec fn trimmed(text: Seq<char>) -> Seq<char> {
    trimmed_end(trimmed_start(text))
}

/// `str::trim`: the text with leading and trailing white space removed,
/// white space being the characters with the Unicode property White_Space.
#[verifier::external_body]
fn trim(text: &str) -> (inner: &str)
    ensures
        inner@ == trimmed(text@),
{
    text.trim()
}

/// The bytes of a secret key written in hexadecimal, white space around it
/// and a leading `0x` left out.
pub open spec fn secret_key_bytes(text: Seq<char>) -> Option<Seq<u8>> {
    hex_decoded_unprefixed(encode_utf8(trimmed(text)))
}

/// Reads the bytes of a secret key from hexadecimal text.
pub fn parse_secret_key(hex_str: &str) -> (raw_secret: Result<Vec<u8>, Error>)
    ensures
        match secret_key_bytes(hex_str@) {
            Some(bytes) => raw_secret matches Ok(v) && v@ == bytes,
            None => raw_secret == Err::<Vec<u8>, Error>(Error::InvalidSecretKeyHex),
        },
{
    let hex_str = trim(hex_str);
    match decode_hex_unprefixed(hex_str.as_bytes()) {
        Some(raw_secret) => Ok(raw_secret),
        None => Err(Error::InvalidSecretKeyHex),
    }
}

} // verus!
