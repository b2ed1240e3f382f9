//! Text as bytes and bytes as text.

use vstd::pervasive::unreached;
use vstd::prelude::*;
use vstd::utf8::*;
use crate::error::VaultError;

verus! {

/// What a byte string reads as: its characters where it is UTF-8, and an
/// encoding failure where it is not.
pub open spec fn text_of(bytes: Seq<u8>) -> Result<Seq<char>, VaultError> {
    if valid_utf8(bytes) {
        Ok(decode_utf8(bytes))
    } else {
        Err(VaultError::EncodingFailure)
    }
}

/// The characters of a text result, with the error kept as it is.
pub open spec fn text_view(outcome: Result<String, VaultError>) -> Result<Seq<char>, VaultError> {
    match outcome {
        Ok(text) => Ok(text@),
        Err(e) => Err(e),
    }
}

/// The bytes of a result, with the error kept as it is.
pub open spec fn bytes_view(outcome: Result<Vec<u8>, VaultError>) -> Result<Seq<u8>, VaultError> {
    match outcome {
        Ok(bytes) => Ok(bytes@),
        Err(e) => Err(e),
    }
}

/// The bytes of what a call returned, where it returned anything.
pub open spec fn optional_bytes(returned: Option<Vec<u8>>) -> Option<Seq<u8>> {
    match returned {
        Some(bytes) => Some(bytes@),
        None => None,
    }
}

/// The text that a payload reads as, where there is a payload.
pub open spec fn read_from(payload: Result<Seq<u8>, VaultError>) -> Result<Seq<char>, VaultError> {
    match payload {
        Ok(bytes) => text_of(bytes),
        Err(e) => Err(e),
    }
}

/// std's `String::from_utf8`: it accepts exactly the byte strings that are
/// valid UTF-8, and the string it returns holds the characters that the
/// bytes encode.
#[verifier::external_body]
pub(crate) fn string_from_utf8(bytes: Vec<u8>) -> (text: Option<String>)
    ensures
        text is Some <==> valid_utf8(bytes@),
        text matches Some(s) ==> s@ == decode_utf8(bytes@),
{
    match String::from_utf8(bytes) {
        Ok(s) => Some(s),
        Err(_) => None,
    }
}

/// Reads bytes as text, without repairing or dropping anything.
pub fn decode_text(bytes: Vec<u8>) -> (outcome: Result<String, VaultError>)
    ensures
        text_view(outcome) == text_of(bytes@),
{
    match string_from_utf8(bytes) {
        Some(text) => Ok(text),
        None => Err(VaultError::EncodingFailure),
    }
}

/// Reads a payload as text, and hands an error on.
pub fn read_payload(payload: Result<Vec<u8>, VaultError>) -> (outcome: Result<String, VaultError>)
    ensures
        text_view(outcome) == read_from(bytes_view(payload)),
{
    match payload {
        Ok(bytes) => decode_text(bytes),
        Err(e) => Err(e),
    }
}

/// The characters that a string of ASCII bytes spells.
pub open spec fn ascii_text(bytes: Seq<u8>) -> Seq<char> {
    Seq::new(bytes.len(), |i: int| bytes[i] as char)
}

/// Whether every byte is an ASCII code.
pub open spec fn is_ascii_bytes(bytes: Seq<u8>) -> bool {
    forall|i: int| 0 <= i < bytes.len() ==> #[trigger] bytes[i] < 128
}

/// ASCII bytes are the UTF-8 encoding of the characters they spell.
pub proof fn lemma_ascii_text_encodes(bytes: Seq<u8>)
    requires
        is_ascii_bytes(bytes),
    ensures
        is_ascii_chars(ascii_text(bytes)),
        encode_utf8(ascii_text(bytes)) == bytes,
        text_of(bytes) == Ok::<Seq<char>, VaultError>(ascii_text(bytes)),
{
    let chars = ascii_text(bytes);
    is_ascii_chars_encode_utf8(chars);
    assert(encode_utf8(chars) =~= bytes);
    lemma_text_of_encoded(chars);
}

/// In the bytes of an ASCII text every byte is the code of the character at
/// its place.
pub proof fn lemma_ascii_codes(text: Seq<char>)
    requires
        is_ascii_chars(text),
    ensures
        encode_utf8(text).len() == text.len(),
        is_ascii_bytes(encode_utf8(text)),
        ascii_text(encode_utf8(text)) == text,
{
    is_ascii_chars_encode_utf8(text);
}

/// Spells ASCII bytes as a string.
pub(crate) fn ascii_string(bytes: Vec<u8>) -> (text: String)
    requires
        is_ascii_bytes(bytes@),
    ensures
        text@ == ascii_text(bytes@),
{
    proof {
        lemma_ascii_text_encodes(bytes@);
    }
    match string_from_utf8(bytes) {
        Some(text) => text,
        None => unreached(),
    }
}

/// Every text reads back from its own bytes.
pub proof fn lemma_text_of_encoded(text: Seq<char>)
    ensures
        text_of(encode_utf8(text)) == Ok::<Seq<char>, VaultError>(text),
{
    encode_utf8_valid_utf8(text);
    encode_utf8_decode_utf8(text);
}

} // verus!
