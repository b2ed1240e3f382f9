//! Identifiers of secrets: 128 random bits, written as 32 lowercase
//! hexadecimal digits.

use vstd::prelude::*;
use vstd::string::*;
use vstd::utf8::*;
use crate::entropy::random_bytes;
use crate::error::VaultError;
use crate::text::{ascii_string, ascii_text, is_ascii_bytes, lemma_ascii_codes};

verus! {

/// Random bytes behind an identifier.
pub const ID_BYTES: usize = 16;

/// Characters of an identifier.
pub const ID_LEN: usize = 32;

/// Whether a character is one of `0` to `9` or `a` to `f`.
pub open spec fn is_hex_digit(c: char) -> bool {
    ('0' <= c && c <= '9') || ('a' <= c && c <= 'f')
}

/// Whether a text has the shape of an identifier.
pub open spec fn is_secret_id(text: Seq<char>) -> bool {
    &&& text.len() == ID_LEN
    &&& forall|i: int| 0 <= i < text.len() ==> is_hex_digit(#[trigger] text[i])
}

/// The ASCII code of the hexadecimal digit for a value below 16.
pub open spec fn hex_code(nibble: int) -> u8 {
    if nibble < 10 {
        (0x30 + nibble) as u8
    } else {
        (0x57 + nibble) as u8
    }
}

/// The ASCII codes of the hexadecimal rendering of bytes, two digits for
/// each byte, the high half first.
pub open spec fn hex_codes(bytes: Seq<u8>) -> Seq<u8> {
    Seq::new(
        2 * bytes.len(),
        |i: int|
            if i % 2 == 0 {
                hex_code(bytes[i / 2] as int / 16)
            } else {
                hex_code(bytes[i / 2] as int % 16)
            },
    )
}

/// The hexadecimal rendering of bytes.
pub open spec fn hex_text(bytes: Seq<u8>) -> Seq<char> {
    ascii_text(hex_codes(bytes))
}

/// Sixteen bytes render as an identifier.
pub proof fn lemma_hex_text_is_id(bytes: Seq<u8>)
    requires
        bytes.len() == ID_BYTES,
    ensures
        is_secret_id(hex_text(bytes)),
{
}

/// The ASCII code of one hexadecimal digit.
fn hex_digit(nibble: u8) -> (code: u8)
    requires
        nibble < 16,
    ensures
        code == hex_code(nibble as int),
        code < 128,
{
    if nibble < 10 {
        0x30 + nibble
    } else {
        0x57 + nibble
    }
}

/// Renders bytes in lowercase hexadecimal.
pub fn to_hex(bytes: &[u8]) -> (text: String)
    ensures
        text@ == hex_text(bytes@),
{
    let mut codes: Vec<u8> = Vec::new();
    let mut at: usize = 0;
    while at < bytes.len()
        invariant
            at <= bytes@.len(),
            codes@.len() == 2 * at,
            forall|i: int| 0 <= i < codes@.len() ==> codes@[i] == hex_codes(bytes@)[i],
            is_ascii_bytes(codes@),
        decreases bytes@.len() - at,
    {
        let byte: u8 = bytes[at];
        codes.push(hex_digit(byte / 16));
        codes.push(hex_digit(byte % 16));
        at = at + 1;
    }
    ascii_string(codes)
}

/// Renders the random bytes of an identifier. Anything but sixteen bytes is
/// refused.
pub fn render_id(entropy: &[u8]) -> (outcome: Result<String, VaultError>)
    ensures
        match outcome {
            Ok(id) => entropy@.len() == ID_BYTES && id@ == hex_text(entropy@) && is_secret_id(id@),
            Err(e) => entropy@.len() != ID_BYTES && e == VaultError::MalformedInput,
        },
{
    if entropy.len() != ID_BYTES {
        return Err(VaultError::MalformedInput);
    }
    proof {
        lemma_hex_text_is_id(entropy@);
    }
    Ok(to_hex(entropy))
}

/// Mints the identifier of a new secret.
pub fn generate_id() -> (outcome: Result<String, VaultError>)
    ensures
        match outcome {
            Ok(id) => is_secret_id(id@),
            Err(e) => e == VaultError::CryptoFailure,
        },
{
    let entropy = random_bytes(ID_BYTES)?;
    match render_id(entropy.as_slice()) {
        Ok(id) => Ok(id),
        Err(_) => Err(VaultError::CryptoFailure),
    }
}

/// Tells whether a text has the shape of an identifier.
pub fn check_secret_id(text: &str) -> (yes: bool)
    ensures
        yes == is_secret_id(text@),
{
    if !text.is_ascii() {
        return false;
    }
    let codes = text.as_bytes();
    proof {
        lemma_ascii_codes(text@);
    }
    if codes.len() != ID_LEN {
        return false;
    }
    let mut at: usize = 0;
    while at < ID_LEN
        invariant
            at <= ID_LEN,
            codes@.len() == ID_LEN,
            is_ascii_bytes(codes@),
            ascii_text(codes@) == text@,
            forall|i: int| 0 <= i < at ==> is_hex_digit(#[trigger] text@[i]),
        decreases ID_LEN - at,
    {
        let code: u8 = codes[at];
        let digit = (0x30 <= code && code <= 0x39) || (0x61 <= code && code <= 0x66);
        assert(text@[at as int] == code as char);
        if !digit {
            return false;
        }
        at = at + 1;
    }
    true
}

} // verus!
