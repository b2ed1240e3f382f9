//! The capability token: an identifier, a separator, and the key in
//! URL-safe base64 without padding.
//!
//! The token is the only place where identifier and key stand together.

use vstd::prelude::*;
use vstd::string::*;
use vstd::utf8::*;
use base64::engine::general_purpose::URL_SAFE_NO_PAD;
use base64::Engine;
use crate::envelope::KEY_LEN;
use crate::error::VaultError;
use crate::ident::{check_secret_id, is_hex_digit, is_secret_id, ID_LEN};
use crate::text::{ascii_text, is_ascii_bytes, lemma_ascii_codes, optional_bytes};

verus! {

/// Characters of the separator.
pub const SEPARATOR_LEN: usize = 2;

/// Characters of an encoded key: 32 bytes, six bits to a character, rounded
/// up.
pub const KEY_TEXT_LEN: usize = 43;

/// Characters of a token.
pub const TOKEN_LEN: usize = ID_LEN + SEPARATOR_LEN + KEY_TEXT_LEN;

/// The separator between identifier and key: two colons. Neither an
/// identifier nor an encoded key holds a colon.
pub open spec fn separator() -> Seq<char> {
    seq![':', ':']
}

/// Whether a character belongs to the URL-safe base64 alphabet.
pub open spec fn is_base64url_char(c: char) -> bool {
    ('A' <= c && c <= 'Z') || ('a' <= c && c <= 'z') || ('0' <= c && c <= '9') || c == '-' || c
        == '_'
}

/// What the URL-safe base64 encoder without padding returns for bytes.
pub uninterp spec fn base64url_text(bytes: Seq<u8>) -> Seq<char>;

/// What the URL-safe base64 decoder that accepts no padding returns for a
/// text: the bytes, or nothing where the text is not such an encoding.
pub uninterp spec fn base64url_bytes(text: Seq<char>) -> Option<Seq<u8>>;

/// `Engine::encode` of `base64::engine::general_purpose::URL_SAFE_NO_PAD`.
/// The text is made of characters of the URL-safe alphabet alone, and the
/// same engine decodes it to the bytes it was made from. The encoder panics
/// where the length of the text would not fit in `usize`, which the
/// precondition excludes.
#[verifier::external_body]
fn base64url_encode(bytes: &[u8]) -> (text: String)
    requires
        4 * (bytes@.len() / 3) + 3 <= usize::MAX,
    ensures
        text@ == base64url_text(bytes@),
        forall|i: int| 0 <= i < text@.len() ==> is_base64url_char(#[trigger] text@[i]),
        base64url_bytes(text@) == Some(bytes@),
{
    URL_SAFE_NO_PAD.encode(bytes)
}

/// `Engine::decode` of `base64::engine::general_purpose::URL_SAFE_NO_PAD`.
/// Four characters give three bytes and a last group of two or three gives
/// one or two, so what comes back has three quarters of the text's length,
/// rounded down.
#[verifier::external_body]
fn base64url_decode(text: &str) -> (bytes: Option<Vec<u8>>)
    ensures
        optional_bytes(bytes) == base64url_bytes(text@),
        bytes matches Some(b) ==> b@.len() == 3 * text@.len() / 4,
{
    match URL_SAFE_NO_PAD.decode(text) {
        Ok(bytes) => Some(bytes),
        Err(_) => None,
    }
}

/// The token for an identifier and a key.
pub open spec fn token_text(id: Seq<char>, key: Seq<u8>) -> Seq<char> {
    id + separator() + base64url_text(key)
}

/// Whether the separator stands at a place in a text.
pub open spec fn separator_at(token: Seq<char>, at: int) -> bool {
    0 <= at && at + SEPARATOR_LEN <= token.len() && token[at] == ':' && token[at + 1] == ':'
}

/// Whether the first separator of a text stands at a place.
pub open spec fn first_separator_at(token: Seq<char>, at: int) -> bool {
    separator_at(token, at) && forall|before: int| 0 <= before < at ==> !separator_at(token, before)
}

/// The key that a decoded key part stands for: it has to be there, and it
/// has to have the width of a key.
pub open spec fn key_of(decoded: Option<Seq<u8>>) -> Option<Seq<u8>> {
    match decoded {
        Some(key) => if key.len() == KEY_LEN {
            Some(key)
        } else {
            None
        },
        None => None,
    }
}

/// The identifier and the key that a token holds, if it is well formed: an
/// ASCII text that starts with an identifier, goes on with the separator,
/// and ends with the encoding of a key of the right width.
pub open spec fn parse_token(token: Seq<char>) -> Option<(Seq<char>, Seq<u8>)> {
    let id = token.subrange(0, ID_LEN as int);
    let key_text = token.subrange(ID_LEN + SEPARATOR_LEN, token.len() as int);
    if is_ascii_chars(token) && token.len() >= ID_LEN + SEPARATOR_LEN && is_secret_id(id)
        && separator_at(token, ID_LEN as int) {
        match key_of(base64url_bytes(key_text)) {
            Some(key) => Some((id, key)),
            None => None,
        }
    } else {
        None
    }
}

/// What decoding a token gives.
pub open spec fn decoded(token: Seq<char>) -> Result<(Seq<char>, Seq<u8>), VaultError> {
    match parse_token(token) {
        Some(parts) => Ok(parts),
        None => Err(VaultError::MalformedToken),
    }
}

/// The identifier and the key of a decoding result, as characters and bytes.
pub open spec fn parts_view(outcome: Result<(String, Vec<u8>), VaultError>) -> Result<
    (Seq<char>, Seq<u8>),
    VaultError,
> {
    match outcome {
        Ok((id, key)) => Ok((id@, key@)),
        Err(e) => Err(e),
    }
}

/// An identifier holds no colon, so no separator starts inside it.
pub proof fn lemma_no_separator_in_id(token: Seq<char>, at: int)
    requires
        token.len() >= ID_LEN,
        is_secret_id(token.subrange(0, ID_LEN as int)),
        0 <= at < ID_LEN,
    ensures
        !separator_at(token, at),
{
    assert(token.subrange(0, ID_LEN as int)[at] == token[at]);
}

/// A token is ASCII, and its two parts are read back from it: the first
/// separator is the one that follows the identifier.
pub proof fn lemma_token_text_parts(id: Seq<char>, key_text: Seq<char>)
    requires
        is_secret_id(id),
        forall|i: int| 0 <= i < key_text.len() ==> is_base64url_char(#[trigger] key_text[i]),
    ensures
        ({
            let token = id + separator() + key_text;
            &&& is_ascii_chars(token)
            &&& first_separator_at(token, ID_LEN as int)
            &&& token.subrange(0, ID_LEN as int) == id
            &&& token.subrange(ID_LEN + SEPARATOR_LEN, token.len() as int) == key_text
        }),
{
    let token = id + separator() + key_text;
    assert forall|before: int| 0 <= before < ID_LEN implies !separator_at(token, before) by {
        lemma_no_separator_in_id(token, before);
    }
}

/// A well-formed token has its first separator right after the identifier.
pub proof fn lemma_parsed_at_first_separator(token: Seq<char>)
    requires
        parse_token(token) is Some,
    ensures
        first_separator_at(token, ID_LEN as int),
{
    assert forall|before: int| 0 <= before < ID_LEN implies !separator_at(token, before) by {
        lemma_no_separator_in_id(token, before);
    }
}

/// A text without a separator is a malformed token.
pub proof fn lemma_missing_separator(token: Seq<char>)
    requires
        forall|at: int| !separator_at(token, at),
    ensures
        decoded(token) == Err::<(Seq<char>, Seq<u8>), VaultError>(VaultError::MalformedToken),
{
}

/// A token whose key part, the text behind the first separator, is not the
/// encoding of anything, or is cut short, or encodes bytes of any width but
/// that of a key, is a malformed token.
pub proof fn lemma_malformed_key_part(token: Seq<char>, at: int)
    requires
        first_separator_at(token, at),
        key_of(base64url_bytes(token.subrange(at + SEPARATOR_LEN, token.len() as int))) is None,
    ensures
        decoded(token) == Err::<(Seq<char>, Seq<u8>), VaultError>(VaultError::MalformedToken),
{
    if parse_token(token) is Some {
        lemma_parsed_at_first_separator(token);
    }
}

/// Splits a text at its first separator. A text that is not ASCII has no
/// parts.
pub fn split_token<'a>(token: &'a str) -> (parts: Option<(&'a str, &'a str)>)
    ensures
        match parts {
            Some((id, key_text)) => {
                &&& is_ascii_chars(token@)
                &&& first_separator_at(token@, id@.len() as int)
                &&& id@ == token@.subrange(0, id@.len() as int)
                &&& key_text@ == token@.subrange(id@.len() + SEPARATOR_LEN, token@.len() as int)
            },
            None => !is_ascii_chars(token@) || forall|at: int| !separator_at(token@, at),
        },
{
    if !token.is_ascii() {
        return None;
    }
    let codes = token.as_bytes();
    proof {
        lemma_ascii_codes(token@);
    }
    let len = codes.len();
    if len < SEPARATOR_LEN {
        return None;
    }
    let mut at: usize = 0;
    while at <= len - SEPARATOR_LEN
        invariant
            SEPARATOR_LEN <= len,
            at <= len - SEPARATOR_LEN + 1,
            len == codes@.len(),
            len == token@.len(),
            is_ascii(token),
            is_ascii_bytes(codes@),
            ascii_text(codes@) == token@,
            forall|before: int| 0 <= before < at ==> !separator_at(token@, before),
        decreases len - at,
    {
        if codes[at] == 0x3a && codes[at + 1] == 0x3a {
            let id = token.substring_ascii(0, at);
            let key_text = token.substring_ascii(at + SEPARATOR_LEN, len);
            return Some((id, key_text));
        }
        at = at + 1;
    }
    None
}

/// Keeps a decoded key part if it is a key.
pub fn key_from(decoded: Option<Vec<u8>>) -> (key: Option<Vec<u8>>)
    ensures
        optional_bytes(key) == key_of(optional_bytes(decoded)),
{
    match decoded {
        Some(key) => if key.len() == KEY_LEN {
            Some(key)
        } else {
            None
        },
        None => None,
    }
}

/// Writes the token for an identifier and a key. The token decodes to the
/// two again. An identifier or a key of the wrong shape is refused.
pub fn encode(id: &str, key: &[u8]) -> (outcome: Result<String, VaultError>)
    ensures
        match outcome {
            Ok(token) => {
                &&& is_secret_id(id@) && key@.len() == KEY_LEN
                &&& token@ == token_text(id@, key@)
                &&& parse_token(token@) == Some((id@, key@))
            },
            Err(e) => !(is_secret_id(id@) && key@.len() == KEY_LEN) && e
                == VaultError::MalformedInput,
        },
{
    if !check_secret_id(id) || key.len() != KEY_LEN {
        return Err(VaultError::MalformedInput);
    }
    let key_text = base64url_encode(key);
    let token = String::from_str(id).concat("::").concat(key_text.as_str());
    proof {
        reveal_strlit("::");
        lemma_token_text_parts(id@, key_text@);
    }
    Ok(token)
}

/// Reads a token: splits it at the first separator, checks the identifier,
/// decodes the key and checks its width. Whatever is wrong with a token, the
/// answer is the same error. A text that is shorter or longer than a token,
/// such as a token with its key cut short or drawn out, is never read as
/// one.
pub fn decode(token: &str) -> (outcome: Result<(String, Vec<u8>), VaultError>)
    ensures
        parts_view(outcome) == decoded(token@),
        token@.len() != TOKEN_LEN ==> outcome == Err::<(String, Vec<u8>), VaultError>(
            VaultError::MalformedToken,
        ),
{
    let (id, key_text) = match split_token(token) {
        Some(parts) => parts,
        None => return Err(VaultError::MalformedToken),
    };
    if !check_secret_id(id) {
        proof {
            if parse_token(token@) is Some && id@.len() < ID_LEN {
                lemma_no_separator_in_id(token@, id@.len() as int);
            }
        }
        return Err(VaultError::MalformedToken);
    }
    match key_from(base64url_decode(key_text)) {
        Some(key) => Ok((String::from_str(id), key)),
        None => Err(VaultError::MalformedToken),
    }
}

} // verus!
