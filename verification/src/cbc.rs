//! Text under AES-256 in CBC mode with PKCS#7 padding, framed as the
//! initialisation vector followed by the ciphertext.
//!
//! This mode carries no authentication tag. What fails here is the padding
//! check, which catches some damage and not all of it; the vault itself
//! seals with the AEAD envelope.

use vstd::prelude::*;
use vstd::slice::{slice_subrange, slice_to_vec};
use vstd::string::*;
use vstd::utf8::*;
use aes::Aes256;
use block_modes::block_padding::Pkcs7;
use block_modes::{BlockMode, Cbc};
use crate::entropy::random_bytes;
use crate::envelope::{opened_from, payload_from};
use crate::error::VaultError;
use crate::text::{
    bytes_view, lemma_text_of_encoded, optional_bytes, read_from, read_payload, text_view,
};

verus! {

/// Width of an AES-256 key, in bytes.
pub const CBC_KEY_LEN: usize = 32;

/// Width of the initialisation vector, which is one cipher block, in bytes.
pub const IV_LEN: usize = 16;

/// Width of one cipher block, in bytes.
pub const CBC_BLOCK_LEN: usize = 16;

/// What AES-256-CBC encryption with PKCS#7 padding returns for a key of 32
/// bytes, an initialisation vector of 16 bytes and a plaintext.
pub uninterp spec fn cbc_ciphertext(key: Seq<u8>, iv: Seq<u8>, plaintext: Seq<u8>) -> Seq<u8>;

/// What AES-256-CBC decryption with PKCS#7 padding returns for a key of 32
/// bytes, an initialisation vector of 16 bytes and a ciphertext: the
/// plaintext, or nothing where the ciphertext is not a whole number of
/// blocks or its padding is malformed.
pub uninterp spec fn cbc_plaintext(key: Seq<u8>, iv: Seq<u8>, ciphertext: Seq<u8>) -> Option<
    Seq<u8>,
>;

/// The length of the ciphertext of a plaintext of a given length: the next
/// whole number of blocks above it.
pub open spec fn padded_len(len: nat) -> int {
    (len / (CBC_BLOCK_LEN as nat) + 1) * CBC_BLOCK_LEN
}

/// Whether a ciphertext of this length is a whole number of blocks, and at
/// least one.
pub open spec fn whole_blocks(len: nat) -> bool {
    len != 0 && len % (CBC_BLOCK_LEN as nat) == 0
}

/// `BlockMode::new_var` of `Cbc<Aes256, Pkcs7>` on key and vector, then
/// `BlockMode::encrypt_vec` on the plaintext. With a key of 32 bytes and a
/// vector of 16 the cipher is always built. The plaintext is padded up to
/// the next whole block, with a block of its own where it already ends on
/// one, and what comes back decrypts, under the same key and vector, to the
/// plaintext.
#[verifier::external_body]
fn aes256_cbc_encrypt(key: &[u8], iv: &[u8], plaintext: &[u8]) -> (ciphertext: Option<Vec<u8>>)
    requires
        key@.len() == CBC_KEY_LEN,
        iv@.len() == IV_LEN,
    ensures
        optional_bytes(ciphertext) == Some(cbc_ciphertext(key@, iv@, plaintext@)),
        ciphertext matches Some(c) ==> c@.len() == padded_len(plaintext@.len()),
        ciphertext matches Some(c) ==> cbc_plaintext(key@, iv@, c@) == Some(plaintext@),
{
    match Cbc::<Aes256, Pkcs7>::new_var(key, iv) {
        Ok(cipher) => Some(cipher.encrypt_vec(plaintext)),
        Err(_) => None,
    }
}

/// `BlockMode::new_var` of `Cbc<Aes256, Pkcs7>` on key and vector, then
/// `BlockMode::decrypt_vec` on the ciphertext. A ciphertext that is empty,
/// or not a whole number of blocks, gives nothing.
#[verifier::external_body]
fn aes256_cbc_decrypt(key: &[u8], iv: &[u8], ciphertext: &[u8]) -> (plaintext: Option<Vec<u8>>)
    requires
        key@.len() == CBC_KEY_LEN,
        iv@.len() == IV_LEN,
    ensures
        optional_bytes(plaintext) == cbc_plaintext(key@, iv@, ciphertext@),
        !whole_blocks(ciphertext@.len()) ==> plaintext is None,
{
    match Cbc::<Aes256, Pkcs7>::new_var(key, iv) {
        Ok(cipher) => match cipher.decrypt_vec(ciphertext) {
            Ok(plaintext) => Some(plaintext),
            Err(_) => None,
        },
        Err(_) => None,
    }
}

/// The message that encrypting a text under a key and a given vector makes:
/// the vector, then the ciphertext of the text's bytes.
pub open spec fn encrypted_text(key: Seq<u8>, iv: Seq<u8>, plaintext: Seq<char>) -> Result<
    Seq<u8>,
    VaultError,
> {
    if key.len() != CBC_KEY_LEN || iv.len() != IV_LEN {
        Err(VaultError::MalformedInput)
    } else {
        Ok(iv + cbc_ciphertext(key, iv, encode_utf8(plaintext)))
    }
}

/// What decrypting a message under a key gives: the first block of the
/// message is the vector, the rest the ciphertext, which has to be a whole
/// number of blocks, and the plaintext has to be text.
pub open spec fn decrypted_text(key: Seq<u8>, message: Seq<u8>) -> Result<Seq<char>, VaultError> {
    if key.len() != CBC_KEY_LEN || message.len() < IV_LEN {
        Err(VaultError::MalformedInput)
    } else if !whole_blocks((message.len() - IV_LEN) as nat) {
        Err(VaultError::AuthenticationFailure)
    } else {
        read_from(
            opened_from(
                cbc_plaintext(
                    key,
                    message.subrange(0, IV_LEN as int),
                    message.subrange(IV_LEN as int, message.len() as int),
                ),
            ),
        )
    }
}

/// A message starts with the vector it was encrypted under, so messages
/// under different vectors differ in their first block.
pub proof fn lemma_message_keeps_vector(key: Seq<u8>, iv: Seq<u8>, plaintext: Seq<char>)
    requires
        encrypted_text(key, iv, plaintext) is Ok,
    ensures
        encrypted_text(key, iv, plaintext)->Ok_0.subrange(0, IV_LEN as int) == iv,
{
}

/// Puts the vector in front of the ciphertext.
pub fn frame(iv: &[u8], ciphertext: &[u8]) -> (message: Vec<u8>)
    ensures
        message@ == iv@ + ciphertext@,
{
    let mut message = slice_to_vec(iv);
    let mut at: usize = 0;
    while at < ciphertext.len()
        invariant
            at <= ciphertext@.len(),
            message@ == iv@ + ciphertext@.subrange(0, at as int),
        decreases ciphertext@.len() - at,
    {
        message.push(ciphertext[at]);
        at = at + 1;
    }
    message
}

/// Takes a message apart into its vector and its ciphertext. A message
/// shorter than a vector has neither.
pub fn unframe<'a>(message: &'a [u8]) -> (parts: Option<(&'a [u8], &'a [u8])>)
    ensures
        match parts {
            Some((iv, ciphertext)) => {
                &&& message@.len() >= IV_LEN
                &&& iv@ == message@.subrange(0, IV_LEN as int)
                &&& ciphertext@ == message@.subrange(IV_LEN as int, message@.len() as int)
            },
            None => message@.len() < IV_LEN,
        },
{
    if message.len() < IV_LEN {
        None
    } else {
        Some((slice_subrange(message, 0, IV_LEN), slice_subrange(message, IV_LEN, message.len())))
    }
}

/// Encrypts a text under a key. With an empty `iv` a vector is drawn for
/// this message; otherwise `iv` is the vector. The message decrypts, under
/// the same key, to the text.
pub fn encrypt_text(key: &[u8], iv: &[u8], plaintext: &str) -> (outcome: Result<
    Vec<u8>,
    VaultError,
>)
    ensures
        iv@.len() != 0 ==> bytes_view(outcome) == encrypted_text(key@, iv@, plaintext@),
        iv@.len() == 0 ==> match outcome {
            Ok(message) => message@.len() >= IV_LEN && encrypted_text(
                key@,
                message@.subrange(0, IV_LEN as int),
                plaintext@,
            ) == Ok::<Seq<u8>, VaultError>(message@),
            Err(e) => if key@.len() != CBC_KEY_LEN {
                e == VaultError::MalformedInput
            } else {
                e == VaultError::CryptoFailure
            },
        },
        iv@.len() == 0 && key@.len() != CBC_KEY_LEN ==> outcome is Err,
        outcome matches Ok(message) ==> message@.len() == IV_LEN + padded_len(
            encode_utf8(plaintext@).len(),
        ),
        outcome matches Ok(message) ==> decrypted_text(key@, message@) == Ok::<
            Seq<char>,
            VaultError,
        >(plaintext@),
{
    if key.len() != CBC_KEY_LEN {
        return Err(VaultError::MalformedInput);
    }
    let drawn: Vec<u8>;
    let vector: &[u8] = if iv.len() == 0 {
        drawn = random_bytes(IV_LEN)?;
        drawn.as_slice()
    } else if iv.len() == IV_LEN {
        iv
    } else {
        return Err(VaultError::MalformedInput);
    };
    match aes256_cbc_encrypt(key, vector, plaintext.as_bytes()) {
        Some(ciphertext) => {
            let message = frame(vector, ciphertext.as_slice());
            proof {
                assert(message@.subrange(0, IV_LEN as int) =~= vector@);
                assert(message@.subrange(IV_LEN as int, message@.len() as int) =~= ciphertext@);
                lemma_text_of_encoded(plaintext@);
            }
            Ok(message)
        },
        None => Err(VaultError::CryptoFailure),
    }
}

/// Decrypts a message under a key and reads the plaintext as text.
pub fn decrypt_text(key: &[u8], ciphertext: &[u8]) -> (outcome: Result<String, VaultError>)
    ensures
        text_view(outcome) == decrypted_text(key@, ciphertext@),
{
    if key.len() != CBC_KEY_LEN {
        return Err(VaultError::MalformedInput);
    }
    match unframe(ciphertext) {
        None => Err(VaultError::MalformedInput),
        Some((iv, body)) => read_payload(payload_from(aes256_cbc_decrypt(key, iv, body))),
    }
}

} // verus!
