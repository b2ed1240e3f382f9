//! The AEAD envelope: a payload sealed under a one-time key as a nonce and
//! a ciphertext that carries its authentication tag.
//!
//! The cipher is ChaCha20-Poly1305 with no associated data.

use vstd::prelude::*;
use vstd::slice::slice_to_vec;
use chacha20poly1305::aead::{Aead, KeyInit};
use chacha20poly1305::ChaCha20Poly1305;
use crate::entropy::random_bytes;
use crate::error::VaultError;
use crate::text::{bytes_view, optional_bytes};

verus! {

/// Width of a key, in bytes.
pub const KEY_LEN: usize = 32;

/// Width of a nonce, in bytes.
pub const NONCE_LEN: usize = 12;

/// Width of the authentication tag that ends every ciphertext, in bytes.
pub const TAG_LEN: usize = 16;

/// Bytes of one block of the cipher's keystream.
pub const BLOCK_LEN: usize = 64;

/// Blocks of keystream that one key and nonce give to a payload. The block
/// counter has 32 bits and cannot pass its last value, and block 0 is spent
/// on the key of the tag: 2^32 - 2 blocks are left.
pub const MAX_BLOCKS: usize = 0xffff_fffe;

/// The only material that is stored for a secret. It does not hold the key.
#[derive(Clone, Debug, PartialEq, Eq)]
pub struct SealedRecord {
    /// The nonce the payload was sealed with. It is not secret.
    pub nonce: Vec<u8>,
    /// The encrypted payload, followed by its tag.
    pub ciphertext: Vec<u8>,
}

/// A sealed record as two byte strings.
pub ghost struct SealedBytes {
    pub nonce: Seq<u8>,
    pub ciphertext: Seq<u8>,
}

impl View for SealedRecord {
    type V = SealedBytes;

    open spec fn view(&self) -> SealedBytes {
        SealedBytes { nonce: self.nonce@, ciphertext: self.ciphertext@ }
    }
}

/// What ChaCha20-Poly1305 encryption returns for a key of 32 bytes, a nonce
/// of 12 bytes and a plaintext within the cipher's limit, with no associated
/// data: the ciphertext with its tag.
pub uninterp spec fn aead_ciphertext(key: Seq<u8>, nonce: Seq<u8>, plaintext: Seq<u8>) -> Seq<u8>;

/// What ChaCha20-Poly1305 decryption returns for a key of 32 bytes, a nonce
/// of 12 bytes and a ciphertext with its tag, within the cipher's limit and
/// with no associated data: the plaintext, or nothing where the tag does not
/// verify.
pub uninterp spec fn aead_plaintext(key: Seq<u8>, nonce: Seq<u8>, ciphertext: Seq<u8>) -> Option<
    Seq<u8>,
>;

/// Whether the cipher takes a plaintext of this length: one that its
/// keystream covers, 274,877,906,816 bytes at most.
pub open spec fn within_cipher_limit(len: nat) -> bool {
    len <= BLOCK_LEN * MAX_BLOCKS
}

/// Whether a ciphertext of this length can hold a plaintext that the cipher
/// takes, and its tag.
pub open spec fn within_record_limit(len: nat) -> bool {
    len <= BLOCK_LEN * MAX_BLOCKS + TAG_LEN
}

/// `ChaCha20Poly1305::new` on the key, then `Aead::encrypt` on the nonce and
/// the plaintext. The keystream panics on a plaintext that needs more than
/// 2^32 - 2 blocks, which the precondition excludes; on every other
/// plaintext the cipher gives a result. The tag of 16 bytes is appended to
/// the encrypted bytes, and what comes back decrypts, under the same key and
/// nonce, to the plaintext.
#[verifier::external_body]
fn chacha20poly1305_encrypt(key: &[u8], nonce: &[u8], plaintext: &[u8]) -> (sealed: Option<Vec<u8>>)
    requires
        key@.len() == KEY_LEN,
        nonce@.len() == NONCE_LEN,
        within_cipher_limit(plaintext@.len()),
    ensures
        optional_bytes(sealed) == Some(aead_ciphertext(key@, nonce@, plaintext@)),
        sealed matches Some(c) ==> c@.len() == plaintext@.len() + TAG_LEN,
        sealed matches Some(c) ==> aead_plaintext(key@, nonce@, c@) == Some(plaintext@),
{
    let cipher = ChaCha20Poly1305::new(chacha20poly1305::Key::from_slice(key));
    match cipher.encrypt(chacha20poly1305::Nonce::from_slice(nonce), plaintext) {
        Ok(ciphertext) => Some(ciphertext),
        Err(_) => None,
    }
}

/// `ChaCha20Poly1305::new` on the key, then `Aead::decrypt` on the nonce and
/// the ciphertext. The keystream panics where the tag verifies on a
/// ciphertext that needs more than 2^32 - 2 blocks, which the precondition
/// excludes. A ciphertext shorter than the tag is refused, and what comes
/// back is shorter than the ciphertext by the tag.
#[verifier::external_body]
fn chacha20poly1305_decrypt(key: &[u8], nonce: &[u8], ciphertext: &[u8]) -> (opened: Option<Vec<u8>>)
    requires
        key@.len() == KEY_LEN,
        nonce@.len() == NONCE_LEN,
        within_record_limit(ciphertext@.len()),
    ensures
        optional_bytes(opened) == aead_plaintext(key@, nonce@, ciphertext@),
        opened matches Some(p) ==> p@.len() + TAG_LEN == ciphertext@.len(),
{
    let cipher = ChaCha20Poly1305::new(chacha20poly1305::Key::from_slice(key));
    match cipher.decrypt(chacha20poly1305::Nonce::from_slice(nonce), ciphertext) {
        Ok(plaintext) => Some(plaintext),
        Err(_) => None,
    }
}

/// The record that sealing under a given nonce produces. A key or a nonce of
/// the wrong width is rejected before the cipher sees it, and so is a
/// plaintext beyond the cipher's limit.
pub open spec fn sealed(key: Seq<u8>, nonce: Seq<u8>, plaintext: Seq<u8>) -> Result<
    SealedBytes,
    VaultError,
> {
    if key.len() != KEY_LEN || nonce.len() != NONCE_LEN {
        Err(VaultError::MalformedInput)
    } else if !within_cipher_limit(plaintext.len()) {
        Err(VaultError::CryptoFailure)
    } else {
        sealed_from(nonce, Some(aead_ciphertext(key, nonce, plaintext)))
    }
}

/// The record made of a nonce and of what the cipher returned for it.
pub open spec fn sealed_from(nonce: Seq<u8>, encrypted: Option<Seq<u8>>) -> Result<
    SealedBytes,
    VaultError,
> {
    match encrypted {
        Some(ciphertext) => Ok(SealedBytes { nonce, ciphertext }),
        None => Err(VaultError::CryptoFailure),
    }
}

/// What opening a record under a key gives. Every failure of the cipher is
/// the same authentication failure, whatever its cause, and so is a
/// ciphertext too long to have been sealed.
pub open spec fn opened(key: Seq<u8>, record: SealedBytes) -> Result<Seq<u8>, VaultError> {
    if key.len() != KEY_LEN || record.nonce.len() != NONCE_LEN {
        Err(VaultError::MalformedInput)
    } else if !within_record_limit(record.ciphertext.len()) {
        Err(VaultError::AuthenticationFailure)
    } else {
        opened_from(aead_plaintext(key, record.nonce, record.ciphertext))
    }
}

/// The payload, given what the cipher returned for a record.
pub open spec fn opened_from(decrypted: Option<Seq<u8>>) -> Result<Seq<u8>, VaultError> {
    match decrypted {
        Some(plaintext) => Ok(plaintext),
        None => Err(VaultError::AuthenticationFailure),
    }
}

/// The two byte strings of a record result, with the error kept as it is.
pub open spec fn record_view(outcome: Result<SealedRecord, VaultError>) -> Result<
    SealedBytes,
    VaultError,
> {
    match outcome {
        Ok(record) => Ok(record@),
        Err(e) => Err(e),
    }
}

/// A record keeps the nonce it was sealed with, so seals under different
/// nonces give records with different nonces.
pub proof fn lemma_record_keeps_nonce(key: Seq<u8>, nonce: Seq<u8>, plaintext: Seq<u8>)
    requires
        sealed(key, nonce, plaintext) is Ok,
    ensures
        sealed(key, nonce, plaintext)->Ok_0.nonce == nonce,
{
}

/// Tells whether the cipher takes a plaintext of this length.
pub fn fits_cipher(len: usize) -> (yes: bool)
    ensures
        yes == within_cipher_limit(len as nat),
{
    let blocks: usize = len / BLOCK_LEN;
    blocks < MAX_BLOCKS || (blocks == MAX_BLOCKS && len % BLOCK_LEN == 0)
}

/// Tells whether a ciphertext of this length can hold a plaintext that the
/// cipher takes, and its tag.
pub fn fits_record(len: usize) -> (yes: bool)
    ensures
        yes == within_record_limit(len as nat),
{
    len <= TAG_LEN || fits_cipher(len - TAG_LEN)
}

/// Draws a key for one secret.
pub fn generate_key() -> (key: Result<Vec<u8>, VaultError>)
    ensures
        match key {
            Ok(bytes) => bytes@.len() == KEY_LEN,
            Err(e) => e == VaultError::CryptoFailure,
        },
{
    random_bytes(KEY_LEN)
}

/// Draws a nonce for one seal.
pub fn generate_nonce() -> (nonce: Result<Vec<u8>, VaultError>)
    ensures
        match nonce {
            Ok(bytes) => bytes@.len() == NONCE_LEN,
            Err(e) => e == VaultError::CryptoFailure,
        },
{
    random_bytes(NONCE_LEN)
}

/// Forms the record from the nonce and from what the cipher returned.
pub fn record_from(nonce: Vec<u8>, encrypted: Option<Vec<u8>>) -> (outcome: Result<
    SealedRecord,
    VaultError,
>)
    ensures
        record_view(outcome) == sealed_from(nonce@, optional_bytes(encrypted)),
{
    match encrypted {
        Some(ciphertext) => Ok(SealedRecord { nonce, ciphertext }),
        None => Err(VaultError::CryptoFailure),
    }
}

/// Forms the payload from what the cipher returned.
pub fn payload_from(decrypted: Option<Vec<u8>>) -> (outcome: Result<Vec<u8>, VaultError>)
    ensures
        bytes_view(outcome) == opened_from(optional_bytes(decrypted)),
{
    match decrypted {
        Some(plaintext) => Ok(plaintext),
        None => Err(VaultError::AuthenticationFailure),
    }
}

/// Seals a payload under a key and a nonce that the caller has drawn for
/// this one seal. The record opens again under the same key.
pub fn seal_with_nonce(key: &[u8], nonce: &[u8], plaintext: &[u8]) -> (outcome: Result<
    SealedRecord,
    VaultError,
>)
    ensures
        record_view(outcome) == sealed(key@, nonce@, plaintext@),
        key@.len() == KEY_LEN && nonce@.len() == NONCE_LEN && within_cipher_limit(
            plaintext@.len(),
        ) ==> outcome is Ok,
        outcome matches Ok(record) ==> {
            &&& record@.ciphertext.len() == plaintext@.len() + TAG_LEN
            &&& opened(key@, record@) == Ok::<Seq<u8>, VaultError>(plaintext@)
        },
{
    if key.len() != KEY_LEN || nonce.len() != NONCE_LEN {
        return Err(VaultError::MalformedInput);
    }
    if !fits_cipher(plaintext.len()) {
        return Err(VaultError::CryptoFailure);
    }
    let encrypted = chacha20poly1305_encrypt(key, nonce, plaintext);
    record_from(slice_to_vec(nonce), encrypted)
}

/// Seals a payload under a key, with a nonce drawn for this seal alone.
pub fn seal(key: &[u8], plaintext: &[u8]) -> (outcome: Result<SealedRecord, VaultError>)
    ensures
        match outcome {
            Ok(record) => {
                &&& sealed(key@, record@.nonce, plaintext@) == Ok::<SealedBytes, VaultError>(
                    record@,
                )
                &&& record@.ciphertext.len() == plaintext@.len() + TAG_LEN
                &&& opened(key@, record@) == Ok::<Seq<u8>, VaultError>(plaintext@)
            },
            Err(e) => if key@.len() != KEY_LEN {
                e == VaultError::MalformedInput
            } else {
                e == VaultError::CryptoFailure
            },
        },
        key@.len() != KEY_LEN || !within_cipher_limit(plaintext@.len()) ==> outcome is Err,
{
    if key.len() != KEY_LEN {
        return Err(VaultError::MalformedInput);
    }
    let nonce = generate_nonce()?;
    seal_with_nonce(key, nonce.as_slice(), plaintext)
}

/// Opens a record under a key. The payload comes back only where the tag
/// verifies under this key and the record's nonce.
pub fn open(key: &[u8], record: &SealedRecord) -> (outcome: Result<Vec<u8>, VaultError>)
    ensures
        bytes_view(outcome) == opened(key@, record@),
        outcome matches Ok(payload) ==> payload@.len() + TAG_LEN == record@.ciphertext.len(),
        key@.len() == KEY_LEN && record@.nonce.len() == NONCE_LEN && record@.ciphertext.len()
            < TAG_LEN ==> outcome == Err::<Vec<u8>, VaultError>(VaultError::AuthenticationFailure),
{
    if key.len() != KEY_LEN || record.nonce.len() != NONCE_LEN {
        return Err(VaultError::MalformedInput);
    }
    if !fits_record(record.ciphertext.len()) {
        return Err(VaultError::AuthenticationFailure);
    }
    let decrypted = chacha20poly1305_decrypt(
        key,
        record.nonce.as_slice(),
        record.ciphertext.as_slice(),
    );
    payload_from(decrypted)
}

} // verus!
