//! The vault service: creating a secret and revealing it again.
//!
//! The record store is not part of this crate. Each operation is cut where
//! it meets the store: one function says what to ask of the store, and one
//! takes the store's reply and finishes the operation. The store is asked
//! once; nothing is retried.
//!
//! Revealing does not consume a record: a secret can be revealed until the
//! store drops its record. Whether a record is dropped after the first
//! reveal, or after some time, is the store's policy. A record that was
//! dropped and a record that never was are the same `Missing` to the vault.

use vstd::prelude::*;
use vstd::utf8::*;
use crate::codec::{decode, encode, parse_token, token_text, TOKEN_LEN};
use crate::envelope::{
    aead_plaintext, generate_key, generate_nonce, open, opened, seal_with_nonce, sealed,
    within_cipher_limit, SealedBytes, SealedRecord, KEY_LEN, NONCE_LEN,
};
use crate::error::VaultError;
use crate::ident::{hex_text, is_secret_id, render_id, ID_BYTES};
use crate::entropy::random_bytes;
use crate::text::{lemma_text_of_encoded, read_from, read_payload, text_view};

verus! {

/// A secret that is sealed and not yet stored: the record to store, the
/// identifier to store it under, and the key, which is never stored.
#[derive(Clone, Debug, PartialEq, Eq)]
pub struct SecretDraft {
    /// The identifier: the key of the record in the store.
    pub id: String,
    /// The key of the secret. It goes into the token and nowhere else.
    pub key: Vec<u8>,
    /// What the store is to keep.
    pub record: SealedRecord,
}

/// A draft as characters and bytes.
pub ghost struct DraftView {
    pub id: Seq<char>,
    pub key: Seq<u8>,
    pub record: SealedBytes,
}

impl View for SecretDraft {
    type V = DraftView;

    open spec fn view(&self) -> DraftView {
        DraftView { id: self.id@, key: self.key@, record: self.record@ }
    }
}

/// How the store answered a request to keep a record.
#[derive(Clone, Copy, Debug, PartialEq, Eq, Structural)]
pub enum PutReply {
    /// The record is stored.
    Stored,
    /// The store could not be reached, or refused.
    Unavailable,
}

/// How the store answered a request for the record of an identifier.
#[derive(Clone, Debug, PartialEq, Eq)]
pub enum GetReply {
    /// The record stored under the identifier.
    Found(SealedRecord),
    /// Nothing is stored under the identifier.
    Missing,
    /// The store could not be reached.
    Unavailable,
}

/// The store's answer to a lookup, with the record as bytes.
pub ghost enum Fetched {
    Found(SealedBytes),
    Missing,
    Unavailable,
}

impl View for GetReply {
    type V = Fetched;

    open spec fn view(&self) -> Fetched {
        match self {
            GetReply::Found(record) => Fetched::Found(record@),
            GetReply::Missing => Fetched::Missing,
            GetReply::Unavailable => Fetched::Unavailable,
        }
    }
}

/// Whether a draft is complete and its record opens, under its key, to the
/// bytes of a text.
pub open spec fn seals(draft: DraftView, plaintext: Seq<char>) -> bool {
    &&& is_secret_id(draft.id)
    &&& draft.key.len() == KEY_LEN
    &&& opened(draft.key, draft.record) == Ok::<Seq<u8>, VaultError>(encode_utf8(plaintext))
}

/// The draft that given random material makes of a text.
pub open spec fn drafted(
    id_entropy: Seq<u8>,
    key: Seq<u8>,
    nonce: Seq<u8>,
    plaintext: Seq<char>,
) -> Result<DraftView, VaultError> {
    if id_entropy.len() != ID_BYTES {
        Err(VaultError::MalformedInput)
    } else {
        match sealed(key, nonce, encode_utf8(plaintext)) {
            Ok(record) => Ok(DraftView { id: hex_text(id_entropy), key, record }),
            Err(e) => Err(e),
        }
    }
}

/// The token that is handed out for a draft once the store has answered. No
/// token leaves the vault unless the record is stored.
pub open spec fn issued(draft: DraftView, reply: PutReply) -> Result<Seq<char>, VaultError> {
    match reply {
        PutReply::Unavailable => Err(VaultError::StorageFailure),
        PutReply::Stored => if is_secret_id(draft.id) && draft.key.len() == KEY_LEN {
            Ok(token_text(draft.id, draft.key))
        } else {
            Err(VaultError::MalformedInput)
        },
    }
}

/// The identifier under which the record of a token is looked up.
pub open spec fn located(token: Seq<char>) -> Result<Seq<char>, VaultError> {
    match parse_token(token) {
        Some((id, key)) => Ok(id),
        None => Err(VaultError::MalformedToken),
    }
}

/// What revealing a token gives, once the store has answered the lookup of
/// its identifier. The token is judged first; then the store's answer; then
/// the record is opened under the token's key; then the payload is read as
/// text.
pub open spec fn revealed(token: Seq<char>, reply: Fetched) -> Result<Seq<char>, VaultError> {
    match parse_token(token) {
        None => Err(VaultError::MalformedToken),
        Some((id, key)) => match reply {
            Fetched::Unavailable => Err(VaultError::StorageFailure),
            Fetched::Missing => Err(VaultError::NotFound),
            Fetched::Found(record) => read_from(opened(key, record)),
        },
    }
}

/// The draft of a result, as characters and bytes.
pub open spec fn draft_view(outcome: Result<SecretDraft, VaultError>) -> Result<
    DraftView,
    VaultError,
> {
    match outcome {
        Ok(draft) => Ok(draft@),
        Err(e) => Err(e),
    }
}

/// Seals a text with random material that the caller has drawn for this one
/// secret: sixteen bytes for the identifier, a key and a nonce.
pub fn draft_secret(id_entropy: &[u8], key: &[u8], nonce: &[u8], plaintext: &str) -> (outcome:
    Result<SecretDraft, VaultError>)
    ensures
        draft_view(outcome) == drafted(id_entropy@, key@, nonce@, plaintext@),
        outcome matches Ok(draft) ==> seals(draft@, plaintext@),
        id_entropy@.len() == ID_BYTES && key@.len() == KEY_LEN && nonce@.len() == NONCE_LEN
            && within_cipher_limit(encode_utf8(plaintext@).len()) ==> outcome is Ok,
{
    let id = render_id(id_entropy)?;
    let record = seal_with_nonce(key, nonce, plaintext.as_bytes())?;
    Ok(SecretDraft { id, key: vstd::slice::slice_to_vec(key), record })
}

/// The first half of creating a secret: mints an identifier, draws a key and
/// a nonce, and seals the text. The caller stores the draft's record under
/// the draft's identifier and hands the store's answer to `create_secret`.
pub fn prepare_secret(plaintext: &str) -> (outcome: Result<SecretDraft, VaultError>)
    ensures
        match outcome {
            Ok(draft) => {
                &&& seals(draft@, plaintext@)
                &&& exists|id_entropy: Seq<u8>| #[trigger]
                    drafted(id_entropy, draft@.key, draft@.record.nonce, plaintext@) == Ok::<
                        DraftView,
                        VaultError,
                    >(draft@)
            },
            Err(e) => e == VaultError::CryptoFailure,
        },
{
    let id_entropy = random_bytes(ID_BYTES)?;
    let key = generate_key()?;
    let nonce = generate_nonce()?;
    match draft_secret(id_entropy.as_slice(), key.as_slice(), nonce.as_slice(), plaintext) {
        Ok(draft) => Ok(draft),
        Err(_) => Err(VaultError::CryptoFailure),
    }
}

/// The second half of creating a secret: given the store's answer, hands out
/// the token, or reports that nothing was stored. The token decodes to the
/// draft's identifier and key.
pub fn create_secret(draft: &SecretDraft, reply: PutReply) -> (outcome: Result<String, VaultError>)
    ensures
        text_view(outcome) == issued(draft@, reply),
        outcome matches Ok(token) ==> parse_token(token@) == Some((draft@.id, draft@.key)),
{
    match reply {
        PutReply::Unavailable => Err(VaultError::StorageFailure),
        PutReply::Stored => encode(draft.id.as_str(), draft.key.as_slice()),
    }
}

/// The first half of revealing a secret: the identifier to look up in the
/// store.
pub fn secret_id(token: &str) -> (outcome: Result<String, VaultError>)
    ensures
        text_view(outcome) == located(token@),
        token@.len() != TOKEN_LEN ==> outcome == Err::<String, VaultError>(
            VaultError::MalformedToken,
        ),
{
    match decode(token) {
        Ok((id, _)) => Ok(id),
        Err(e) => Err(e),
    }
}

/// The second half of revealing a secret: given the store's answer to the
/// lookup of the token's identifier, opens the record under the token's key
/// and reads it as text.
pub fn reveal_secret(token: &str, reply: GetReply) -> (outcome: Result<String, VaultError>)
    ensures
        text_view(outcome) == revealed(token@, reply@),
        token@.len() != TOKEN_LEN ==> outcome == Err::<String, VaultError>(
            VaultError::MalformedToken,
        ),
{
    let (_, key) = decode(token)?;
    match reply {
        GetReply::Unavailable => Err(VaultError::StorageFailure),
        GetReply::Missing => Err(VaultError::NotFound),
        GetReply::Found(record) => read_payload(open(key.as_slice(), &record)),
    }
}

/// A secret comes back: revealing the token of a draft, with the draft's own
/// record as the store's answer, gives the text that the draft seals.
pub proof fn lemma_round_trip(draft: DraftView, token: Seq<char>, plaintext: Seq<char>)
    requires
        seals(draft, plaintext),
        parse_token(token) == Some((draft.id, draft.key)),
    ensures
        revealed(token, Fetched::Found(draft.record)) == Ok::<Seq<char>, VaultError>(plaintext),
{
    lemma_text_of_encoded(plaintext);
}

/// A draft keeps the key and the nonce it was made with, so drafts made
/// with different keys hold different keys, and drafts made with different
/// nonces hold records with different nonces.
pub proof fn lemma_draft_keeps_draws(
    id_entropy: Seq<u8>,
    key: Seq<u8>,
    nonce: Seq<u8>,
    plaintext: Seq<char>,
)
    requires
        drafted(id_entropy, key, nonce, plaintext) is Ok,
    ensures
        drafted(id_entropy, key, nonce, plaintext)->Ok_0.key == key,
        drafted(id_entropy, key, nonce, plaintext)->Ok_0.record.nonce == nonce,
{
}

/// Where the cipher gives nothing for a record under the key of a token,
/// revealing the token gives an authentication failure, and no text.
pub proof fn lemma_refused_record(token: Seq<char>, record: SealedBytes)
    requires
        parse_token(token) is Some,
        record.nonce.len() == NONCE_LEN,
        aead_plaintext(parse_token(token)->Some_0.1, record.nonce, record.ciphertext) is None,
    ensures
        revealed(token, Fetched::Found(record)) == Err::<Seq<char>, VaultError>(
            VaultError::AuthenticationFailure,
        ),
{
}

/// A well-formed token whose identifier the store does not know reveals
/// nothing but that.
pub proof fn lemma_unknown_id(token: Seq<char>)
    requires
        parse_token(token) is Some,
    ensures
        revealed(token, Fetched::Missing) == Err::<Seq<char>, VaultError>(VaultError::NotFound),
{
}

} // verus!
