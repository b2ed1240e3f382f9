use std::collections::{HashMap, HashSet};

use tokenshare::codec::{decode, encode};
use tokenshare::envelope::{seal_with_nonce, SealedRecord, KEY_LEN, NONCE_LEN};
use tokenshare::error::VaultError;
use tokenshare::ident::check_secret_id;
use tokenshare::vault::{
    create_secret, draft_secret, prepare_secret, reveal_secret, secret_id, GetReply, PutReply,
    SecretDraft,
};

/// A record store in memory, which can be switched off.
struct MemoryStore {
    records: HashMap<String, SealedRecord>,
    reachable: bool,
}

impl MemoryStore {
    fn new() -> MemoryStore {
        MemoryStore { records: HashMap::new(), reachable: true }
    }

    fn put(&mut self, id: &str, record: &SealedRecord) -> PutReply {
        if self.reachable {
            self.records.insert(id.to_string(), record.clone());
            PutReply::Stored
        } else {
            PutReply::Unavailable
        }
    }

    fn get(&self, id: &str) -> GetReply {
        if !self.reachable {
            GetReply::Unavailable
        } else {
            match self.records.get(id) {
                Some(record) => GetReply::Found(record.clone()),
                None => GetReply::Missing,
            }
        }
    }
}

fn create_through(store: &mut MemoryStore, plaintext: &str) -> Result<String, VaultError> {
    let draft = prepare_secret(plaintext)?;
    let reply = store.put(&draft.id, &draft.record);
    create_secret(&draft, reply)
}

fn reveal_through(store: &MemoryStore, token: &str) -> Result<String, VaultError> {
    let id = secret_id(token)?;
    reveal_secret(token, store.get(&id))
}

fn sample_key() -> Vec<u8> {
    (0x80u8..0xa0).collect()
}

fn sample_nonce() -> Vec<u8> {
    vec![0x07, 0x00, 0x00, 0x00, 0x40, 0x41, 0x42, 0x43, 0x44, 0x45, 0x46, 0x47]
}

fn sample_draft() -> SecretDraft {
    let entropy: Vec<u8> = (0u8..16).collect();
    draft_secret(&entropy, &sample_key(), &sample_nonce(), "hunter2").unwrap()
}

const SAMPLE_TOKEN: &str =
    "000102030405060708090a0b0c0d0e0f::gIGCg4SFhoeIiYqLjI2Oj5CRkpOUlZaXmJmam5ydnp8";

#[test]
fn hunter2_comes_back_and_a_corrupted_token_does_not() {
    let mut store = MemoryStore::new();
    let token = create_through(&mut store, "hunter2").unwrap();
    assert_eq!(reveal_through(&store, &token), Ok("hunter2".to_string()));
    let corrupted = format!("{}x", token);
    let outcome = reveal_through(&store, &corrupted);
    assert!(outcome.is_err());
    assert_eq!(outcome, Err(VaultError::MalformedToken));
}

#[test]
fn every_text_comes_back() {
    let mut store = MemoryStore::new();
    let long = "x".repeat(100_000);
    let texts = [
        "",
        " ",
        "hunter2",
        "two\nlines",
        "a::b",
        "\u{20ac}uro \u{2713} l\u{e4}uft",
        "\u{1f512}\u{1f511}",
        "\0",
        long.as_str(),
    ];
    for text in texts {
        let token = create_through(&mut store, text).unwrap();
        assert_eq!(reveal_through(&store, &token), Ok(text.to_string()));
    }
    assert_eq!(store.records.len(), texts.len());
}

#[test]
fn a_secret_can_be_revealed_more_than_once() {
    let mut store = MemoryStore::new();
    let token = create_through(&mut store, "hunter2").unwrap();
    assert_eq!(reveal_through(&store, &token), Ok("hunter2".to_string()));
    assert_eq!(reveal_through(&store, &token), Ok("hunter2".to_string()));
    assert_eq!(store.records.len(), 1);
}

#[test]
fn an_unknown_identifier_is_not_found() {
    let mut store = MemoryStore::new();
    assert_eq!(reveal_through(&store, SAMPLE_TOKEN), Err(VaultError::NotFound));
    create_through(&mut store, "hunter2").unwrap();
    assert_eq!(reveal_through(&store, SAMPLE_TOKEN), Err(VaultError::NotFound));
    assert_eq!(reveal_secret(SAMPLE_TOKEN, GetReply::Missing), Err(VaultError::NotFound));
}

#[test]
fn a_deleted_record_is_not_found() {
    let mut store = MemoryStore::new();
    let token = create_through(&mut store, "hunter2").unwrap();
    store.records.clear();
    assert_eq!(reveal_through(&store, &token), Err(VaultError::NotFound));
}

#[test]
fn draft_secret_gives_the_known_draft() {
    let draft = sample_draft();
    assert_eq!(draft.id, "000102030405060708090a0b0c0d0e0f");
    assert_eq!(draft.key, sample_key());
    assert_eq!(draft.record.nonce, sample_nonce());
    assert_eq!(
        draft.record.ciphertext,
        vec![
            0xf7, 0x0e, 0x87, 0x29, 0x64, 0x8f, 0x72, 0x22, 0x2c, 0x03, 0x3a, 0xcd, 0x36, 0xc5,
            0xf4, 0x40, 0x01, 0x3d, 0x8a, 0xfb, 0xf1, 0xe7, 0xb4
        ]
    );
}

#[test]
fn draft_secret_seals_the_bytes_of_the_text() {
    let entropy: Vec<u8> = (0u8..16).collect();
    let draft =
        draft_secret(&entropy, &sample_key(), &sample_nonce(), "\u{20ac}uro \u{2713} l\u{e4}uft")
            .unwrap();
    assert_eq!(
        draft.record.ciphertext,
        vec![
            0x7d, 0xf9, 0x45, 0x28, 0x73, 0x92, 0x60, 0x58, 0x89, 0x71, 0xaf, 0x97, 0xf5, 0x25,
            0x7f, 0xc8, 0xb5, 0xf1, 0x84, 0x5e, 0x5f, 0xbf, 0xeb, 0x75, 0xca, 0x9a, 0x50, 0x6d,
            0x90, 0xef, 0xe2, 0x17, 0xc3
        ]
    );
}

#[test]
fn draft_secret_refuses_material_of_the_wrong_width() {
    let entropy: Vec<u8> = (0u8..16).collect();
    assert_eq!(
        draft_secret(&entropy[..15], &sample_key(), &sample_nonce(), "x"),
        Err(VaultError::MalformedInput)
    );
    assert_eq!(
        draft_secret(&entropy, &sample_key()[..31], &sample_nonce(), "x"),
        Err(VaultError::MalformedInput)
    );
    assert_eq!(
        draft_secret(&entropy, &sample_key(), &sample_nonce()[..11], "x"),
        Err(VaultError::MalformedInput)
    );
}

#[test]
fn create_secret_hands_out_the_known_token() {
    assert_eq!(create_secret(&sample_draft(), PutReply::Stored), Ok(SAMPLE_TOKEN.to_string()));
}

#[test]
fn no_token_leaves_when_the_store_fails() {
    assert_eq!(
        create_secret(&sample_draft(), PutReply::Unavailable),
        Err(VaultError::StorageFailure)
    );
    let mut store = MemoryStore::new();
    store.reachable = false;
    assert_eq!(create_through(&mut store, "hunter2"), Err(VaultError::StorageFailure));
    assert!(store.records.is_empty());
}

#[test]
fn create_secret_refuses_a_draft_that_is_none() {
    let mut draft = sample_draft();
    draft.id = "not an identifier".to_string();
    assert_eq!(create_secret(&draft, PutReply::Stored), Err(VaultError::MalformedInput));
    let mut draft = sample_draft();
    draft.key.pop();
    assert_eq!(create_secret(&draft, PutReply::Stored), Err(VaultError::MalformedInput));
    assert_eq!(create_secret(&draft, PutReply::Unavailable), Err(VaultError::StorageFailure));
}

#[test]
fn exactly_one_record_is_written_and_it_holds_no_key() {
    let mut store = MemoryStore::new();
    let draft = prepare_secret("hunter2").unwrap();
    assert!(check_secret_id(&draft.id));
    assert_eq!(draft.key.len(), KEY_LEN);
    assert_eq!(draft.record.nonce.len(), NONCE_LEN);
    let reply = store.put(&draft.id, &draft.record);
    let token = create_secret(&draft, reply).unwrap();
    assert_eq!(store.records.len(), 1);
    let stored = store.records.get(&draft.id).unwrap();
    assert_eq!(stored, &draft.record);
    let mut kept = stored.nonce.clone();
    kept.extend_from_slice(&stored.ciphertext);
    assert!(!kept.windows(KEY_LEN).any(|window| window == &draft.key[..]));
    assert_eq!(decode(&token), Ok((draft.id.clone(), draft.key.clone())));
}

#[test]
fn secret_id_is_the_identifier_of_the_token() {
    assert_eq!(secret_id(SAMPLE_TOKEN), Ok("000102030405060708090a0b0c0d0e0f".to_string()));
    assert_eq!(secret_id("hunter2"), Err(VaultError::MalformedToken));
    assert_eq!(secret_id(""), Err(VaultError::MalformedToken));
}

#[test]
fn reveal_secret_opens_the_known_record() {
    let record = sample_draft().record;
    assert_eq!(reveal_secret(SAMPLE_TOKEN, GetReply::Found(record)), Ok("hunter2".to_string()));
}

#[test]
fn a_malformed_token_is_judged_before_the_store_is_heard() {
    let record = sample_draft().record;
    assert_eq!(reveal_secret("hunter2", GetReply::Found(record)), Err(VaultError::MalformedToken));
    assert_eq!(reveal_secret("hunter2", GetReply::Missing), Err(VaultError::MalformedToken));
    assert_eq!(reveal_secret("hunter2", GetReply::Unavailable), Err(VaultError::MalformedToken));
}

#[test]
fn an_unreachable_store_is_a_storage_failure() {
    assert_eq!(
        reveal_secret(SAMPLE_TOKEN, GetReply::Unavailable),
        Err(VaultError::StorageFailure)
    );
    let mut store = MemoryStore::new();
    let token = create_through(&mut store, "hunter2").unwrap();
    store.reachable = false;
    assert_eq!(reveal_through(&store, &token), Err(VaultError::StorageFailure));
}

#[test]
fn a_token_with_another_key_does_not_open_the_record() {
    let mut store = MemoryStore::new();
    let token = create_through(&mut store, "hunter2").unwrap();
    let (id, key) = decode(&token).unwrap();
    for at in 0..KEY_LEN {
        let mut other = key.clone();
        other[at] ^= 0x80;
        let forged = encode(&id, &other).unwrap();
        assert_eq!(reveal_through(&store, &forged), Err(VaultError::AuthenticationFailure));
    }
}

#[test]
fn a_tampered_record_does_not_open() {
    let draft = sample_draft();
    for at in 0..draft.record.ciphertext.len() {
        let mut record = draft.record.clone();
        record.ciphertext[at] ^= 0x01;
        assert_eq!(
            reveal_secret(SAMPLE_TOKEN, GetReply::Found(record)),
            Err(VaultError::AuthenticationFailure)
        );
    }
    for at in 0..draft.record.nonce.len() {
        let mut record = draft.record.clone();
        record.nonce[at] ^= 0x01;
        assert_eq!(
            reveal_secret(SAMPLE_TOKEN, GetReply::Found(record)),
            Err(VaultError::AuthenticationFailure)
        );
    }
}

#[test]
fn a_record_with_a_nonce_of_the_wrong_width_is_malformed_input() {
    let mut record = sample_draft().record;
    record.nonce.push(0);
    assert_eq!(
        reveal_secret(SAMPLE_TOKEN, GetReply::Found(record)),
        Err(VaultError::MalformedInput)
    );
}

#[test]
fn a_payload_that_is_not_text_is_an_encoding_failure() {
    let record = seal_with_nonce(&sample_key(), &sample_nonce(), &[0xff, 0xfe]).unwrap();
    assert_eq!(
        record.ciphertext,
        vec![
            0x60, 0x85, 0x9b, 0x29, 0xc4, 0x40, 0x06, 0xaa, 0xe5, 0xfb, 0x88, 0x38, 0x17, 0xb3,
            0xfa, 0x08, 0x75, 0x96
        ]
    );
    assert_eq!(
        reveal_secret(SAMPLE_TOKEN, GetReply::Found(record)),
        Err(VaultError::EncodingFailure)
    );
}

#[test]
fn ten_thousand_secrets_share_no_nonce_key_or_identifier() {
    let mut nonces = HashSet::new();
    let mut keys = HashSet::new();
    let mut ids = HashSet::new();
    for _ in 0..10_000 {
        let draft = prepare_secret("hunter2").unwrap();
        assert!(nonces.insert(draft.record.nonce));
        assert!(keys.insert(draft.key));
        assert!(ids.insert(draft.id));
    }
    assert_eq!(nonces.len(), 10_000);
    assert_eq!(keys.len(), 10_000);
    assert_eq!(ids.len(), 10_000);
}

#[test]
fn a_token_with_its_key_cut_short_is_malformed_whatever_the_store_holds() {
    let record = sample_draft().record;
    for keep in 0..SAMPLE_TOKEN.len() {
        let cut = &SAMPLE_TOKEN[..keep];
        assert_eq!(secret_id(cut), Err(VaultError::MalformedToken));
        assert_eq!(
            reveal_secret(cut, GetReply::Found(record.clone())),
            Err(VaultError::MalformedToken)
        );
        assert_eq!(reveal_secret(cut, GetReply::Missing), Err(VaultError::MalformedToken));
    }
}

#[test]
fn drafts_keep_the_key_and_the_nonce_they_were_made_with() {
    let entropy: Vec<u8> = (0u8..16).collect();
    let mut other_key = sample_key();
    other_key[31] ^= 1;
    let mut other_nonce = sample_nonce();
    other_nonce[0] ^= 1;
    let first = draft_secret(&entropy, &sample_key(), &sample_nonce(), "hunter2").unwrap();
    let second = draft_secret(&entropy, &other_key, &other_nonce, "hunter2").unwrap();
    assert_eq!(first.key, sample_key());
    assert_eq!(first.record.nonce, sample_nonce());
    assert_eq!(second.key, other_key);
    assert_eq!(second.record.nonce, other_nonce);
    assert_ne!(first.record.nonce, second.record.nonce);
    assert_ne!(first.key, second.key);
}
