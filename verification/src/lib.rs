//! A capability-based secret vault.
//!
//! A secret is sealed under a key of its own and stored as nonce and
//! ciphertext only. The key leaves the vault inside a single token, which
//! is also the only way back to the plaintext.
//!
//! - [`envelope`] seals and opens payloads with ChaCha20-Poly1305.
//! - [`codec`] writes and reads tokens.
//! - [`vault`] creates and reveals secrets, around a record store that the
//!   caller brings.
//! - [`ident`], [`text`] and [`entropy`] hold identifiers, the reading of
//!   bytes as text, and the random source.
//! - [`cbc`] encrypts text with AES-256-CBC, for messages in that format.
//! - [`error`] names what can go wrong.
//!
//! The ciphers, the base64 engine, the system's random source and the
//! standard library's UTF-8 check are called through eight small functions
//! whose contracts are taken on trust. Each of them says above its header
//! what it calls and what it claims. Everything else is proved.

pub mod cbc;
pub mod codec;
pub mod entropy;
pub mod envelope;
pub mod error;
pub mod ident;
pub mod text;
pub mod vault;
