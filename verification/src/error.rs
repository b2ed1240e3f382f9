//! The ways in which a vault operation can fail.

use vstd::prelude::*;

verus! {

/// Why an operation on the vault failed. Every error ends the operation that
/// raised it: nothing is retried and nothing is left half done.
#[derive(Clone, Copy, Debug, PartialEq, Eq, Structural)]
pub enum VaultError {
    /// The token does not have the shape of a token.
    MalformedToken,
    /// No record is stored under the token's identifier.
    NotFound,
    /// The record does not open under the token's key.
    AuthenticationFailure,
    /// The record store could not be reached.
    StorageFailure,
    /// The opened bytes are not text.
    EncodingFailure,
    /// The random source or the cipher itself failed.
    CryptoFailure,
    /// A key or a nonce does not have the width of the cipher.
    MalformedInput,
}

impl VaultError {
    /// The text shown to the holder of a token. A record that is missing and
    /// a record that does not open read alike, so that the message does not
    /// tell whether an identifier exists.
    pub open spec fn message_text(self) -> Seq<char> {
        match self {
            VaultError::MalformedToken => "invalid or corrupted link"@,
            VaultError::NotFound => "secret not found"@,
            VaultError::AuthenticationFailure => "secret not found"@,
            VaultError::StorageFailure => "service temporarily unavailable"@,
            VaultError::EncodingFailure => "secret is not text"@,
            VaultError::CryptoFailure => "internal error"@,
            VaultError::MalformedInput => "invalid key or nonce"@,
        }
    }

    /// Whether the caller may try the same operation again.
    pub open spec fn transient(self) -> bool {
        self == VaultError::StorageFailure
    }

    pub fn user_message(&self) -> (text: &'static str)
        ensures
            text@ == self.message_text(),
    {
        match self {
            VaultError::MalformedToken => "invalid or corrupted link",
            VaultError::NotFound => "secret not found",
            VaultError::AuthenticationFailure => "secret not found",
            VaultError::StorageFailure => "service temporarily unavailable",
            VaultError::EncodingFailure => "secret is not text",
            VaultError::CryptoFailure => "internal error",
            VaultError::MalformedInput => "invalid key or nonce",
        }
    }

    pub fn is_transient(&self) -> (yes: bool)
        ensures
            yes == self.transient(),
    {
        match self {
            VaultError::StorageFailure => true,
            _ => false,
        }
    }
}

} // verus!
