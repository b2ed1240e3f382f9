//! Fresh random bytes from the operating system.

use vstd::prelude::*;
use crate::error::VaultError;

verus! {

/// `rand::rngs::OsRng`, asked through `RngCore::try_fill_bytes` to fill a
/// zeroed buffer of `len` bytes. The buffer keeps its length; which bytes
/// come back, and whether the system can serve the request at all, is not
/// determined by `len`, so nothing more is claimed.
#[verifier::external_body]
fn os_random(len: usize) -> (bytes: Option<Vec<u8>>)
    ensures
        bytes matches Some(b) ==> b@.len() == len,
{
    let mut buffer = vec![0u8; len];
    match rand::RngCore::try_fill_bytes(&mut rand::rngs::OsRng, &mut buffer) {
        Ok(()) => Some(buffer),
        Err(_) => None,
    }
}

/// Draws `len` bytes from the system's cryptographically secure source.
/// The only failure is a source that cannot be read.
pub fn random_bytes(len: usize) -> (drawn: Result<Vec<u8>, VaultError>)
    ensures
        match drawn {
            Ok(bytes) => bytes@.len() == len,
            Err(e) => e == VaultError::CryptoFailure,
        },
{
    match os_random(len) {
        Some(bytes) => Ok(bytes),
        None => Err(VaultError::CryptoFailure),
    }
}

} // verus!
