use tokenshare::error::VaultError;

fn every_error() -> Vec<VaultError> {
    vec![
        VaultError::MalformedToken,
        VaultError::NotFound,
        VaultError::AuthenticationFailure,
        VaultError::StorageFailure,
        VaultError::EncodingFailure,
        VaultError::CryptoFailure,
        VaultError::MalformedInput,
    ]
}

#[test]
fn user_messages_are_as_documented() {
    assert_eq!(VaultError::MalformedToken.user_message(), "invalid or corrupted link");
    assert_eq!(VaultError::NotFound.user_message(), "secret not found");
    assert_eq!(VaultError::AuthenticationFailure.user_message(), "secret not found");
    assert_eq!(VaultError::StorageFailure.user_message(), "service temporarily unavailable");
    assert_eq!(VaultError::EncodingFailure.user_message(), "secret is not text");
    assert_eq!(VaultError::CryptoFailure.user_message(), "internal error");
    assert_eq!(VaultError::MalformedInput.user_message(), "invalid key or nonce");
}

#[test]
fn a_record_that_does_not_open_reads_like_one_that_is_missing() {
    assert_eq!(
        VaultError::AuthenticationFailure.user_message(),
        VaultError::NotFound.user_message()
    );
    assert_ne!(VaultError::AuthenticationFailure, VaultError::NotFound);
}

#[test]
fn only_a_storage_failure_is_transient() {
    for error in every_error() {
        assert_eq!(error.is_transient(), error == VaultError::StorageFailure);
    }
}
