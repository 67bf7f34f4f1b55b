//! Domain errors surfaced by the gateway client core.

use vstd::prelude::*;

verus! {

/// Everything that can go wrong when talking to the gateway, classified.
/// The `Other` variant carries the status text of an unclassified response.
#[derive(Debug, Clone)]
pub enum ApiError {
    /// Authentication failed (wrong gateway identity or API secret).
    BadCredentials,
    /// The account has no remaining message credits.
    NoCredits,
    /// The addressed identity does not exist.
    IdNotFound,
    /// The message payload exceeds the permitted byte length.
    MessageTooLong,
    /// A blob identifier is not 32 hexadecimal characters.
    BadBlobId,
    /// Sender or recipient identity was rejected by the service.
    BadSenderOrRecipient,
    /// The uploaded or referenced blob was rejected.
    BadBlob,
    /// The service reported an internal error.
    ServerError,
    /// Authenticated decryption failed: wrong keys or tampered ciphertext.
    DecryptionFailed,
    /// Any other outcome, described by its status text.
    Other(String),
}

impl ApiError {
    /// Two errors mean the same thing: same variant, and for `Other`
    /// the same status text.
    pub open spec fn same_error(&self, other: &ApiError) -> bool {
        match (self, other) {
            (ApiError::BadCredentials, ApiError::BadCredentials) => true,
            (ApiError::NoCredits, ApiError::NoCredits) => true,
            (ApiError::IdNotFound, ApiError::IdNotFound) => true,
            (ApiError::MessageTooLong, ApiError::MessageTooLong) => true,
            (ApiError::BadBlobId, ApiError::BadBlobId) => true,
            (ApiError::BadSenderOrRecipient, ApiError::BadSenderOrRecipient) => true,
            (ApiError::BadBlob, ApiError::BadBlob) => true,
            (ApiError::ServerError, ApiError::ServerError) => true,
            (ApiError::DecryptionFailed, ApiError::DecryptionFailed) => true,
            (ApiError::Other(s), ApiError::Other(t)) => s@ == t@,
            _ => false,
        }
    }
}

impl PartialEq for ApiError {
    fn eq(&self, other: &ApiError) -> (r: bool) {
        match (self, other) {
            (ApiError::BadCredentials, ApiError::BadCredentials) => true,
            (ApiError::NoCredits, ApiError::NoCredits) => true,
            (ApiError::IdNotFound, ApiError::IdNotFound) => true,
            (ApiError::MessageTooLong, ApiError::MessageTooLong) => true,
            (ApiError::BadBlobId, ApiError::BadBlobId) => true,
            (ApiError::BadSenderOrRecipient, ApiError::BadSenderOrRecipient) => true,
            (ApiError::BadBlob, ApiError::BadBlob) => true,
            (ApiError::ServerError, ApiError::ServerError) => true,
            (ApiError::Other(s), ApiError::Other(t)) => *s == *t,
            (ApiError::DecryptionFailed, ApiError::DecryptionFailed) => true,
            _ => false,
        }
    }
}

impl Eq for ApiError {}

impl vstd::std_specs::cmp::PartialEqSpecImpl for ApiError {
    open spec fn obeys_eq_spec() -> bool {
        true
    }

    open spec fn eq_spec(&self, other: &ApiError) -> bool {
        self.same_error(other)
    }
}

} // verus!
