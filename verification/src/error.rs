//! The ways in which a session fails.

use vstd::prelude::*;

verus! {

/// Why a session was aborted. Every one of these is final: nothing is retried.
#[derive(Debug, Clone, Copy, PartialEq, Eq, Structural)]
pub enum TransferError {
    /// The operating system could not supply random bytes.
    RandomSource,
    /// The transport failed, or the stream ended inside a field.
    Io,
    /// The stream does not begin with the protocol's magic.
    ProtocolMismatch,
    /// The handshake names a version other than the one in use.
    UnsupportedVersion,
    /// The handshake declares a payload length other than 28.
    MalformedHandshake,
    /// A ciphertext did not authenticate under the session's key and nonce.
    Authentication,
    /// The key handed to the cipher was not 16 bytes long.
    KeyLength,
    /// The cipher refused a plaintext as too long to seal.
    Encryption,
}

impl TransferError {
    /// A short description for diagnostics.
    pub fn message(&self) -> (text: &'static str)
        ensures
            text@ == match *self {
                TransferError::RandomSource => "rng error"@,
                TransferError::Io => "stream ended or transport failed"@,
                TransferError::ProtocolMismatch => "bad MAGIC (not an AES1 stream)"@,
                TransferError::UnsupportedVersion => "unsupported VERSION"@,
                TransferError::MalformedHandshake => "unexpected key material length"@,
                TransferError::Authentication => "decrypt failed"@,
                TransferError::KeyLength => "bad key length"@,
                TransferError::Encryption => "encrypt failed"@,
            },
    {
        match self {
            TransferError::RandomSource => "rng error",
            TransferError::Io => "stream ended or transport failed",
            TransferError::ProtocolMismatch => "bad MAGIC (not an AES1 stream)",
            TransferError::UnsupportedVersion => "unsupported VERSION",
            TransferError::MalformedHandshake => "unexpected key material length",
            TransferError::Authentication => "decrypt failed",
            TransferError::KeyLength => "bad key length",
            TransferError::Encryption => "encrypt failed",
        }
    }
}

} // verus!
