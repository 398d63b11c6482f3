//! Key material of a session, and the cipher that seals and opens one chunk.
//!
//! AES-128-GCM itself comes from the `aes-gcm` crate and random bytes from
//! `rand`. What those crates compute is not proved here: it is named, and the
//! few facts that the rest of the library builds on are stated where the calls
//! are made.

use vstd::prelude::*;
use aes_gcm::aead::{Aead, Payload};
use aes_gcm::{Aes128Gcm, KeyInit, Nonce};
use rand::rand_core::{OsError, OsRng};
use rand::TryRngCore;
use crate::error::TransferError;
use crate::framing::{chunk_nonce, nonce_for_chunk};

verus! {

/// Longest plaintext, in bytes, that AES-GCM seals under one nonce.
pub const MAX_PLAINTEXT_LEN: u64 = 0x10_0000_0000;

/// The symmetric secrets of one session.
#[derive(Debug, Clone, Copy, PartialEq, Eq)]
pub struct AesKeyMaterial {
    /// AES-128 key.
    pub key: [u8; 16],
    /// Base nonce. Its last four bytes are replaced per chunk; it is never
    /// used as a nonce as it stands.
    pub nonce: [u8; 12],
}

/// The error that the operating system's random source reports.
#[verifier::external_type_specification]
#[verifier::external_body]
pub struct ExOsError(OsError);

/// How the cipher turned a request down.
#[derive(Debug, Clone, Copy, PartialEq, Eq, Structural)]
pub enum CipherFault {
    /// The key has a length that AES-128 does not take.
    KeyLength,
    /// The cipher returned its error: on sealing, the plaintext is too long;
    /// on opening, the ciphertext is too short, too long, or its tag does not
    /// match.
    Rejected,
}

/// What AES-128-GCM sealing returns for a 16-byte key, a 12-byte nonce, empty
/// associated data and a plaintext of at most `MAX_PLAINTEXT_LEN` bytes: the
/// ciphertext followed by the 16-byte tag.
pub uninterp spec fn gcm_seal(key: Seq<u8>, nonce: Seq<u8>, plaintext: Seq<u8>) -> Seq<u8>;

/// What AES-128-GCM opening returns for a 16-byte key, a 12-byte nonce, empty
/// associated data and a ciphertext with its tag: the plaintext, or `None`
/// where the cipher reports an error.
pub uninterp spec fn gcm_open(key: Seq<u8>, nonce: Seq<u8>, ciphertext: Seq<u8>) -> Option<
    Seq<u8>,
>;

/// `OsRng::try_fill_bytes` of `rand`, on a fresh array of `N` bytes. Nothing is
/// claimed of the bytes, nor that the call succeeds.
#[verifier::external_body]
fn os_random_bytes<const N: usize>() -> (res: Result<[u8; N], OsError>) {
    let mut bytes = [0u8; N];
    match OsRng.try_fill_bytes(&mut bytes) {
        Ok(()) => Ok(bytes),
        Err(e) => Err(e),
    }
}

/// `Aead::encrypt` of `aes-gcm`, on a cipher that `KeyInit::new_from_slice`
/// made from `key`, with empty associated data.
///
/// Claimed of the outside code: a key that is not 16 bytes long is refused; a
/// plaintext longer than `MAX_PLAINTEXT_LEN` is refused; every other call
/// succeeds, and its result depends on key, nonce and plaintext alone, is 16
/// bytes longer than the plaintext, and is opened again to that plaintext under
/// the same key and nonce.
#[verifier::external_body]
fn seal(key: &[u8], nonce: &[u8; 12], plaintext: &[u8]) -> (res: Result<Vec<u8>, CipherFault>)
    ensures
        match res {
            Ok(sealed) => {
                &&& key@.len() == 16
                &&& plaintext@.len() <= MAX_PLAINTEXT_LEN
                &&& sealed@ == gcm_seal(key@, nonce@, plaintext@)
                &&& sealed@.len() == plaintext@.len() + 16
                &&& gcm_open(key@, nonce@, sealed@) == Some(plaintext@)
            },
            Err(fault) => if key@.len() != 16 {
                fault == CipherFault::KeyLength
            } else {
                fault == CipherFault::Rejected && plaintext@.len() > MAX_PLAINTEXT_LEN
            },
        },
{
    match Aes128Gcm::new_from_slice(key) {
        Err(_) => Err(CipherFault::KeyLength),
        Ok(cipher) => match cipher.encrypt(
            Nonce::from_slice(nonce),
            Payload { msg: plaintext, aad: &[] },
        ) {
            Ok(sealed) => Ok(sealed),
            Err(_) => Err(CipherFault::Rejected),
        },
    }
}

/// `Aead::decrypt` of `aes-gcm`, on a cipher that `KeyInit::new_from_slice`
/// made from `key`, with empty associated data.
///
/// Claimed of the outside code: a key that is not 16 bytes long is refused;
/// otherwise the result depends on key, nonce and ciphertext alone, and a
/// plaintext that comes back is 16 bytes shorter than the ciphertext.
#[verifier::external_body]
fn open(key: &[u8], nonce: &[u8; 12], ciphertext: &[u8]) -> (res: Result<Vec<u8>, CipherFault>)
    ensures
        match res {
            Ok(opened) => {
                &&& key@.len() == 16
                &&& gcm_open(key@, nonce@, ciphertext@) == Some(opened@)
                &&& opened@.len() + 16 == ciphertext@.len()
            },
            Err(fault) => if key@.len() != 16 {
                fault == CipherFault::KeyLength
            } else {
                fault == CipherFault::Rejected && gcm_open(key@, nonce@, ciphertext@) is None
            },
        },
{
    match Aes128Gcm::new_from_slice(key) {
        Err(_) => Err(CipherFault::KeyLength),
        Ok(cipher) => match cipher.decrypt(
            Nonce::from_slice(nonce),
            Payload { msg: ciphertext, aad: &[] },
        ) {
            Ok(opened) => Ok(opened),
            Err(_) => Err(CipherFault::Rejected),
        },
    }
}

/// The sealed form of the chunk `plaintext` that has index `chunk_index`.
pub open spec fn sealed_chunk(mat: AesKeyMaterial, chunk_index: u32, plaintext: Seq<u8>) -> Seq<
    u8,
> {
    gcm_seal(mat.key@, chunk_nonce(mat.nonce@, chunk_index), plaintext)
}

/// The plaintext of the chunk with index `chunk_index`, where `ciphertext`
/// authenticates.
pub open spec fn opened_chunk(mat: AesKeyMaterial, chunk_index: u32, ciphertext: Seq<u8>) -> Option<
    Seq<u8>,
> {
    gcm_open(mat.key@, chunk_nonce(mat.nonce@, chunk_index), ciphertext)
}

/// Whether sealing a chunk adds the 16 bytes of the tag and is undone by
/// opening under the same index.
pub open spec fn seals_well(mat: AesKeyMaterial, chunk_index: u32, plaintext: Seq<u8>) -> bool {
    let sealed = sealed_chunk(mat, chunk_index, plaintext);
    &&& sealed.len() == plaintext.len() + 16
    &&& opened_chunk(mat, chunk_index, sealed) == Some(plaintext)
}

/// What a sealing request comes to, told from what the cipher answered.
pub fn sealing_outcome(answer: Result<Vec<u8>, CipherFault>) -> (res: Result<
    Vec<u8>,
    TransferError,
>)
    ensures
        match answer {
            Ok(sealed) => res matches Ok(bytes) && bytes == sealed,
            Err(CipherFault::KeyLength) => res matches Err(e) && e == TransferError::KeyLength,
            Err(CipherFault::Rejected) => res matches Err(e) && e == TransferError::Encryption,
        },
{
    match answer {
        Ok(sealed) => Ok(sealed),
        Err(CipherFault::KeyLength) => Err(TransferError::KeyLength),
        Err(CipherFault::Rejected) => Err(TransferError::Encryption),
    }
}

/// What an opening request comes to, told from what the cipher answered.
pub fn opening_outcome(answer: Result<Vec<u8>, CipherFault>) -> (res: Result<
    Vec<u8>,
    TransferError,
>)
    ensures
        match answer {
            Ok(opened) => res matches Ok(bytes) && bytes == opened,
            Err(CipherFault::KeyLength) => res matches Err(e) && e == TransferError::KeyLength,
            Err(CipherFault::Rejected) => res matches Err(e) && e == TransferError::Authentication,
        },
{
    match answer {
        Ok(opened) => Ok(opened),
        Err(CipherFault::KeyLength) => Err(TransferError::KeyLength),
        Err(CipherFault::Rejected) => Err(TransferError::Authentication),
    }
}

impl AesKeyMaterial {
    /// Draws a fresh key and a fresh base nonce from the operating system's
    /// random source. Fails only where that source does.
    pub fn generate() -> (res: Result<AesKeyMaterial, TransferError>)
        ensures
            res matches Err(e) ==> e == TransferError::RandomSource,
    {
        let key: [u8; 16] = drawing_outcome(os_random_bytes::<16>())?;
        let nonce: [u8; 12] = drawing_outcome(os_random_bytes::<12>())?;
        Ok(AesKeyMaterial { key, nonce })
    }
}

/// What a draw of `N` random bytes comes to, told from what the random source
/// answered: the bytes as they came, or a failure of the random source.
pub fn drawing_outcome<const N: usize>(answer: Result<[u8; N], OsError>) -> (res: Result<
    [u8; N],
    TransferError,
>)
    ensures
        match answer {
            Ok(drawn) => res matches Ok(bytes) && bytes == drawn,
            Err(_) => res matches Err(e) && e == TransferError::RandomSource,
        },
{
    match answer {
        Ok(drawn) => Ok(drawn),
        Err(_) => Err(TransferError::RandomSource),
    }
}

/// Seals (`encrypt`) or opens (otherwise) the chunk `text` that has index
/// `chunk_index`, under the nonce derived for that index and with empty
/// associated data.
///
/// Sealing succeeds on every plaintext of at most `MAX_PLAINTEXT_LEN` bytes.
/// Opening succeeds exactly where the ciphertext authenticates. The key of a
/// session is always 16 bytes long, so a key-length failure never comes out.
pub fn aes_chunk(text: &[u8], encrypt: bool, mat: &AesKeyMaterial, chunk_index: u32) -> (res:
    Result<Vec<u8>, TransferError>)
    ensures
        encrypt && text@.len() <= MAX_PLAINTEXT_LEN ==> {
            &&& res matches Ok(sealed)
            &&& sealed@ == sealed_chunk(*mat, chunk_index, text@)
            &&& seals_well(*mat, chunk_index, text@)
        },
        encrypt && text@.len() > MAX_PLAINTEXT_LEN ==> (res matches Err(e) && e
            == TransferError::Encryption),
        !encrypt ==> match opened_chunk(*mat, chunk_index, text@) {
            Some(plaintext) => {
                &&& res matches Ok(opened)
                &&& opened@ == plaintext
                &&& opened@.len() + 16 == text@.len()
            },
            None => res matches Err(e) && e == TransferError::Authentication,
        },
{
    let derived = nonce_for_chunk(mat.nonce, chunk_index);
    if encrypt {
        sealing_outcome(seal(mat.key.as_slice(), &derived, text))
    } else {
        opening_outcome(open(mat.key.as_slice(), &derived, text))
    }
}

} // verus!
