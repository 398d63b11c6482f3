//! The handshake: one message that hands the session's key material over.
//!
//! On the wire it is the magic, the version, the payload length and then the
//! payload itself: the key followed by the base nonce, with nothing between.

use vstd::prelude::*;
use crate::constants::{MAGIC, PAYLOAD_LEN, VERSION};
use crate::crypto::AesKeyMaterial;
use crate::error::TransferError;
use crate::framing::{be32, be32_value, read_array, read_u32_be, write_all, write_u32_be};

verus! {

/// The handshake message that carries `mat`.
pub open spec fn handshake_bytes(mat: AesKeyMaterial) -> Seq<u8> {
    MAGIC@ + seq![VERSION] + be32(PAYLOAD_LEN) + mat.key@ + mat.nonce@
}

/// Why a receiver turns `stream` down as a handshake, or `None` where it
/// accepts it. The fields are read in order and each is judged before the next
/// is read, so a stream that ends early is an I/O failure only if everything
/// before the end was in order.
pub open spec fn handshake_fault(stream: Seq<u8>) -> Option<TransferError> {
    if stream.len() < 4 {
        Some(TransferError::Io)
    } else if stream.subrange(0, 4) != MAGIC@ {
        Some(TransferError::ProtocolMismatch)
    } else if stream.len() < 5 {
        Some(TransferError::Io)
    } else if stream[4] != VERSION {
        Some(TransferError::UnsupportedVersion)
    } else if stream.len() < 9 {
        Some(TransferError::Io)
    } else if be32_value(stream.subrange(5, 9)) != PAYLOAD_LEN {
        Some(TransferError::MalformedHandshake)
    } else if stream.len() < 37 {
        Some(TransferError::Io)
    } else {
        None
    }
}

/// Whether `mat` is the key material that the handshake at the head of
/// `stream` carries.
pub open spec fn carries_key_material(stream: Seq<u8>, mat: AesKeyMaterial) -> bool {
    &&& stream.len() >= 37
    &&& mat.key@ == stream.subrange(9, 25)
    &&& mat.nonce@ == stream.subrange(25, 37)
}

/// Appends the handshake message for `mat` to `stream`.
pub fn send_key_material(stream: &mut Vec<u8>, mat: &AesKeyMaterial)
    ensures
        final(stream)@ == old(stream)@ + handshake_bytes(*mat),
{
    write_all(stream, MAGIC.as_slice());
    stream.push(VERSION);
    write_u32_be(stream, PAYLOAD_LEN);
    write_all(stream, mat.key.as_slice());
    write_all(stream, mat.nonce.as_slice());
    assert(stream@ =~= old(stream)@ + handshake_bytes(*mat));
}

/// Judges the first field of a handshake.
pub fn check_magic(field: &[u8; 4]) -> (res: Result<(), TransferError>)
    ensures
        match res {
            Ok(_) => field@ == MAGIC@,
            Err(e) => field@ != MAGIC@ && e == TransferError::ProtocolMismatch,
        },
{
    if field[0] == MAGIC[0] && field[1] == MAGIC[1] && field[2] == MAGIC[2] && field[3]
        == MAGIC[3] {
        assert(field@ =~= MAGIC@);
        Ok(())
    } else {
        Err(TransferError::ProtocolMismatch)
    }
}

/// Judges the version that a handshake names.
pub fn check_version(version: u8) -> (res: Result<(), TransferError>)
    ensures
        match res {
            Ok(_) => version == VERSION,
            Err(e) => version != VERSION && e == TransferError::UnsupportedVersion,
        },
{
    if version == VERSION {
        Ok(())
    } else {
        Err(TransferError::UnsupportedVersion)
    }
}

/// Judges the payload length that a handshake declares.
pub fn check_payload_len(len: u32) -> (res: Result<(), TransferError>)
    ensures
        match res {
            Ok(_) => len == PAYLOAD_LEN,
            Err(e) => len != PAYLOAD_LEN && e == TransferError::MalformedHandshake,
        },
{
    if len == PAYLOAD_LEN {
        Ok(())
    } else {
        Err(TransferError::MalformedHandshake)
    }
}

/// Reads the payload of a handshake, key and then base nonce, that `stream`
/// holds at offset `at`. A stream that ends before its last byte is a failed
/// read.
pub fn read_payload(stream: &[u8], at: usize) -> (res: Result<AesKeyMaterial, TransferError>)
    ensures
        at + 28 <= stream@.len() ==> (res matches Ok(mat) && mat.key@ == stream@.subrange(
            at as int,
            at + 16,
        ) && mat.nonce@ == stream@.subrange(at + 16, at + 28)),
        at + 28 > stream@.len() ==> (res matches Err(e) && e == TransferError::Io),
{
    if stream.len() < 28 || at > stream.len() - 28 {
        return Err(TransferError::Io);
    }
    let key: [u8; 16] = read_array::<16>(stream, at)?;
    let nonce: [u8; 12] = read_array::<12>(stream, at + 16)?;
    Ok(AesKeyMaterial { key, nonce })
}

/// Reads the handshake at the head of `stream` and returns the key material
/// that it carries. Whatever follows the first 37 bytes is left alone.
pub fn recv_key_material(stream: &[u8]) -> (res: Result<AesKeyMaterial, TransferError>)
    ensures
        match res {
            Ok(mat) => handshake_fault(stream@) is None && carries_key_material(stream@, mat),
            Err(e) => handshake_fault(stream@) == Some(e),
        },
{
    let magic: [u8; 4] = read_array::<4>(stream, 0)?;
    check_magic(&magic)?;
    let version: [u8; 1] = read_array::<1>(stream, 4)?;
    check_version(version[0])?;
    let len: u32 = read_u32_be(stream, 5)?;
    check_payload_len(len)?;
    read_payload(stream, 9)
}

/// A stream whose magic, version or declared payload length is wrong is turned
/// down, with the error of the first field that is wrong, whatever follows.
pub proof fn lemma_handshake_rejection(stream: Seq<u8>)
    ensures
        stream.len() >= 4 && stream.subrange(0, 4) != MAGIC@ ==> handshake_fault(stream) == Some(
            TransferError::ProtocolMismatch,
        ),
        stream.len() >= 5 && stream.subrange(0, 4) == MAGIC@ && stream[4] != VERSION
            ==> handshake_fault(stream) == Some(TransferError::UnsupportedVersion),
        stream.len() >= 9 && stream.subrange(0, 4) == MAGIC@ && stream[4] == VERSION && be32_value(
            stream.subrange(5, 9),
        ) != 28 ==> handshake_fault(stream) == Some(TransferError::MalformedHandshake),
{
}

/// The handshake that a sender writes is accepted, and carries the sender's
/// key material, whatever follows it on the stream.
pub proof fn lemma_handshake_round_trip(mat: AesKeyMaterial, rest: Seq<u8>)
    ensures
        handshake_bytes(mat).len() == 37,
        handshake_fault(handshake_bytes(mat) + rest) is None,
        carries_key_material(handshake_bytes(mat) + rest, mat),
{
    let stream = handshake_bytes(mat) + rest;
    crate::framing::lemma_be32_value_of_be32(PAYLOAD_LEN);
    assert(stream.subrange(0, 4) =~= MAGIC@);
    assert(stream.subrange(5, 9) =~= be32(PAYLOAD_LEN));
    assert(stream.subrange(9, 25) =~= mat.key@);
    assert(stream.subrange(25, 37) =~= mat.nonce@);
}

} // verus!
