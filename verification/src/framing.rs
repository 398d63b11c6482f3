//! Big-endian integers on the wire, and the nonce of each chunk.

use vstd::prelude::*;
use vstd::arithmetic::div_mod::lemma_fundamental_div_mod_converse;
use crate::error::TransferError;

verus! {

/// The four bytes that stand for `v` on the wire, most significant first.
pub open spec fn be32(v: u32) -> Seq<u8> {
    seq![
        (v / 0x100_0000) as u8,
        (v / 0x1_0000 % 0x100) as u8,
        (v / 0x100 % 0x100) as u8,
        (v % 0x100) as u8,
    ]
}

/// The number that the first four bytes of `b` stand for.
pub open spec fn be32_value(b: Seq<u8>) -> u32
    recommends
        b.len() >= 4,
{
    (b[0] * 0x100_0000 + b[1] * 0x1_0000 + b[2] * 0x100 + b[3]) as u32
}

/// Reading what was written gives the number back.
pub proof fn lemma_be32_value_of_be32(v: u32)
    ensures
        be32(v).len() == 4,
        be32_value(be32(v)) == v,
{
}

/// Writing what was read gives the bytes back.
pub proof fn lemma_be32_of_be32_value(b: Seq<u8>)
    requires
        b.len() == 4,
    ensures
        be32(be32_value(b)) == b,
{
    let low3: int = b[1] * 0x1_0000 + b[2] * 0x100 + b[3];
    let low2: int = b[2] * 0x100 + b[3];
    let v: int = b[0] * 0x100_0000 + low3;
    lemma_fundamental_div_mod_converse(v, 0x100_0000, b[0] as int, low3);
    lemma_fundamental_div_mod_converse(v, 0x1_0000, b[0] * 0x100 + b[1], low2);
    lemma_fundamental_div_mod_converse(b[0] * 0x100 + b[1], 0x100, b[0] as int, b[1] as int);
    lemma_fundamental_div_mod_converse(v, 0x100, b[0] * 0x1_0000 + b[1] * 0x100 + b[2], b[3] as int);
    lemma_fundamental_div_mod_converse(
        b[0] * 0x1_0000 + b[1] * 0x100 + b[2],
        0x100,
        b[0] * 0x100 + b[1],
        b[2] as int,
    );
    assert(be32(be32_value(b)) =~= b);
}

/// Two numbers with the same bytes are the same number.
pub proof fn lemma_be32_injective(v: u32, w: u32)
    requires
        be32(v) == be32(w),
    ensures
        v == w,
{
    lemma_be32_value_of_be32(v);
    lemma_be32_value_of_be32(w);
}

/// Appends `v` to `stream`, big-endian.
pub fn write_u32_be(stream: &mut Vec<u8>, v: u32)
    ensures
        final(stream)@ == old(stream)@ + be32(v),
{
    stream.push((v / 0x100_0000) as u8);
    stream.push((v / 0x1_0000 % 0x100) as u8);
    stream.push((v / 0x100 % 0x100) as u8);
    stream.push((v % 0x100) as u8);
    assert(stream@ =~= old(stream)@ + be32(v));
}

/// Reads the big-endian number that `stream` holds at offset `at`. A stream
/// that ends before the fourth byte is a failed read.
pub fn read_u32_be(stream: &[u8], at: usize) -> (res: Result<u32, TransferError>)
    ensures
        at + 4 <= stream@.len() ==> (res matches Ok(v) && v == be32_value(
            stream@.subrange(at as int, at + 4),
        )),
        at + 4 > stream@.len() ==> (res matches Err(e) && e == TransferError::Io),
{
    if stream.len() < 4 || at > stream.len() - 4 {
        return Err(TransferError::Io);
    }
    let b0: u32 = stream[at] as u32;
    let b1: u32 = stream[at + 1] as u32;
    let b2: u32 = stream[at + 2] as u32;
    let b3: u32 = stream[at + 3] as u32;
    Ok(b0 * 0x100_0000 + b1 * 0x1_0000 + b2 * 0x100 + b3)
}

/// Reads exactly `N` bytes that `stream` holds at offset `at`. A stream that
/// ends before the last of them is a failed read.
pub fn read_array<const N: usize>(stream: &[u8], at: usize) -> (res: Result<[u8; N], TransferError>)
    ensures
        at + N <= stream@.len() ==> (res matches Ok(bytes) && bytes@ == stream@.subrange(
            at as int,
            at + N,
        )),
        at + N > stream@.len() ==> (res matches Err(e) && e == TransferError::Io),
{
    if stream.len() < N || at > stream.len() - N {
        return Err(TransferError::Io);
    }
    let mut bytes: [u8; N] = [0u8; N];
    let mut i: usize = 0;
    while i < N
        invariant
            i <= N,
            at + N <= stream.len(),
            forall|j: int| 0 <= j < i ==> bytes@[j] == stream@[at + j],
        decreases N - i,
    {
        bytes[i] = stream[at + i];
        i += 1;
    }
    assert(bytes@ =~= stream@.subrange(at as int, at + N));
    Ok(bytes)
}

/// Appends `bytes` to `stream`.
pub fn write_all(stream: &mut Vec<u8>, bytes: &[u8])
    ensures
        final(stream)@ == old(stream)@ + bytes@,
{
    let mut i: usize = 0;
    while i < bytes.len()
        invariant
            i <= bytes@.len(),
            stream@ == old(stream)@ + bytes@.subrange(0, i as int),
        decreases bytes@.len() - i,
    {
        stream.push(bytes[i]);
        i += 1;
        assert(stream@ =~= old(stream)@ + bytes@.subrange(0, i as int));
    }
    assert(bytes@.subrange(0, i as int) =~= bytes@);
}

/// The nonce under which the chunk with index `chunk_index` is sealed: the
/// first eight bytes of the base nonce, then the index, big-endian.
pub open spec fn chunk_nonce(base: Seq<u8>, chunk_index: u32) -> Seq<u8> {
    base.subrange(0, 8) + be32(chunk_index)
}

/// Derives the nonce of one chunk from the session's base nonce.
pub fn nonce_for_chunk(base: [u8; 12], chunk_index: u32) -> (nonce: [u8; 12])
    ensures
        nonce@ == chunk_nonce(base@, chunk_index),
{
    let nonce: [u8; 12] = [
        base[0],
        base[1],
        base[2],
        base[3],
        base[4],
        base[5],
        base[6],
        base[7],
        (chunk_index / 0x100_0000) as u8,
        (chunk_index / 0x1_0000 % 0x100) as u8,
        (chunk_index / 0x100 % 0x100) as u8,
        (chunk_index % 0x100) as u8,
    ];
    assert(nonce@ =~= chunk_nonce(base@, chunk_index));
    nonce
}

/// Under one base nonce, chunks with different indices get different nonces.
pub proof fn lemma_chunk_nonces_distinct(base: Seq<u8>, i: u32, j: u32)
    requires
        base.len() == 12,
        i != j,
    ensures
        chunk_nonce(base, i) != chunk_nonce(base, j),
{
    if chunk_nonce(base, i) == chunk_nonce(base, j) {
        let a = chunk_nonce(base, i);
        let b = chunk_nonce(base, j);
        assert(a.subrange(8, 12) =~= be32(i));
        assert(b.subrange(8, 12) =~= be32(j));
        lemma_be32_injective(i, j);
    }
}

} // verus!
