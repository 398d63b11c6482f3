//! The stream of frames that follows the handshake.
//!
//! A data frame is the chunk's index, the length of its ciphertext and the
//! ciphertext, the two numbers big-endian. The end frame has the reserved index
//! and the length zero, and nothing after them.

use vstd::prelude::*;
use vstd::slice::slice_subrange;
use crate::constants::{CHUNK_SIZE, END_INDEX};
use crate::crypto::{aes_chunk, opened_chunk, sealed_chunk, seals_well, AesKeyMaterial};
use crate::error::TransferError;
use crate::framing::{be32, be32_value, lemma_be32_value_of_be32, read_u32_be, write_all, write_u32_be};

verus! {

/// The data frame that carries `ciphertext` as the chunk with index
/// `chunk_index`.
pub open spec fn data_frame(chunk_index: u32, ciphertext: Seq<u8>) -> Seq<u8> {
    be32(chunk_index) + be32(ciphertext.len() as u32) + ciphertext
}

/// The frame that ends a stream.
pub open spec fn end_frame() -> Seq<u8> {
    be32(END_INDEX) + be32(0)
}

/// What the header of a frame announces.
#[derive(Debug, Clone, Copy, PartialEq, Eq, Structural)]
pub enum FrameHeader {
    /// The end of the stream.
    End,
    /// A chunk, and the length of its ciphertext.
    Data { chunk_index: u32, len: u32 },
}

/// The header that the first eight bytes of `bytes` stand for. Only the
/// reserved index together with the length zero marks the end.
pub open spec fn frame_header(bytes: Seq<u8>) -> FrameHeader
    recommends
        bytes.len() >= 8,
{
    let chunk_index = be32_value(bytes.subrange(0, 4));
    let len = be32_value(bytes.subrange(4, 8));
    if chunk_index == END_INDEX && len == 0 {
        FrameHeader::End
    } else {
        FrameHeader::Data { chunk_index, len }
    }
}

/// Length of the first chunk of an input of `remaining` bytes.
pub open spec fn chunk_len(remaining: int) -> int {
    if remaining < CHUNK_SIZE {
        remaining
    } else {
        CHUNK_SIZE as int
    }
}

/// The frames that a sender writes for `input`, the first chunk under
/// `chunk_index`, each later one under the next index, which wraps at 32 bits,
/// and the end frame after the last.
pub open spec fn stream_encoding(mat: AesKeyMaterial, input: Seq<u8>, chunk_index: u32) -> Seq<u8>
    decreases input.len(),
{
    if input.len() == 0 {
        end_frame()
    } else {
        let n = chunk_len(input.len() as int);
        data_frame(chunk_index, sealed_chunk(mat, chunk_index, input.take(n))) + stream_encoding(
            mat,
            input.skip(n),
            chunk_index.wrapping_add(1),
        )
    }
}

/// Whether every chunk of `input`, numbered from `chunk_index`, seals well.
pub open spec fn chunks_seal_well(mat: AesKeyMaterial, input: Seq<u8>, chunk_index: u32) -> bool
    decreases input.len(),
{
    input.len() == 0 || {
        let n = chunk_len(input.len() as int);
        &&& seals_well(mat, chunk_index, input.take(n))
        &&& chunks_seal_well(mat, input.skip(n), chunk_index.wrapping_add(1))
    }
}

/// What a receiver makes of a stream: the plaintext that it hands on, and why
/// it stopped.
pub struct Reception {
    /// Plaintext of the frames that were opened, in order.
    pub plaintext: Seq<u8>,
    /// `None` where the end frame was reached, else the failure.
    pub fault: Option<TransferError>,
}

/// What a receiver with key material `mat` makes of `stream`. It reads frame
/// after frame, stops without fault at the end frame, and stops with a fault
/// where the stream ends inside a frame or a ciphertext does not authenticate.
pub open spec fn received(mat: AesKeyMaterial, stream: Seq<u8>) -> Reception
    decreases stream.len(),
{
    if stream.len() < 8 {
        Reception { plaintext: Seq::empty(), fault: Some(TransferError::Io) }
    } else {
        match frame_header(stream) {
            FrameHeader::End => Reception { plaintext: Seq::empty(), fault: None },
            FrameHeader::Data { chunk_index, len } => {
                if stream.len() < 8 + len {
                    Reception { plaintext: Seq::empty(), fault: Some(TransferError::Io) }
                } else {
                    match opened_chunk(mat, chunk_index, stream.subrange(8, 8 + len)) {
                        None => Reception {
                            plaintext: Seq::empty(),
                            fault: Some(TransferError::Authentication),
                        },
                        Some(chunk) => {
                            let rest = received(mat, stream.skip(8 + len));
                            Reception { plaintext: chunk + rest.plaintext, fault: rest.fault }
                        },
                    }
                }
            },
        }
    }
}

/// Appends the data frame for `ciphertext` to `stream`.
pub fn write_frame(stream: &mut Vec<u8>, chunk_index: u32, ciphertext: &[u8])
    requires
        ciphertext@.len() <= u32::MAX,
    ensures
        final(stream)@ == old(stream)@ + data_frame(chunk_index, ciphertext@),
{
    write_u32_be(stream, chunk_index);
    write_u32_be(stream, ciphertext.len() as u32);
    write_all(stream, ciphertext);
    assert(stream@ =~= old(stream)@ + data_frame(chunk_index, ciphertext@));
}

/// Seals `chunk` as the chunk with index `chunk_index` and returns its data
/// frame. This never fails: a chunk that fits a frame is well within what the
/// cipher seals.
pub fn seal_frame(mat: &AesKeyMaterial, chunk_index: u32, chunk: &[u8]) -> (res: Result<
    Vec<u8>,
    TransferError,
>)
    requires
        chunk@.len() + 16 <= u32::MAX,
    ensures
        res matches Ok(frame) && frame@ == data_frame(
            chunk_index,
            sealed_chunk(*mat, chunk_index, chunk@),
        ),
        seals_well(*mat, chunk_index, chunk@),
{
    let sealed = aes_chunk(chunk, true, mat, chunk_index)?;
    let mut frame: Vec<u8> = Vec::new();
    write_frame(&mut frame, chunk_index, sealed.as_slice());
    assert(frame@ =~= data_frame(chunk_index, sealed@));
    Ok(frame)
}

/// Appends the end frame to `stream`.
pub fn write_end_frame(stream: &mut Vec<u8>)
    ensures
        final(stream)@ == old(stream)@ + end_frame(),
{
    write_u32_be(stream, END_INDEX);
    write_u32_be(stream, 0);
    assert(stream@ =~= old(stream)@ + end_frame());
}

/// Reads the frame header that `stream` holds at offset `at`. A stream that
/// ends before the eighth byte is a failed read.
pub fn read_frame_header(stream: &[u8], at: usize) -> (res: Result<FrameHeader, TransferError>)
    ensures
        at + 8 <= stream@.len() ==> (res matches Ok(header) && header == frame_header(
            stream@.skip(at as int),
        )),
        at + 8 > stream@.len() ==> (res matches Err(e) && e == TransferError::Io),
{
    if stream.len() < 8 || at > stream.len() - 8 {
        return Err(TransferError::Io);
    }
    let chunk_index = read_u32_be(stream, at)?;
    let len = read_u32_be(stream, at + 4)?;
    proof {
        let tail = stream@.skip(at as int);
        assert(tail.subrange(0, 4) =~= stream@.subrange(at as int, at + 4));
        assert(tail.subrange(4, 8) =~= stream@.subrange(at + 4, at + 8));
    }
    if chunk_index == END_INDEX && len == 0 {
        Ok(FrameHeader::End)
    } else {
        Ok(FrameHeader::Data { chunk_index, len })
    }
}

/// A stream that begins with the end frame is received as empty and without
/// fault, whatever follows the end frame.
pub proof fn lemma_end_frame_stops_reception(mat: AesKeyMaterial, rest: Seq<u8>)
    ensures
        received(mat, end_frame() + rest) == (Reception { plaintext: Seq::empty(), fault: None }),
{
    let stream = end_frame() + rest;
    lemma_be32_value_of_be32(END_INDEX);
    lemma_be32_value_of_be32(0);
    assert(stream.subrange(0, 4) =~= be32(END_INDEX));
    assert(stream.subrange(4, 8) =~= be32(0));
}

/// Once a stream was received without fault, which is to say up to an end
/// frame, nothing that follows changes what was received.
pub proof fn lemma_reception_ignores_what_follows(
    mat: AesKeyMaterial,
    stream: Seq<u8>,
    rest: Seq<u8>,
)
    requires
        received(mat, stream).fault is None,
    ensures
        received(mat, stream + rest) == received(mat, stream),
    decreases stream.len(),
{
    let longer = stream + rest;
    assert(longer.subrange(0, 4) =~= stream.subrange(0, 4));
    assert(longer.subrange(4, 8) =~= stream.subrange(4, 8));
    match frame_header(stream) {
        FrameHeader::End => {},
        FrameHeader::Data { chunk_index, len } => {
            assert(longer.subrange(8, 8 + len) =~= stream.subrange(8, 8 + len));
            assert(longer.skip(8 + len) =~= stream.skip(8 + len) + rest);
            lemma_reception_ignores_what_follows(mat, stream.skip(8 + len), rest);
        },
    }
}

/// A frame whose ciphertext does not authenticate stops reception with an
/// authentication fault and without any plaintext of its own.
pub proof fn lemma_forged_frame_stops_reception(
    mat: AesKeyMaterial,
    chunk_index: u32,
    ciphertext: Seq<u8>,
    rest: Seq<u8>,
)
    requires
        0 < ciphertext.len() <= u32::MAX,
        opened_chunk(mat, chunk_index, ciphertext) is None,
    ensures
        received(mat, data_frame(chunk_index, ciphertext) + rest) == (Reception {
            plaintext: Seq::empty(),
            fault: Some(TransferError::Authentication),
        }),
{
    let stream = data_frame(chunk_index, ciphertext) + rest;
    lemma_be32_value_of_be32(chunk_index);
    lemma_be32_value_of_be32(ciphertext.len() as u32);
    assert(stream.subrange(0, 4) =~= be32(chunk_index));
    assert(stream.subrange(4, 8) =~= be32(ciphertext.len() as u32));
    assert(stream.subrange(8, 8 + ciphertext.len() as int) =~= ciphertext);
}

/// Receiving what a sender writes for `input` gives `input` back, without
/// fault, whatever follows the end frame: provided that each chunk seals well,
/// which sealing establishes of every chunk it is given.
pub proof fn lemma_round_trip(mat: AesKeyMaterial, input: Seq<u8>, chunk_index: u32, rest: Seq<u8>)
    requires
        chunks_seal_well(mat, input, chunk_index),
    ensures
        received(mat, stream_encoding(mat, input, chunk_index) + rest) == (Reception {
            plaintext: input,
            fault: None,
        }),
    decreases input.len(),
{
    if input.len() == 0 {
        lemma_end_frame_stops_reception(mat, rest);
        assert(input =~= Seq::empty());
    } else {
        let n = chunk_len(input.len() as int);
        let chunk = input.take(n);
        let sealed = sealed_chunk(mat, chunk_index, chunk);
        let later = stream_encoding(mat, input.skip(n), chunk_index.wrapping_add(1));
        let stream = stream_encoding(mat, input, chunk_index) + rest;
        lemma_be32_value_of_be32(chunk_index);
        lemma_be32_value_of_be32(sealed.len() as u32);
        assert(stream.subrange(0, 4) =~= be32(chunk_index));
        assert(stream.subrange(4, 8) =~= be32(sealed.len() as u32));
        assert(stream.subrange(8, 8 + sealed.len() as int) =~= sealed);
        assert(stream.skip(8 + sealed.len() as int) =~= later + rest);
        lemma_round_trip(mat, input.skip(n), chunk_index.wrapping_add(1), rest);
        assert(chunk + input.skip(n) =~= input);
    }
}

/// Seals `input` chunk by chunk under `mat`, appends one data frame per chunk
/// to `stream`, indices counting up from zero, and the end frame after the
/// last. An empty input gives the end frame alone. This never fails.
///
/// What is appended is received again as exactly `input`.
pub fn send_streaming_message(stream: &mut Vec<u8>, mat: &AesKeyMaterial, input: &[u8]) -> (res:
    Result<(), TransferError>)
    ensures
        res is Ok,
        final(stream)@ == old(stream)@ + stream_encoding(*mat, input@, 0),
        chunks_seal_well(*mat, input@, 0),
        received(*mat, stream_encoding(*mat, input@, 0)) == (Reception {
            plaintext: input@,
            fault: None,
        }),
{
    let mut pos: usize = 0;
    let mut chunk_index: u32 = 0;
    assert(input@.skip(0) =~= input@);
    while pos < input.len()
        invariant
            pos <= input.len(),
            stream@ + stream_encoding(*mat, input@.skip(pos as int), chunk_index) == old(stream)@
                + stream_encoding(*mat, input@, 0),
            chunks_seal_well(*mat, input@.skip(pos as int), chunk_index) ==> chunks_seal_well(
                *mat,
                input@,
                0,
            ),
        decreases input.len() - pos,
    {
        let remaining = input.len() - pos;
        let n: usize = if remaining < CHUNK_SIZE {
            remaining
        } else {
            CHUNK_SIZE
        };
        let chunk = slice_subrange(input, pos, pos + n);
        let frame = seal_frame(mat, chunk_index, chunk)?;
        let ghost before = stream@;
        let ghost tail = input@.skip(pos as int);
        let ghost index_before = chunk_index;
        proof {
            assert(tail.take(n as int) =~= chunk@);
            assert(tail.skip(n as int) =~= input@.skip(pos + n));
        }
        write_all(stream, frame.as_slice());
        chunk_index = chunk_index.wrapping_add(1);
        pos = pos + n;
        proof {
            assert(stream@ + stream_encoding(*mat, input@.skip(pos as int), chunk_index) =~= before
                + stream_encoding(*mat, tail, index_before));
        }
    }
    write_end_frame(stream);
    proof {
        assert(input@.skip(pos as int) =~= Seq::empty());
        lemma_round_trip(*mat, input@, 0, Seq::empty());
        assert(stream_encoding(*mat, input@, 0) + Seq::<u8>::empty() =~= stream_encoding(
            *mat,
            input@,
            0,
        ));
    }
    Ok(())
}

/// Reads frames from `stream` until the end frame, opens each under `mat` and
/// the index that the frame names, and appends the plaintext to `output` frame
/// by frame. What follows the end frame is not looked at.
///
/// On a fault, `output` has the plaintext of the frames before it.
pub fn recv_streaming_message(stream: &[u8], mat: &AesKeyMaterial, output: &mut Vec<u8>) -> (res:
    Result<(), TransferError>)
    ensures
        final(output)@ == old(output)@ + received(*mat, stream@).plaintext,
        match res {
            Ok(_) => received(*mat, stream@).fault is None,
            Err(e) => received(*mat, stream@).fault == Some(e),
        },
{
    let mut pos: usize = 0;
    assert(stream@.skip(0) =~= stream@);
    assert(output@ + received(*mat, stream@).plaintext =~= old(output)@ + received(
        *mat,
        stream@,
    ).plaintext);
    loop
        invariant
            pos <= stream.len(),
            output@ + received(*mat, stream@.skip(pos as int)).plaintext == old(output)@ + received(
                *mat,
                stream@,
            ).plaintext,
            received(*mat, stream@.skip(pos as int)).fault == received(*mat, stream@).fault,
        decreases stream.len() - pos,
    {
        let ghost tail = stream@.skip(pos as int);
        let header = match read_frame_header(stream, pos) {
            Ok(header) => header,
            Err(e) => {
                assert(output@ + Seq::<u8>::empty() =~= output@);
                return Err(e);
            },
        };
        match header {
            FrameHeader::End => {
                assert(output@ + Seq::<u8>::empty() =~= output@);
                return Ok(());
            },
            FrameHeader::Data { chunk_index, len } => {
                let body_at = pos + 8;
                if len as usize > stream.len() - body_at {
                    assert(output@ + Seq::<u8>::empty() =~= output@);
                    return Err(TransferError::Io);
                }
                let body_end = body_at + len as usize;
                let ciphertext = slice_subrange(stream, body_at, body_end);
                proof {
                    assert(tail.subrange(8, 8 + len) =~= ciphertext@);
                    assert(tail.skip(8 + len) =~= stream@.skip(body_end as int));
                }
                let plaintext = match aes_chunk(ciphertext, false, mat, chunk_index) {
                    Ok(plaintext) => plaintext,
                    Err(e) => {
                        assert(output@ + Seq::<u8>::empty() =~= output@);
                        return Err(e);
                    },
                };
                let ghost before = output@;
                write_all(output, plaintext.as_slice());
                pos = body_end;
                proof {
                    let later = received(*mat, stream@.skip(pos as int)).plaintext;
                    assert(output@ + later =~= before + (plaintext@ + later));
                }
            },
        }
    }
}

} // verus!
