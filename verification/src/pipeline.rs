//! The two ends of a session, each as a state machine.
//!
//! A pipeline owns one connection and runs once over it. The program around
//! the library does the waiting: it connects or accepts, reads and writes, and
//! tells the machine what happened. The machine answers with the next state
//! and with what to do next. The first failure aborts the session; nothing is
//! retried.

use vstd::prelude::*;
use crate::constants::{MAGIC, PAYLOAD_LEN, VERSION};
use crate::crypto::{aes_chunk, opened_chunk, sealed_chunk, seals_well, AesKeyMaterial};
use crate::error::TransferError;
use crate::framing::{be32_value, read_array, read_u32_be};
use crate::handshake::{
    check_magic,
    check_payload_len,
    check_version,
    handshake_bytes,
    read_payload,
    send_key_material,
};
use crate::stream::{
    data_frame,
    end_frame,
    frame_header,
    read_frame_header,
    seal_frame,
    write_end_frame,
    FrameHeader,
};

verus! {

/// Where a sender stands.
#[derive(Debug, Clone, Copy, PartialEq, Eq)]
pub enum SenderState {
    /// No connection yet.
    Idle,
    /// Connected to the peer; no key material yet.
    Connected,
    /// The handshake is on its way; no chunk was sent yet.
    HandshakeSent { mat: AesKeyMaterial },
    /// At least one chunk was sent; `next_index` is the index of the next.
    Streaming { mat: AesKeyMaterial, next_index: u32 },
    /// The end frame was sent.
    Closed,
    /// The session failed.
    Aborted,
}

/// What the program reports to a sender.
#[derive(Debug, PartialEq, Eq)]
pub enum SenderEvent {
    /// The connection to the peer stands.
    Connected,
    /// Fresh key material was drawn.
    KeyMaterial(AesKeyMaterial),
    /// One read of the input returned these bytes; none at its end.
    Input(Vec<u8>),
    /// Connecting, drawing key material, reading or writing failed.
    Failure(TransferError),
}

/// What a sender asks the program to do next.
#[derive(Debug, PartialEq, Eq)]
pub enum SenderAction {
    /// Draw fresh key material and report it.
    DrawKeyMaterial,
    /// Write these bytes to the peer, then read the input and report it.
    Write(Vec<u8>),
    /// Write these bytes to the peer, flush, and close the writing side.
    WriteAndClose(Vec<u8>),
    /// Report the failure and stop.
    Abort(TransferError),
    /// The session is over: nothing is left to do.
    Done,
}

/// What a sender with key material `mat` does with one read of the input,
/// which it sends as the chunk with index `chunk_index`.
pub open spec fn sender_sends(
    mat: AesKeyMaterial,
    chunk_index: u32,
    chunk: Seq<u8>,
    next: SenderState,
    action: SenderAction,
) -> bool {
    if chunk.len() == 0 {
        &&& next == SenderState::Closed
        &&& action matches SenderAction::WriteAndClose(bytes)
        &&& bytes@ == end_frame()
    } else {
        &&& next == (SenderState::Streaming { mat, next_index: chunk_index.wrapping_add(1) })
        &&& action matches SenderAction::Write(bytes)
        &&& bytes@ == data_frame(chunk_index, sealed_chunk(mat, chunk_index, chunk))
        &&& seals_well(mat, chunk_index, chunk)
    }
}

/// The sender's transitions: whether `event` takes a sender from `state` to
/// `next` with `action`.
///
/// A session that is over stays as it is. A reported failure aborts with that
/// failure, and an event that the state does not wait for aborts as an I/O
/// failure.
pub open spec fn sender_step(
    state: SenderState,
    event: SenderEvent,
    next: SenderState,
    action: SenderAction,
) -> bool {
    match (state, event) {
        (SenderState::Closed, _) => next == SenderState::Closed && action is Done,
        (SenderState::Aborted, _) => next == SenderState::Aborted && action is Done,
        (_, SenderEvent::Failure(e)) => {
            &&& next == SenderState::Aborted
            &&& action matches SenderAction::Abort(reported)
            &&& reported == e
        },
        (SenderState::Idle, SenderEvent::Connected) => {
            &&& next == SenderState::Connected
            &&& action is DrawKeyMaterial
        },
        (SenderState::Connected, SenderEvent::KeyMaterial(mat)) => {
            &&& next == (SenderState::HandshakeSent { mat })
            &&& action matches SenderAction::Write(bytes)
            &&& bytes@ == handshake_bytes(mat)
        },
        (SenderState::HandshakeSent { mat }, SenderEvent::Input(chunk)) => sender_sends(
            mat,
            0,
            chunk@,
            next,
            action,
        ),
        (SenderState::Streaming { mat, next_index }, SenderEvent::Input(chunk)) => sender_sends(
            mat,
            next_index,
            chunk@,
            next,
            action,
        ),
        _ => {
            &&& next == SenderState::Aborted
            &&& action matches SenderAction::Abort(reported)
            &&& reported == TransferError::Io
        },
    }
}

/// Sends one read of the input as the chunk with index `chunk_index`, or the
/// end frame where the read was empty.
fn send_input(mat: AesKeyMaterial, chunk_index: u32, chunk: Vec<u8>) -> (res: (
    SenderState,
    SenderAction,
))
    requires
        chunk@.len() + 16 <= u32::MAX,
    ensures
        sender_sends(mat, chunk_index, chunk@, res.0, res.1),
{
    if chunk.len() == 0 {
        let mut bytes: Vec<u8> = Vec::new();
        write_end_frame(&mut bytes);
        assert(bytes@ =~= end_frame());
        (SenderState::Closed, SenderAction::WriteAndClose(bytes))
    } else {
        match seal_frame(&mat, chunk_index, chunk.as_slice()) {
            Ok(frame) => (
                SenderState::Streaming { mat, next_index: chunk_index.wrapping_add(1) },
                SenderAction::Write(frame),
            ),
            Err(e) => (SenderState::Aborted, SenderAction::Abort(e)),
        }
    }
}

/// One step of the sending side: connect, draw key material, send the
/// handshake, send the input chunk by chunk as it is read, and send the end
/// frame when the input is exhausted.
///
/// A chunk must fit a frame together with its tag: the length field has 32
/// bits.
pub fn send(state: SenderState, event: SenderEvent) -> (res: (SenderState, SenderAction))
    requires
        event matches SenderEvent::Input(chunk) ==> chunk@.len() + 16 <= u32::MAX,
    ensures
        sender_step(state, event, res.0, res.1),
{
    match state {
        SenderState::Closed => (SenderState::Closed, SenderAction::Done),
        SenderState::Aborted => (SenderState::Aborted, SenderAction::Done),
        SenderState::Idle => match event {
            SenderEvent::Failure(e) => (SenderState::Aborted, SenderAction::Abort(e)),
            SenderEvent::Connected => (SenderState::Connected, SenderAction::DrawKeyMaterial),
            _ => (SenderState::Aborted, SenderAction::Abort(TransferError::Io)),
        },
        SenderState::Connected => match event {
            SenderEvent::Failure(e) => (SenderState::Aborted, SenderAction::Abort(e)),
            SenderEvent::KeyMaterial(mat) => {
                let mut bytes: Vec<u8> = Vec::new();
                send_key_material(&mut bytes, &mat);
                assert(bytes@ =~= handshake_bytes(mat));
                (SenderState::HandshakeSent { mat }, SenderAction::Write(bytes))
            },
            _ => (SenderState::Aborted, SenderAction::Abort(TransferError::Io)),
        },
        SenderState::HandshakeSent { mat } => match event {
            SenderEvent::Failure(e) => (SenderState::Aborted, SenderAction::Abort(e)),
            SenderEvent::Input(chunk) => send_input(mat, 0, chunk),
            _ => (SenderState::Aborted, SenderAction::Abort(TransferError::Io)),
        },
        SenderState::Streaming { mat, next_index } => match event {
            SenderEvent::Failure(e) => (SenderState::Aborted, SenderAction::Abort(e)),
            SenderEvent::Input(chunk) => send_input(mat, next_index, chunk),
            _ => (SenderState::Aborted, SenderAction::Abort(TransferError::Io)),
        },
    }
}

/// The field of the handshake that a receiver reads next.
#[derive(Debug, Clone, Copy, PartialEq, Eq, Structural)]
pub enum HandshakeField {
    /// The magic: 4 bytes.
    Magic,
    /// The version: 1 byte.
    Version,
    /// The payload length: 4 bytes.
    PayloadLength,
    /// The payload, key and then base nonce: 28 bytes.
    Payload,
}

/// The part of a frame that a receiver reads next.
#[derive(Debug, Clone, Copy, PartialEq, Eq, Structural)]
pub enum FramePart {
    /// The header: 8 bytes.
    Header,
    /// The ciphertext of the chunk that the header announced.
    Ciphertext { chunk_index: u32, len: u32 },
}

/// Where a receiver stands.
#[derive(Debug, Clone, Copy, PartialEq, Eq)]
pub enum ReceiverState {
    /// No connection yet.
    Idle,
    /// A connection was accepted; the handshake is being read, field by field.
    /// No key material is held before the fields in front of it were judged.
    Connected { awaiting: HandshakeField },
    /// The handshake was accepted; no frame was read yet.
    HandshakeReceived { mat: AesKeyMaterial },
    /// Frames are being read.
    Streaming { mat: AesKeyMaterial, part: FramePart },
    /// The end frame was read.
    Closed,
    /// The session failed.
    Aborted,
}

/// What the program reports to a receiver.
#[derive(Debug, PartialEq, Eq)]
pub enum ReceiverEvent {
    /// One connection was accepted.
    Accepted,
    /// The bytes that were asked for, read in full.
    Bytes(Vec<u8>),
    /// Binding, accepting, reading or writing failed, or the stream ended
    /// before the bytes that were asked for.
    Failure(TransferError),
}

/// What a receiver asks the program to do next.
#[derive(Debug, PartialEq, Eq)]
pub enum ReceiverAction {
    /// Read exactly this many bytes from the peer and report them.
    Read(usize),
    /// Write this plaintext to the output, then read exactly `len` bytes from
    /// the peer and report them.
    WriteAndRead { plaintext: Vec<u8>, len: usize },
    /// Flush the output: the stream ended as it should.
    Finish,
    /// Report the failure and stop.
    Abort(TransferError),
    /// The session is over: nothing is left to do.
    Done,
}

/// Whether a receiver aborts with `error`.
pub open spec fn receiver_aborts(
    next: ReceiverState,
    action: ReceiverAction,
    error: TransferError,
) -> bool {
    &&& next is Aborted
    &&& action matches ReceiverAction::Abort(reported)
    &&& reported == error
}

/// Whether a receiver goes on to `expected` and asks for `len` bytes.
pub open spec fn receiver_reads(
    next: ReceiverState,
    action: ReceiverAction,
    expected: ReceiverState,
    len: int,
) -> bool {
    &&& next == expected
    &&& action matches ReceiverAction::Read(asked)
    &&& asked == len
}

/// What a receiver does with the bytes of one field of the handshake. Each
/// field is judged as it arrives, before the next is asked for.
pub open spec fn receiver_reads_handshake(
    awaiting: HandshakeField,
    bytes: Seq<u8>,
    next: ReceiverState,
    action: ReceiverAction,
) -> bool {
    match awaiting {
        HandshakeField::Magic => if bytes.len() != 4 {
            receiver_aborts(next, action, TransferError::Io)
        } else if bytes != MAGIC@ {
            receiver_aborts(next, action, TransferError::ProtocolMismatch)
        } else {
            receiver_reads(
                next,
                action,
                ReceiverState::Connected { awaiting: HandshakeField::Version },
                1,
            )
        },
        HandshakeField::Version => if bytes.len() != 1 {
            receiver_aborts(next, action, TransferError::Io)
        } else if bytes[0] != VERSION {
            receiver_aborts(next, action, TransferError::UnsupportedVersion)
        } else {
            receiver_reads(
                next,
                action,
                ReceiverState::Connected { awaiting: HandshakeField::PayloadLength },
                4,
            )
        },
        HandshakeField::PayloadLength => if bytes.len() != 4 {
            receiver_aborts(next, action, TransferError::Io)
        } else if be32_value(bytes) != PAYLOAD_LEN {
            receiver_aborts(next, action, TransferError::MalformedHandshake)
        } else {
            receiver_reads(
                next,
                action,
                ReceiverState::Connected { awaiting: HandshakeField::Payload },
                28,
            )
        },
        HandshakeField::Payload => if bytes.len() != 28 {
            receiver_aborts(next, action, TransferError::Io)
        } else {
            &&& next matches ReceiverState::HandshakeReceived { mat }
            &&& mat.key@ == bytes.subrange(0, 16)
            &&& mat.nonce@ == bytes.subrange(16, 28)
            &&& action matches ReceiverAction::Read(asked)
            &&& asked == 8
        },
    }
}

/// What a receiver does with the bytes of a frame header.
pub open spec fn receiver_reads_header(
    mat: AesKeyMaterial,
    bytes: Seq<u8>,
    next: ReceiverState,
    action: ReceiverAction,
) -> bool {
    if bytes.len() != 8 {
        receiver_aborts(next, action, TransferError::Io)
    } else {
        match frame_header(bytes) {
            FrameHeader::End => next is Closed && action is Finish,
            FrameHeader::Data { chunk_index, len } => receiver_reads(
                next,
                action,
                ReceiverState::Streaming {
                    mat,
                    part: FramePart::Ciphertext { chunk_index, len },
                },
                len as int,
            ),
        }
    }
}

/// What a receiver does with the ciphertext of the chunk with index
/// `chunk_index`, which the header announced with `len` bytes.
pub open spec fn receiver_reads_ciphertext(
    mat: AesKeyMaterial,
    chunk_index: u32,
    len: u32,
    bytes: Seq<u8>,
    next: ReceiverState,
    action: ReceiverAction,
) -> bool {
    if bytes.len() != len {
        receiver_aborts(next, action, TransferError::Io)
    } else {
        match opened_chunk(mat, chunk_index, bytes) {
            None => receiver_aborts(next, action, TransferError::Authentication),
            Some(chunk) => {
                &&& next == (ReceiverState::Streaming { mat, part: FramePart::Header })
                &&& action matches ReceiverAction::WriteAndRead { plaintext, len: asked }
                &&& plaintext@ == chunk
                &&& asked == 8
            },
        }
    }
}

/// The receiver's transitions: whether `event` takes a receiver from `state`
/// to `next` with `action`.
///
/// A session that is over stays as it is. A reported failure aborts with that
/// failure. Bytes of another length than was asked for, and an event that the
/// state does not wait for, abort as an I/O failure.
pub open spec fn receiver_step(
    state: ReceiverState,
    event: ReceiverEvent,
    next: ReceiverState,
    action: ReceiverAction,
) -> bool {
    match (state, event) {
        (ReceiverState::Closed, _) => next is Closed && action is Done,
        (ReceiverState::Aborted, _) => next is Aborted && action is Done,
        (_, ReceiverEvent::Failure(e)) => receiver_aborts(next, action, e),
        (ReceiverState::Idle, ReceiverEvent::Accepted) => receiver_reads(
            next,
            action,
            ReceiverState::Connected { awaiting: HandshakeField::Magic },
            4,
        ),
        (
            ReceiverState::Connected { awaiting },
            ReceiverEvent::Bytes(bytes),
        ) => receiver_reads_handshake(awaiting, bytes@, next, action),
        (
            ReceiverState::HandshakeReceived { mat },
            ReceiverEvent::Bytes(bytes),
        ) => receiver_reads_header(mat, bytes@, next, action),
        (
            ReceiverState::Streaming { mat, part: FramePart::Header },
            ReceiverEvent::Bytes(bytes),
        ) => receiver_reads_header(mat, bytes@, next, action),
        (
            ReceiverState::Streaming { mat, part: FramePart::Ciphertext { chunk_index, len } },
            ReceiverEvent::Bytes(bytes),
        ) => receiver_reads_ciphertext(mat, chunk_index, len, bytes@, next, action),
        _ => receiver_aborts(next, action, TransferError::Io),
    }
}

/// Aborts the receiving side with `error`.
fn abort_receiver(error: TransferError) -> (res: (ReceiverState, ReceiverAction))
    ensures
        receiver_aborts(res.0, res.1, error),
{
    (ReceiverState::Aborted, ReceiverAction::Abort(error))
}

/// Judges one field of the handshake.
fn receive_handshake_field(awaiting: HandshakeField, bytes: Vec<u8>) -> (res: (
    ReceiverState,
    ReceiverAction,
))
    ensures
        receiver_reads_handshake(awaiting, bytes@, res.0, res.1),
{
    let field = bytes.as_slice();
    match awaiting {
        HandshakeField::Magic => {
            if field.len() != 4 {
                return abort_receiver(TransferError::Io);
            }
            let magic = match read_array::<4>(field, 0) {
                Ok(magic) => magic,
                Err(e) => {
                    return abort_receiver(e);
                },
            };
            assert(magic@ =~= bytes@);
            match check_magic(&magic) {
                Ok(_) => (
                    ReceiverState::Connected { awaiting: HandshakeField::Version },
                    ReceiverAction::Read(1),
                ),
                Err(e) => abort_receiver(e),
            }
        },
        HandshakeField::Version => {
            if field.len() != 1 {
                return abort_receiver(TransferError::Io);
            }
            match check_version(field[0]) {
                Ok(_) => (
                    ReceiverState::Connected { awaiting: HandshakeField::PayloadLength },
                    ReceiverAction::Read(4),
                ),
                Err(e) => abort_receiver(e),
            }
        },
        HandshakeField::PayloadLength => {
            if field.len() != 4 {
                return abort_receiver(TransferError::Io);
            }
            let len = match read_u32_be(field, 0) {
                Ok(len) => len,
                Err(e) => {
                    return abort_receiver(e);
                },
            };
            assert(bytes@.subrange(0, 4) =~= bytes@);
            match check_payload_len(len) {
                Ok(_) => (
                    ReceiverState::Connected { awaiting: HandshakeField::Payload },
                    ReceiverAction::Read(28),
                ),
                Err(e) => abort_receiver(e),
            }
        },
        HandshakeField::Payload => {
            if field.len() != 28 {
                return abort_receiver(TransferError::Io);
            }
            match read_payload(field, 0) {
                Ok(mat) => (ReceiverState::HandshakeReceived { mat }, ReceiverAction::Read(8)),
                Err(e) => abort_receiver(e),
            }
        },
    }
}

/// Judges a frame header.
fn receive_header(mat: AesKeyMaterial, bytes: Vec<u8>) -> (res: (ReceiverState, ReceiverAction))
    ensures
        receiver_reads_header(mat, bytes@, res.0, res.1),
{
    if bytes.len() != 8 {
        return abort_receiver(TransferError::Io);
    }
    assert(bytes@.skip(0) =~= bytes@);
    match read_frame_header(bytes.as_slice(), 0) {
        Ok(FrameHeader::End) => (ReceiverState::Closed, ReceiverAction::Finish),
        Ok(FrameHeader::Data { chunk_index, len }) => (
            ReceiverState::Streaming { mat, part: FramePart::Ciphertext { chunk_index, len } },
            ReceiverAction::Read(len as usize),
        ),
        Err(e) => abort_receiver(e),
    }
}

/// Opens the ciphertext of one chunk.
fn receive_ciphertext(mat: AesKeyMaterial, chunk_index: u32, len: u32, bytes: Vec<u8>) -> (res: (
    ReceiverState,
    ReceiverAction,
))
    ensures
        receiver_reads_ciphertext(mat, chunk_index, len, bytes@, res.0, res.1),
{
    if bytes.len() != len as usize {
        return abort_receiver(TransferError::Io);
    }
    match aes_chunk(bytes.as_slice(), false, &mat, chunk_index) {
        Ok(plaintext) => (
            ReceiverState::Streaming { mat, part: FramePart::Header },
            ReceiverAction::WriteAndRead { plaintext, len: 8 },
        ),
        Err(e) => abort_receiver(e),
    }
}

/// One step of the receiving side: accept one connection, read and judge the
/// handshake field by field, then read frames, open each chunk and hand its
/// plaintext on at once, until the end frame.
pub fn receive(state: ReceiverState, event: ReceiverEvent) -> (res: (ReceiverState, ReceiverAction))
    ensures
        receiver_step(state, event, res.0, res.1),
{
    match state {
        ReceiverState::Closed => (ReceiverState::Closed, ReceiverAction::Done),
        ReceiverState::Aborted => (ReceiverState::Aborted, ReceiverAction::Done),
        ReceiverState::Idle => match event {
            ReceiverEvent::Failure(e) => abort_receiver(e),
            ReceiverEvent::Accepted => (
                ReceiverState::Connected { awaiting: HandshakeField::Magic },
                ReceiverAction::Read(4),
            ),
            _ => abort_receiver(TransferError::Io),
        },
        ReceiverState::Connected { awaiting } => match event {
            ReceiverEvent::Failure(e) => abort_receiver(e),
            ReceiverEvent::Bytes(bytes) => receive_handshake_field(awaiting, bytes),
            _ => abort_receiver(TransferError::Io),
        },
        ReceiverState::HandshakeReceived { mat } => match event {
            ReceiverEvent::Failure(e) => abort_receiver(e),
            ReceiverEvent::Bytes(bytes) => receive_header(mat, bytes),
            _ => abort_receiver(TransferError::Io),
        },
        ReceiverState::Streaming { mat, part } => match event {
            ReceiverEvent::Failure(e) => abort_receiver(e),
            ReceiverEvent::Bytes(bytes) => match part {
                FramePart::Header => receive_header(mat, bytes),
                FramePart::Ciphertext { chunk_index, len } => receive_ciphertext(
                    mat,
                    chunk_index,
                    len,
                    bytes,
                ),
            },
            _ => abort_receiver(TransferError::Io),
        },
    }
}

} // verus!
