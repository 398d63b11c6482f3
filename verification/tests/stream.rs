use beamer::constants::{CHUNK_SIZE, END_INDEX, FRAME_HEADER_LEN, TAG_LEN};
use beamer::crypto::{aes_chunk, AesKeyMaterial};
use beamer::error::TransferError;
use beamer::stream::{
    read_frame_header, recv_streaming_message, seal_frame, send_streaming_message,
    write_end_frame, write_frame, FrameHeader,
};

fn sample_material() -> AesKeyMaterial {
    AesKeyMaterial {
        key: [9, 8, 7, 6, 5, 4, 3, 2, 1, 0, 1, 2, 3, 4, 5, 6],
        nonce: [21, 22, 23, 24, 25, 26, 27, 28, 29, 30, 31, 32],
    }
}

fn pattern(len: usize) -> Vec<u8> {
    (0..len).map(|i| (i % 251) as u8).collect()
}

fn sent(mat: &AesKeyMaterial, input: &[u8]) -> Vec<u8> {
    let mut out = Vec::new();
    assert_eq!(send_streaming_message(&mut out, mat, input), Ok(()));
    out
}

fn received(mat: &AesKeyMaterial, stream: &[u8]) -> (Vec<u8>, Result<(), TransferError>) {
    let mut out = Vec::new();
    let res = recv_streaming_message(stream, mat, &mut out);
    (out, res)
}

const END_FRAME: [u8; 8] = [0xFF, 0xFF, 0xFF, 0xFF, 0, 0, 0, 0];

#[test]
fn the_sizes_are_those_of_the_format() {
    assert_eq!(CHUNK_SIZE, 64 * 1024);
    assert_eq!(END_INDEX, 0xFFFF_FFFF);
    assert_eq!(FRAME_HEADER_LEN, 8);
    assert_eq!(TAG_LEN, 16);
}

#[test]
fn write_frame_puts_index_length_and_ciphertext() {
    let mut out = vec![0xEEu8];
    write_frame(&mut out, 0x0102_0304, &[0xAA, 0xBB, 0xCC]);
    assert_eq!(out, vec![0xEE, 1, 2, 3, 4, 0, 0, 0, 3, 0xAA, 0xBB, 0xCC]);
}

#[test]
fn write_end_frame_puts_the_reserved_index_and_length_zero() {
    let mut out = Vec::new();
    write_end_frame(&mut out);
    assert_eq!(out, END_FRAME.to_vec());
}

#[test]
fn read_frame_header_tells_data_from_end() {
    let stream = [0u8, 0, 0, 5, 0, 0, 1, 0, 0xFF, 0xFF, 0xFF, 0xFF, 0, 0, 0, 0];
    assert_eq!(
        read_frame_header(&stream, 0),
        Ok(FrameHeader::Data { chunk_index: 5, len: 256 })
    );
    assert_eq!(read_frame_header(&stream, 8), Ok(FrameHeader::End));
    assert_eq!(read_frame_header(&stream, 9), Err(TransferError::Io));
    assert_eq!(read_frame_header(&stream[..7], 0), Err(TransferError::Io));
}

#[test]
fn only_the_reserved_index_with_length_zero_is_the_end() {
    let reserved_with_data = [0xFFu8, 0xFF, 0xFF, 0xFF, 0, 0, 0, 16];
    assert_eq!(
        read_frame_header(&reserved_with_data, 0),
        Ok(FrameHeader::Data { chunk_index: u32::MAX, len: 16 })
    );
    let empty_chunk = [0u8, 0, 0, 7, 0, 0, 0, 0];
    assert_eq!(
        read_frame_header(&empty_chunk, 0),
        Ok(FrameHeader::Data { chunk_index: 7, len: 0 })
    );
}

#[test]
fn seal_frame_is_the_frame_of_the_sealed_chunk() {
    let mat = sample_material();
    let sealed = aes_chunk(b"hello world", true, &mat, 3).unwrap();
    let mut expected = vec![0u8, 0, 0, 3, 0, 0, 0, 27];
    expected.extend_from_slice(&sealed);
    assert_eq!(seal_frame(&mat, 3, b"hello world"), Ok(expected));
}

#[test]
fn hello_world_is_one_data_frame_and_the_end_frame() {
    let mat = sample_material();
    let wire = sent(&mat, b"hello world");
    assert_eq!(wire.len(), 8 + 27 + 8);
    assert_eq!(&wire[0..4], &[0, 0, 0, 0]);
    assert_eq!(&wire[4..8], &[0, 0, 0, 27]);
    assert_eq!(&wire[8..35], &aes_chunk(b"hello world", true, &mat, 0).unwrap()[..]);
    assert_eq!(&wire[35..], &END_FRAME);
    assert_eq!(received(&mat, &wire), (b"hello world".to_vec(), Ok(())));
}

#[test]
fn three_full_chunks_are_three_data_frames_and_the_end_frame() {
    let mat = sample_material();
    let input = pattern(3 * CHUNK_SIZE);
    let wire = sent(&mat, &input);
    let frame_len = 8 + CHUNK_SIZE + 16;
    assert_eq!(wire.len(), 3 * frame_len + 8);
    for index in 0..3usize {
        let at = index * frame_len;
        assert_eq!(
            read_frame_header(&wire, at),
            Ok(FrameHeader::Data { chunk_index: index as u32, len: (CHUNK_SIZE + 16) as u32 })
        );
        let chunk = &input[index * CHUNK_SIZE..(index + 1) * CHUNK_SIZE];
        assert_eq!(
            &wire[at + 8..at + frame_len],
            &aes_chunk(chunk, true, &mat, index as u32).unwrap()[..]
        );
    }
    assert_eq!(&wire[3 * frame_len..], &END_FRAME);
    assert_eq!(received(&mat, &wire), (input, Ok(())));
}

#[test]
fn an_empty_input_is_the_end_frame_alone() {
    let mat = sample_material();
    let wire = sent(&mat, &[]);
    assert_eq!(wire, END_FRAME.to_vec());
    assert_eq!(received(&mat, &wire), (Vec::new(), Ok(())));
}

#[test]
fn the_last_chunk_may_be_short() {
    let mat = sample_material();
    let input = pattern(CHUNK_SIZE + 1);
    let wire = sent(&mat, &input);
    assert_eq!(wire.len(), (8 + CHUNK_SIZE + 16) + (8 + 1 + 16) + 8);
    assert_eq!(
        read_frame_header(&wire, 8 + CHUNK_SIZE + 16),
        Ok(FrameHeader::Data { chunk_index: 1, len: 17 })
    );
    assert_eq!(received(&mat, &wire), (input, Ok(())));
}

#[test]
fn what_is_sent_is_received_again() {
    let mat = sample_material();
    for len in [0usize, 1, 15, 16, 17, 4095, CHUNK_SIZE - 1, CHUNK_SIZE, CHUNK_SIZE + 1, 2 * CHUNK_SIZE, 2 * CHUNK_SIZE + 77] {
        let input = pattern(len);
        let wire = sent(&mat, &input);
        assert_eq!(received(&mat, &wire), (input, Ok(())), "length {}", len);
    }
}

#[test]
fn send_streaming_message_appends() {
    let mat = sample_material();
    let mut out = vec![1u8, 2, 3];
    assert_eq!(send_streaming_message(&mut out, &mat, b"abc"), Ok(()));
    assert_eq!(&out[..3], &[1, 2, 3]);
    assert_eq!(&out[3..], &sent(&mat, b"abc")[..]);
}

#[test]
fn recv_streaming_message_appends() {
    let mat = sample_material();
    let wire = sent(&mat, b"abc");
    let mut out = b"xyz".to_vec();
    assert_eq!(recv_streaming_message(&wire, &mat, &mut out), Ok(()));
    assert_eq!(out, b"xyzabc".to_vec());
}

#[test]
fn the_end_frame_stops_the_receiver_whatever_follows() {
    let mat = sample_material();
    let mut wire = sent(&mat, b"hello world");
    wire.extend_from_slice(&[0xDE, 0xAD, 0xBE, 0xEF]);
    wire.extend_from_slice(&sent(&mat, b"a second stream"));
    assert_eq!(received(&mat, &wire), (b"hello world".to_vec(), Ok(())));
    let mut only_end = END_FRAME.to_vec();
    only_end.extend_from_slice(&[1, 2, 3, 4, 5, 6, 7, 8, 9]);
    assert_eq!(received(&mat, &only_end), (Vec::new(), Ok(())));
}

#[test]
fn a_stream_without_end_frame_is_an_io_failure() {
    let mat = sample_material();
    let wire = sent(&mat, b"hello world");
    for len in 0..wire.len() {
        let (out, res) = received(&mat, &wire[..len]);
        assert_eq!(res, Err(TransferError::Io), "length {}", len);
        if len < 35 {
            assert_eq!(out, Vec::<u8>::new());
        } else {
            assert_eq!(out, b"hello world".to_vec());
        }
    }
}

#[test]
fn a_tampered_frame_aborts_with_what_came_before() {
    let mat = sample_material();
    let input = pattern(2 * CHUNK_SIZE + 5);
    let mut wire = sent(&mat, &input);
    let second_body = (8 + CHUNK_SIZE + 16) + 8;
    wire[second_body + 100] ^= 0x01;
    let (out, res) = received(&mat, &wire);
    assert_eq!(res, Err(TransferError::Authentication));
    assert_eq!(out, input[..CHUNK_SIZE].to_vec());
}

#[test]
fn flipping_any_bit_of_a_transmitted_ciphertext_is_detected() {
    let mat = sample_material();
    let wire = sent(&mat, b"hello world");
    for byte in 8..35 {
        for bit in 0..8 {
            let mut tampered = wire.clone();
            tampered[byte] ^= 1 << bit;
            assert_eq!(
                received(&mat, &tampered),
                (Vec::new(), Err(TransferError::Authentication))
            );
        }
    }
}

#[test]
fn a_frame_under_another_index_fails_authentication() {
    let mat = sample_material();
    let mut wire = sent(&mat, b"hello world");
    wire[3] = 1;
    assert_eq!(received(&mat, &wire), (Vec::new(), Err(TransferError::Authentication)));
}

#[test]
fn the_receiver_goes_by_the_index_that_the_frame_names() {
    let mat = sample_material();
    let mut wire = Vec::new();
    wire.extend_from_slice(&seal_frame(&mat, 41, b"out of ").unwrap());
    wire.extend_from_slice(&seal_frame(&mat, 7, b"order").unwrap());
    wire.extend_from_slice(&seal_frame(&mat, u32::MAX, b"!").unwrap());
    write_end_frame(&mut wire);
    assert_eq!(received(&mat, &wire), (b"out of order!".to_vec(), Ok(())));
}

#[test]
fn a_data_frame_without_ciphertext_fails_authentication() {
    let mat = sample_material();
    let mut wire = vec![0u8, 0, 0, 0, 0, 0, 0, 0];
    wire.extend_from_slice(&END_FRAME);
    assert_eq!(received(&mat, &wire), (Vec::new(), Err(TransferError::Authentication)));
}

#[test]
fn a_declared_length_beyond_the_stream_is_an_io_failure() {
    let mat = sample_material();
    let wire = [0u8, 0, 0, 0, 0xFF, 0xFF, 0xFF, 0xFF, 1, 2, 3];
    assert_eq!(received(&mat, &wire), (Vec::new(), Err(TransferError::Io)));
}

#[test]
fn receiving_under_other_key_material_fails_authentication() {
    let mat = sample_material();
    let wire = sent(&mat, b"hello world");
    let mut other = mat;
    other.key[0] ^= 0x80;
    assert_eq!(received(&other, &wire), (Vec::new(), Err(TransferError::Authentication)));
}
