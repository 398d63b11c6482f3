use beamer::constants::{HANDSHAKE_LEN, MAGIC, PAYLOAD_LEN, VERSION};
use beamer::crypto::AesKeyMaterial;
use beamer::error::TransferError;
use beamer::handshake::{
    check_magic, check_payload_len, check_version, read_payload, recv_key_material,
    send_key_material,
};

fn sample_material() -> AesKeyMaterial {
    AesKeyMaterial {
        key: [0, 1, 2, 3, 4, 5, 6, 7, 8, 9, 10, 11, 12, 13, 14, 15],
        nonce: [100, 101, 102, 103, 104, 105, 106, 107, 108, 109, 110, 111],
    }
}

fn sample_handshake() -> Vec<u8> {
    let mut out = Vec::new();
    send_key_material(&mut out, &sample_material());
    out
}

#[test]
fn the_magic_is_aes1_and_the_version_is_one() {
    assert_eq!(&MAGIC, b"AES1");
    assert_eq!(VERSION, 1);
    assert_eq!(PAYLOAD_LEN, 28);
    assert_eq!(HANDSHAKE_LEN, 37);
}

#[test]
fn send_key_material_writes_the_fields_in_order() {
    let out = sample_handshake();
    let mut expected = Vec::new();
    expected.extend_from_slice(b"AES1");
    expected.push(1);
    expected.extend_from_slice(&[0, 0, 0, 28]);
    expected.extend_from_slice(&[0, 1, 2, 3, 4, 5, 6, 7, 8, 9, 10, 11, 12, 13, 14, 15]);
    expected.extend_from_slice(&[100, 101, 102, 103, 104, 105, 106, 107, 108, 109, 110, 111]);
    assert_eq!(out, expected);
    assert_eq!(out.len(), HANDSHAKE_LEN);
}

#[test]
fn send_key_material_appends() {
    let mut out = vec![7u8, 7, 7];
    send_key_material(&mut out, &sample_material());
    assert_eq!(out.len(), 3 + HANDSHAKE_LEN);
    assert_eq!(&out[..3], &[7, 7, 7]);
    assert_eq!(&out[3..], &sample_handshake()[..]);
}

#[test]
fn recv_key_material_gives_back_what_was_sent() {
    let out = sample_handshake();
    assert_eq!(recv_key_material(&out), Ok(sample_material()));
}

#[test]
fn recv_key_material_leaves_the_rest_of_the_stream_alone() {
    let mut out = sample_handshake();
    out.extend_from_slice(&[0xFF, 0xFF, 0xFF, 0xFF, 0, 0, 0, 0, 1, 2, 3]);
    assert_eq!(recv_key_material(&out), Ok(sample_material()));
}

#[test]
fn a_wrong_magic_is_a_protocol_mismatch() {
    for at in 0..4 {
        let mut out = sample_handshake();
        out[at] ^= 0x20;
        assert_eq!(recv_key_material(&out), Err(TransferError::ProtocolMismatch));
    }
    assert_eq!(recv_key_material(b"GET / HTTP/1.1\r\n\r\n"), Err(TransferError::ProtocolMismatch));
}

#[test]
fn a_wrong_magic_is_rejected_before_anything_else_is_read() {
    assert_eq!(recv_key_material(b"AES2"), Err(TransferError::ProtocolMismatch));
    assert_eq!(recv_key_material(b"XXXX\x02"), Err(TransferError::ProtocolMismatch));
}

#[test]
fn a_wrong_version_is_unsupported() {
    for version in [0u8, 2, 3, 0xFF] {
        let mut out = sample_handshake();
        out[4] = version;
        assert_eq!(recv_key_material(&out), Err(TransferError::UnsupportedVersion));
    }
    assert_eq!(recv_key_material(b"AES1\x02"), Err(TransferError::UnsupportedVersion));
}

#[test]
fn a_wrong_payload_length_is_malformed() {
    for len in [0u32, 1, 27, 29, 16, 12, 0x1C00_0000, u32::MAX] {
        let mut out = sample_handshake();
        out[5..9].copy_from_slice(&len.to_be_bytes());
        assert_eq!(recv_key_material(&out), Err(TransferError::MalformedHandshake));
    }
    assert_eq!(
        recv_key_material(b"AES1\x01\x00\x00\x00\x1d"),
        Err(TransferError::MalformedHandshake)
    );
}

#[test]
fn the_first_wrong_field_decides_the_error() {
    let mut out = sample_handshake();
    out[0] = b'B';
    out[4] = 9;
    out[8] = 99;
    assert_eq!(recv_key_material(&out), Err(TransferError::ProtocolMismatch));
    out[0] = b'A';
    assert_eq!(recv_key_material(&out), Err(TransferError::UnsupportedVersion));
    out[4] = 1;
    assert_eq!(recv_key_material(&out), Err(TransferError::MalformedHandshake));
    out[8] = 28;
    assert_eq!(recv_key_material(&out), Ok(sample_material()));
}

#[test]
fn a_stream_that_ends_inside_the_handshake_is_an_io_failure() {
    let out = sample_handshake();
    for len in 0..HANDSHAKE_LEN {
        assert_eq!(recv_key_material(&out[..len]), Err(TransferError::Io), "length {}", len);
    }
    assert!(recv_key_material(&out[..HANDSHAKE_LEN]).is_ok());
}

#[test]
fn check_magic_accepts_only_the_magic() {
    assert_eq!(check_magic(b"AES1"), Ok(()));
    assert_eq!(check_magic(b"AES2"), Err(TransferError::ProtocolMismatch));
    assert_eq!(check_magic(b"aES1"), Err(TransferError::ProtocolMismatch));
    assert_eq!(check_magic(&[0, 0, 0, 0]), Err(TransferError::ProtocolMismatch));
}

#[test]
fn check_version_accepts_only_version_one() {
    assert_eq!(check_version(1), Ok(()));
    assert_eq!(check_version(0), Err(TransferError::UnsupportedVersion));
    assert_eq!(check_version(2), Err(TransferError::UnsupportedVersion));
}

#[test]
fn check_payload_len_accepts_only_28() {
    assert_eq!(check_payload_len(28), Ok(()));
    assert_eq!(check_payload_len(27), Err(TransferError::MalformedHandshake));
    assert_eq!(check_payload_len(29), Err(TransferError::MalformedHandshake));
    assert_eq!(check_payload_len(0), Err(TransferError::MalformedHandshake));
}

#[test]
fn read_payload_splits_key_and_nonce() {
    let out = sample_handshake();
    assert_eq!(read_payload(&out, 9), Ok(sample_material()));
    assert_eq!(read_payload(&out, 10), Err(TransferError::Io));
    assert_eq!(read_payload(&out[..36], 9), Err(TransferError::Io));
    let shifted = read_payload(&out, 8).unwrap();
    assert_eq!(shifted.key[0], 28);
    assert_eq!(shifted.key[1], 0);
    assert_eq!(shifted.nonce[0], 15);
}
