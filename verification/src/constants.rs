//! Sizes and literals of the wire format.

use vstd::prelude::*;

verus! {

/// Largest plaintext that one data frame carries.
pub const CHUNK_SIZE: usize = 65536;

/// Tag that opens every handshake: the ASCII letters `AES1`.
pub const MAGIC: [u8; 4] = [0x41, 0x45, 0x53, 0x31];

/// The one protocol version in use.
pub const VERSION: u8 = 1;

/// Length of the authentication tag that sealing adds to a chunk.
pub const TAG_LEN: usize = 16;

/// Length of the handshake payload: key, then base nonce.
pub const PAYLOAD_LEN: u32 = 28;

/// Length of a whole handshake message.
pub const HANDSHAKE_LEN: usize = 37;

/// Length of the header that precedes the ciphertext of a frame.
pub const FRAME_HEADER_LEN: usize = 8;

/// Chunk index reserved for the end frame.
pub const END_INDEX: u32 = 0xFFFF_FFFF;

} // verus!
