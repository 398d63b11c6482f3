//! Point-to-point confidential stream transfer: the wire protocol.
//!
//! A session opens with a handshake that carries fresh AES-128-GCM key
//! material, continues with length-prefixed frames that each hold one sealed
//! chunk of the stream, and ends with a reserved end frame. Everything here
//! works on bytes in memory; moving those bytes over a connection is left to
//! the program around the library.

pub mod constants;
pub mod error;
pub mod framing;
pub mod crypto;
pub mod handshake;
pub mod stream;
pub mod pipeline;
