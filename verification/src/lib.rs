//! A point-to-point datagram message transport: messages are serialized to a
//! fixed little-endian wire encoding, compressed with zstd, and handed to the
//! caller's socket layer as ready-made frames; inbound frames are decompressed,
//! decoded, and dispatched to a registered handler. Socket acquisition retries
//! on adjacent ports when the preferred port is taken.
//!
//! The crate itself performs no network I/O: it produces the exact bytes to
//! send and consumes the exact bytes received, so an I/O layer around it stays
//! a thin loop.

pub mod acquire;
pub mod codec;
pub mod endpoint;
pub mod error;
pub mod msg;
pub mod transport;
