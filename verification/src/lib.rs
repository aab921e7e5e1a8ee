//! Host-side engine for a little-endian framed serial protocol used by a
//! family of small drones and their peripherals.
//!
//! The crate covers the wire level only: cursor-based little-endian byte
//! readers and writers, the CRC16 that guards every frame, the framing state
//! machine that turns a byte stream into validated frames, the codec for each
//! payload kind, the dispatcher that maps a header to a decoded payload, the
//! frame builder for outbound datagrams, and the firmware-image container
//! used by the update flow.  Serial-port and file input/output stay outside.

pub mod communication;
pub mod file;
pub mod properties;
pub mod protocol;
pub mod system;
pub mod wire;
