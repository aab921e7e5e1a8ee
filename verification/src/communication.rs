//! Byte-level transport: cursor reader and writer, CRC16, the framing state
//! machine that turns a byte stream into validated frames, the dispatcher
//! from validated frames to decoded payloads, and the outbound frame builder.

pub mod crc16;
pub mod extractor;
pub mod handler;
pub mod messaging;
pub mod receiver;
pub mod serializer;
pub mod transfer;
