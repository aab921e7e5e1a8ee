//! Payloads of external peripherals: camera, companion computer, lidar,
//! vision tags and ultra-wideband anchors.

pub mod camera;
pub mod lidar;
pub mod system;
pub mod tag;
pub mod uwb;
