//! The receiver's observable state and the sub-phase of the frame being
//! assembled.

use vstd::prelude::*;

verus! {

/// Where the receiver stands with respect to whole frames.
#[derive(Clone, Copy, Debug, PartialEq, Eq, Structural)]
pub enum State {
    /// No partial frame; the next byte must open one.
    Ready,
    /// A partial frame is being consumed.
    Receiving,
    /// A complete, CRC-valid frame is held for the consumer.
    Loaded,
    /// One step failed; the stepper resets to `Ready` before returning.
    Failure,
}

/// The phase of the frame the next byte belongs to.
#[derive(Clone, Copy, Debug, PartialEq, Eq, Structural)]
pub enum Section {
    /// The two fixed start-marker bytes.
    Start,
    /// The four header bytes.
    Header,
    /// The payload bytes.
    Data,
    /// The two CRC bytes.
    End,
}

} // verus!
