//! Errors reported by the encoder and by the stream check.

use vstd::prelude::*;

verus! {

/// Why a frame or a pixel stream was refused.
#[derive(Clone, Copy, Debug, PartialEq, Eq, Structural)]
pub enum ProtocolError {
    /// A coordinate does not fit in 10 bits.
    OutOfRange,
    /// A rectangle ends before it starts along one axis.
    InvertedRect,
    /// A pixel stream does not hold exactly two bytes per pixel of its rectangle.
    ProtocolViolation,
}

} // verus!
