//! Error values surfaced by the frame codec.
//!
//! `ConstructionError` reports a caller-supplied invalid shape when building
//! a frame. `CanError` is the structured form of a bus-level fault carried
//! by an error frame; its variants hold the raw payload codes so that the
//! error-frame codec can map each case to and from its wire bit pattern.

use vstd::prelude::*;

verus! {

/// An error while constructing a frame.
///
/// These conditions are local and recoverable: they are returned as values,
/// never raised as panics.
#[derive(Debug, Copy, Clone, PartialEq, Eq, Structural, Hash)]
pub enum ConstructionError {
    /// The payload is longer than the frame kind's capacity.
    TooMuchData,
    /// The conversion was requested against a frame that is not in the
    /// right state, such as building a remote error frame or mutating an
    /// error frame's payload.
    WrongFrameType,
}

/// A structured bus-level fault, as decoded from (or encoded into) an error
/// frame.
///
/// Each case maps to a distinct low-valued code in the error frame's ID
/// word, with case-specific payload bytes. The one exception is
/// [`CanError::DecodingFailure`]: a caller-supplied decoding failure has no
/// canonical bit pattern and encodes to code 0, so that direction of the
/// conversion is deliberately lossy.
#[derive(Debug, Copy, Clone, PartialEq, Eq, Structural, Hash)]
pub enum CanError {
    /// TX timeout by the network device (code `0x0001`).
    TransmitTimeout,
    /// Arbitration was lost; the payload byte 0 holds the bit position at
    /// which arbitration was lost (code `0x0002`).
    LostArbitration(u8),
    /// A problem in the CAN controller; the payload byte 1 holds the
    /// controller-specific problem code (code `0x0004`).
    ControllerProblem(u8),
    /// A protocol violation; payload bytes 2 and 3 hold the violation type
    /// and its location (code `0x0008`).
    ProtocolViolation { vtype: u8, location: u8 },
    /// A transceiver error (code `0x0010`).
    TransceiverError,
    /// No acknowledgement was received on transmission (code `0x0020`).
    NoAck,
    /// The controller reached the bus-off state (code `0x0040`).
    BusOff,
    /// A bus error (code `0x0080`).
    BusError,
    /// The controller was restarted (code `0x0100`).
    Restarted,
    /// A received error frame could not be decoded.
    ///
    /// This case has no bit pattern of its own: it encodes to code 0, so
    /// it does not round-trip through the error-frame codec.
    DecodingFailure,
    /// An error code with no assigned case; the value is the raw error
    /// bits from the frame's ID word.
    Unknown(u32),
}

} // verus!
