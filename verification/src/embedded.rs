//! Transport capability traits.
//!
//! These traits are the contract between this data model and an external
//! transport (a socket interface or a hardware peripheral): the transport
//! implements them, code above the transport boundary consumes them.

use vstd::prelude::*;

use crate::id::Id;

verus! {

/// A CAN 2.0 frame.
///
/// Each implementing type fixes its payload capacity and exposes its flag
/// state through the specification functions, so that callers can reason
/// about any frame generically.
pub trait Frame: Sized {
    /// The largest payload, in bytes, a frame of this kind can carry.
    spec fn spec_capacity() -> usize;

    /// Whether this frame uses the 29-bit extended ID format.
    spec fn spec_is_extended(&self) -> bool;

    /// Whether this frame is a remote transmission request.
    spec fn spec_is_remote_frame(&self) -> bool;

    /// Whether this frame is a data frame.
    spec fn spec_is_data_frame(&self) -> bool;

    /// The frame identifier.
    spec fn spec_id(&self) -> Id;

    /// The data length code.
    spec fn spec_dlc(&self) -> usize;

    /// The frame payload bytes.
    spec fn spec_data(&self) -> Seq<u8>;

    /// Creates a new frame.
    ///
    /// Returns `None` if the data slice is longer than the frame kind's
    /// capacity; it never panics and never truncates.
    fn new(id: Id, data: &[u8]) -> (r: Option<Self>)
        ensures
            data@.len() > Self::spec_capacity() ==> r is None,
    ;

    /// Creates a new remote frame (RTR bit set).
    ///
    /// Returns `None` if the data length code (DLC) is not valid for the
    /// frame kind. The DLC of a remote frame is the number of bytes
    /// requested from the responder, not a payload length.
    fn new_remote(id: Id, dlc: usize) -> (r: Option<Self>)
        ensures
            dlc > Self::spec_capacity() ==> r is None,
    ;

    /// Returns true if this frame is an extended frame.
    fn is_extended(&self) -> (r: bool)
        ensures
            r == self.spec_is_extended(),
    ;

    /// Returns true if this frame is a standard frame.
    fn is_standard(&self) -> (r: bool)
        ensures
            r == !self.spec_is_extended(),
    ;

    /// Returns true if this frame is a remote frame.
    fn is_remote_frame(&self) -> (r: bool)
        ensures
            r == self.spec_is_remote_frame(),
    ;

    /// Returns true if this frame is a data frame.
    fn is_data_frame(&self) -> (r: bool)
        ensures
            r == self.spec_is_data_frame(),
    ;

    /// Returns the frame identifier.
    fn id(&self) -> (r: Id)
        ensures
            r == self.spec_id(),
    ;

    /// Returns the data length code (DLC).
    ///
    /// For data frames the DLC value always matches the length of the data.
    /// Remote frames do not carry any data, yet the DLC can be greater
    /// than 0.
    fn dlc(&self) -> (r: usize)
        ensures
            r == self.spec_dlc(),
    ;

    /// Returns the frame data.
    fn data(&self) -> (r: &[u8])
        ensures
            r@ == self.spec_data(),
    ;
}

/// A non-blocking CAN interface that is able to transmit and receive frames.
pub trait NbCan {
    /// Associated frame type.
    type Frame: Frame;

    /// Associated error type.
    type Error: Error;

    /// Puts a frame in the transmit buffer to be sent on the bus.
    ///
    /// If the transmit buffer is full, this function will try to replace a
    /// pending lower priority frame and return the frame that was replaced.
    /// Fails with the transport's would-block error if the transmit buffer
    /// is full and no frame can be replaced.
    ///
    /// # Notes for implementers
    ///
    /// * Frames of equal identifier shall be transmitted in FIFO fashion
    ///   when more than one transmit buffer is available.
    /// * When replacing pending frames make sure the frame is not in the
    ///   process of being sent to the bus.
    fn transmit(&mut self, frame: &Self::Frame) -> Result<Option<Self::Frame>, Self::Error>;

    /// Returns a received frame if available.
    fn receive(&mut self) -> Result<Self::Frame, Self::Error>;
}

/// A blocking CAN interface that is able to transmit and receive frames.
pub trait Can {
    /// Associated frame type.
    type Frame: Frame;

    /// Associated error type.
    type Error: Error;

    /// Puts a frame in the transmit buffer. Blocks until space is available
    /// in the transmit buffer.
    fn transmit(&mut self, frame: &Self::Frame) -> Result<(), Self::Error>;

    /// Blocks until a frame was received or an error occurred.
    fn receive(&mut self) -> Result<Self::Frame, Self::Error>;
}

/// A transport-level error.
pub trait Error {
    /// The generic kind this error classifies itself into.
    spec fn spec_kind(&self) -> ErrorKind;

    /// Convert error to a generic error kind.
    ///
    /// By using this method, errors freely defined by transport
    /// implementations can be converted to a set of generic errors upon
    /// which generic code can act. The classification is total: every
    /// error value yields a kind.
    fn kind(&self) -> (r: ErrorKind)
        ensures
            r == self.spec_kind(),
    ;
}

impl Error for core::convert::Infallible {
    open spec fn spec_kind(&self) -> ErrorKind {
        ErrorKind::Other
    }

    /// No value of `Infallible` exists, so this is never reached.
    fn kind(&self) -> (r: ErrorKind) {
        ErrorKind::Other
    }
}

/// Generic transport error kind.
///
/// This represents a common set of transport operation errors. Transport
/// implementations are free to define more specific or additional error
/// types. However, by providing a mapping to these common errors, generic
/// code can still react to them.
#[derive(Debug, Copy, Clone, PartialEq, Eq, Structural, Ord, PartialOrd, Hash)]
#[non_exhaustive]
pub enum ErrorKind {
    /// The peripheral receive buffer was overrun.
    Overrun,
    /// Received data does not conform to the peripheral configuration.
    /// Can be caused by a misconfigured device on either end of the line.
    FrameFormat,
    /// Parity check failed.
    Parity,
    /// The line is too noisy to read valid data.
    Noise,
    /// A different error occurred. The original error may contain more
    /// information.
    Other,
}

impl Error for ErrorKind {
    open spec fn spec_kind(&self) -> ErrorKind {
        *self
    }

    fn kind(&self) -> (r: ErrorKind) {
        *self
    }
}

impl ErrorKind {
    /// A human-readable description of the error kind.
    pub fn message(&self) -> (r: String)
        ensures
            *self == ErrorKind::Overrun ==> r@ == "The peripheral receive buffer was overrun"@,
            *self == ErrorKind::FrameFormat ==> r@
                == "Received data does not conform to the peripheral configuration"@,
            *self == ErrorKind::Parity ==> r@ == "Parity check failed"@,
            *self == ErrorKind::Noise ==> r@ == "Serial line is too noisy to read valid data"@,
            *self == ErrorKind::Other ==> r@
                == "A different error occurred. The original error may contain more information"@,
    {
        match self {
            ErrorKind::Overrun => String::from_str("The peripheral receive buffer was overrun"),
            ErrorKind::FrameFormat => String::from_str(
                "Received data does not conform to the peripheral configuration",
            ),
            ErrorKind::Parity => String::from_str("Parity check failed"),
            ErrorKind::Noise => String::from_str("Serial line is too noisy to read valid data"),
            ErrorKind::Other => String::from_str(
                "A different error occurred. The original error may contain more information",
            ),
        }
    }
}

} // verus!
