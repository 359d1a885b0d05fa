//! Frame and identifier data model for a CAN (Controller Area Network) bus
//! transport, binary-compatible with the Linux kernel's native frame layout.
//!
//! The crate defines:
//! - validated CAN identifiers (`StandardId`, `ExtendedId`, `Id`) with the
//!   bus arbitration ordering between them;
//! - the capability traits a transport exposes or consumes (`Frame`,
//!   `NbCan`, `Can`, `Error`);
//! - the kernel-compatible binary frame records (`can_frame`, `canfd_frame`)
//!   together with an explicit, checked encoding to and from their byte
//!   layout;
//! - the error-frame codec (`CanErrorFrame`, `CanError`) that maps bus-level
//!   faults to and from their wire representation.

pub mod embedded;
pub mod error;
pub mod frame;
pub mod id;
