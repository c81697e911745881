//! Shared error taxonomy of the controller and the uploader. A device that
//! reports an error or bad-link state is not represented here: that is a
//! normal `DeviceStatus::Fault` outcome, surfaced as data, not as an error.
use vstd::prelude::*;

verus! {

/// The four nibble fields of the status register, naming where a decode
/// fault was found.
#[derive(Debug, Clone, Copy, PartialEq, Eq, Structural)]
pub enum StatusField {
    Lifecycle,
    ErrState,
    LinkState,
    LinkPort,
}

/// A nibble of the status register fell outside its enumerated set. The
/// offending nibble value is reported; decoding never aborts the process.
#[derive(Debug, Clone, Copy, PartialEq, Eq, Structural)]
pub struct DecodeError {
    pub field: StatusField,
    pub value: u8,
}

/// A transport-level failure: a response shorter than the field that had to
/// be decoded from it, or a fault forwarded unchanged from the transport
/// collaborator with its numeric code and message.
#[derive(Debug, Clone, PartialEq, Eq)]
pub enum TransportFault {
    ShortRead,
    Forwarded { code: u32, message: String },
}

/// An error that aborts the current operation and bubbles to the caller
/// unmodified: no local recovery is attempted.
#[derive(Debug, Clone, PartialEq, Eq)]
pub enum EcError {
    /// A status-register nibble was outside its enumerated set.
    Decode(DecodeError),
    /// The transport failed or returned too short a response.
    Transport(TransportFault),
    /// The FoE open exchange returned the invalid handle zero.
    NoHandleFault,
}

} // verus!
