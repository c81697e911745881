//! Control of an EtherCAT slave device over an ADS transport: a codec for the
//! 2-byte slave status register, a state-request controller that drives the
//! device lifecycle state machine, and a File-over-EtherCAT (FoE) upload
//! sequence. The transport round trips themselves are performed by the
//! surrounding application; this crate holds the verified protocol logic.
mod codec;
mod controller;
mod errors;
mod foe;
mod status;

pub use codec::{decode, encode};
pub use controller::{
    CachedStatus, ReqDirective, ReqPhase, RequestOutcome, StateController, StateRequest,
    POLL_INTERVAL_MS, STATUS_REGISTER_GROUP,
};
pub use errors::{DecodeError, EcError, StatusField, TransportFault};
pub use foe::{
    FoeDirective, FoePhase, FoeUpload, FOE_CLOSE_GROUP, FOE_OPEN_WRITE_GROUP, FOE_READ_LEN,
    FOE_WRITE_GROUP, MAX_CHUNK_LEN,
};
pub use status::{DeviceStatus, EcErrState, EcLinkPort, EcLinkState, EcSDeviceError, EcState};
