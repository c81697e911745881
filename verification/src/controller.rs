//! Controller of the slave lifecycle state machine. It caches the last
//! decoded device status and decides, step by step, how a state request
//! proceeds: refresh first, write the encoded target only when the device is
//! not already there, then poll until the target is observed or a fault is.
//!
//! The transport round trips themselves (register reads and writes over the
//! administrative-scope connection, and the fixed-interval pause between
//! polls) are performed by the surrounding application, which follows the
//! directives issued here and feeds every outcome back in as a plain value.
use vstd::prelude::*;

use crate::codec::{spec_decode, spec_encode, decode, encode};
use crate::errors::{EcError, TransportFault};
use crate::status::{DeviceStatus, EcSDeviceError, EcState};

verus! {

/// Register group of the slave status register. The offset of every status
/// read and write is the device's numeric address.
pub const STATUS_REGISTER_GROUP: u32 = 0x0000_0009;

/// Fixed interval, in milliseconds, that the poll loop waits between two
/// status reads. There is deliberately no timeout and no maximum iteration
/// count: the loop runs until the target state or a fault is observed, so a
/// caller needing bounded wait time must bound it externally.
pub const POLL_INTERVAL_MS: u64 = 100;

/// Last known device status: unknown before the first successful refresh,
/// afterwards always the most recently decoded status, overwritten whole on
/// every refresh and never merged with prior values.
#[derive(Debug, Clone, Copy, PartialEq, Eq, Structural)]
pub enum CachedStatus {
    Uninitialized,
    Known(DeviceStatus),
}

/// What a completed state request reports: the target state was reached, or
/// the device itself reported a fault. A device fault is a legitimate
/// domain outcome surfaced as data, not an error.
#[derive(Debug, Clone, Copy, PartialEq, Eq, Structural)]
pub enum RequestOutcome {
    Reached,
    DeviceFault(EcSDeviceError),
}

/// Where a state request stands between two transport round trips.
#[derive(Debug, Clone, Copy, PartialEq, Eq, Structural)]
pub enum ReqPhase {
    /// Nothing done yet: the first refresh must establish current truth.
    InitialRefresh,
    /// The device is not in the target state: the encoded target must be
    /// written to the status register.
    WriteRequest,
    /// The write went out: status is re-read on the fixed interval.
    Polling,
    /// The request is over with the recorded outcome.
    Complete(RequestOutcome),
}

/// The next transport round trip a state request asks for.
pub enum ReqDirective {
    /// Read 2 bytes of the status register.
    ReadStatus,
    /// Write this 2-byte register image to the status register.
    WriteStatus(Vec<u8>),
    /// Wait one poll interval, then read the status register.
    WaitThenRead,
    /// The request is complete; no further round trip.
    Stop,
}

/// Owner of the cached device status. It holds no connection itself: each
/// status read is handed in as the plain outcome of the round trip.
#[derive(Debug)]
pub struct StateController {
    pub cached: CachedStatus,
}

/// What one refresh makes of the raw outcome of a 2-byte status read: the
/// decoded status, or the error that aborts the operation. A response
/// shorter than 2 bytes is a transport fault; a bad nibble is a decode
/// error; a fault of the transport itself is forwarded unchanged.
pub open spec fn spec_refresh_result(read: Result<Vec<u8>, TransportFault>) -> Result<
    DeviceStatus,
    EcError,
> {
    match read {
        Ok(bytes) => if bytes@.len() < 2 {
            Err(EcError::Transport(TransportFault::ShortRead))
        } else {
            match spec_decode(bytes@[0], bytes@[1]) {
                Ok(st) => Ok(st),
                Err(de) => Err(EcError::Decode(de)),
            }
        },
        Err(tf) => Err(EcError::Transport(tf)),
    }
}

impl StateController {
    /// A fresh controller knows nothing of the device yet.
    pub fn new() -> (r: StateController)
        ensures
            r.cached == CachedStatus::Uninitialized,
    {
        StateController { cached: CachedStatus::Uninitialized }
    }

    /// Digest the outcome of a 2-byte status-register read. On a full,
    /// decodable response the cache is overwritten with the decoded status;
    /// on any error the cache is left exactly as it was and the error is
    /// returned: a short read is reported, never silently ignored.
    pub fn refresh_with(&mut self, read: Result<Vec<u8>, TransportFault>) -> (r: Result<
        DeviceStatus,
        EcError,
    >)
        ensures
            r == spec_refresh_result(read),
            match spec_refresh_result(read) {
                Ok(st) => final(self).cached == CachedStatus::Known(st),
                Err(_) => final(self).cached == old(self).cached,
            },
    {
        match read {
            Ok(bytes) => {
                if bytes.len() < 2 {
                    Err(EcError::Transport(TransportFault::ShortRead))
                } else {
                    match decode(bytes[0], bytes[1]) {
                        Ok(st) => {
                            self.cached = CachedStatus::Known(st);
                            Ok(st)
                        },
                        Err(de) => Err(EcError::Decode(de)),
                    }
                }
            },
            Err(tf) => Err(EcError::Transport(tf)),
        }
    }
}

/// The phase a state request moves to when a refresh observed status `st`.
/// The target state completes the request at once, wherever it stood. Any
/// other status after the initial refresh calls for the register write —
/// even a fault: the write is issued and the poll loop then reports the
/// fault if it persists. While polling, any other healthy status keeps
/// polling, and a fault completes the request with that fault: the poll
/// never spins past a reported fault.
pub open spec fn spec_step(phase: ReqPhase, target: EcState, st: DeviceStatus) -> ReqPhase {
    if st == DeviceStatus::Healthy(target) {
        ReqPhase::Complete(RequestOutcome::Reached)
    } else if phase is InitialRefresh {
        ReqPhase::WriteRequest
    } else {
        match st {
            DeviceStatus::Healthy(_) => ReqPhase::Polling,
            DeviceStatus::Fault(f) => ReqPhase::Complete(RequestOutcome::DeviceFault(f)),
        }
    }
}

/// One request to drive the device into a target lifecycle state. The
/// request advances only on the outcomes handed to it; its directives say
/// which round trip must happen next.
#[derive(Debug)]
pub struct StateRequest {
    pub target: EcState,
    pub phase: ReqPhase,
}

impl StateRequest {
    /// A fresh request always refreshes first, so that the comparison with
    /// the target uses current truth, never a stale cache.
    pub fn new(target: EcState) -> (r: StateRequest)
        ensures
            r.target == target,
            r.phase == ReqPhase::InitialRefresh,
    {
        StateRequest { target, phase: ReqPhase::InitialRefresh }
    }

    /// The next round trip this request asks for. A register write is
    /// directed in the `WriteRequest` phase alone, and a completed request
    /// directs nothing further.
    pub fn next_directive(&self) -> (d: ReqDirective)
        ensures
            self.phase is InitialRefresh ==> d is ReadStatus,
            self.phase is WriteRequest ==> (d matches ReqDirective::WriteStatus(b) && b@
                == spec_encode(self.target)),
            self.phase is Polling ==> d is WaitThenRead,
            self.phase is Complete ==> d is Stop,
    {
        match self.phase {
            ReqPhase::InitialRefresh => ReqDirective::ReadStatus,
            ReqPhase::WriteRequest => ReqDirective::WriteStatus(encode(self.target)),
            ReqPhase::Polling => ReqDirective::WaitThenRead,
            ReqPhase::Complete(_) => ReqDirective::Stop,
        }
    }

    /// Digest the outcome of a directed status read, refreshing the
    /// controller's cache and advancing the request. A transport fault or a
    /// decode error aborts the whole request unmodified, with the cache and
    /// the phase left as they were and no further polling directed by the
    /// caller.
    pub fn on_status_read(
        &mut self,
        ctrl: &mut StateController,
        read: Result<Vec<u8>, TransportFault>,
    ) -> (r: Result<(), EcError>)
        requires
            old(self).phase is InitialRefresh || old(self).phase is Polling,
        ensures
            final(self).target == old(self).target,
            match spec_refresh_result(read) {
                Ok(st) => {
                    &&& r is Ok
                    &&& final(ctrl).cached == CachedStatus::Known(st)
                    &&& final(self).phase == spec_step(old(self).phase, old(self).target, st)
                },
                Err(e) => {
                    &&& r == Err::<(), EcError>(e)
                    &&& final(ctrl).cached == old(ctrl).cached
                    &&& final(self).phase == old(self).phase
                },
            },
    {
        match ctrl.refresh_with(read) {
            Ok(st) => {
                if st == DeviceStatus::Healthy(self.target) {
                    self.phase = ReqPhase::Complete(RequestOutcome::Reached);
                } else if matches!(self.phase, ReqPhase::InitialRefresh) {
                    self.phase = ReqPhase::WriteRequest;
                } else {
                    match st {
                        DeviceStatus::Healthy(_) => {
                            self.phase = ReqPhase::Polling;
                        },
                        DeviceStatus::Fault(f) => {
                            self.phase = ReqPhase::Complete(RequestOutcome::DeviceFault(f));
                        },
                    }
                }
                Ok(())
            },
            Err(e) => Err(e),
        }
    }

    /// Note that the directed register write completed: polling begins.
    pub fn on_write_done(&mut self)
        requires
            old(self).phase is WriteRequest,
        ensures
            final(self).target == old(self).target,
            final(self).phase == ReqPhase::Polling,
    {
        self.phase = ReqPhase::Polling;
    }
}

/// A request whose refresh observes the target state completes at once with
/// success. In particular, when the very first refresh already finds the
/// device in the target state, the request never enters the write phase:
/// zero register writes are directed.
pub proof fn lemma_request_already_in_target(phase: ReqPhase, target: EcState)
    ensures
        spec_step(phase, target, DeviceStatus::Healthy(target)) == ReqPhase::Complete(
            RequestOutcome::Reached,
        ),
{
}

/// A fault observed while polling completes the request at once with that
/// fault, whether or not the fault has anything to do with reaching the
/// target: the poll loop never spins past a reported fault.
pub proof fn lemma_poll_stops_on_fault(target: EcState, f: EcSDeviceError)
    ensures
        spec_step(ReqPhase::Polling, target, DeviceStatus::Fault(f)) == ReqPhase::Complete(
            RequestOutcome::DeviceFault(f),
        ),
{
}

} // verus!
