//! Codec for the fixed-layout 2-byte slave status register. Byte 0 carries
//! the lifecycle-state code in its low nibble and the error-state code in
//! its high nibble; byte 1 carries the link-state code in its low nibble and
//! the link-port code in its high nibble.
use vstd::prelude::*;

use crate::errors::{DecodeError, StatusField};
use crate::status::{DeviceStatus, EcErrState, EcLinkPort, EcLinkState, EcSDeviceError, EcState};

verus! {

/// Low nibble of a byte.
pub open spec fn low_nibble(b: u8) -> u8 {
    (b % 16) as u8
}

/// High nibble of a byte.
pub open spec fn high_nibble(b: u8) -> u8 {
    (b / 16) as u8
}

/// What decoding a raw status word yields: the device status, or the first
/// nibble (in field order: lifecycle, error state, link state, link port)
/// that falls outside its enumerated set. A healthy status is produced
/// exactly when both the error-state and the link-state nibbles decode to
/// their `Ok` codes.
pub open spec fn spec_decode(b0: u8, b1: u8) -> Result<DeviceStatus, DecodeError> {
    match (
        EcState::spec_from_code(low_nibble(b0)),
        EcErrState::spec_from_code(high_nibble(b0)),
        EcLinkState::spec_from_code(low_nibble(b1)),
        EcLinkPort::spec_from_code(high_nibble(b1)),
    ) {
        (None, _, _, _) => Err(DecodeError { field: StatusField::Lifecycle, value: low_nibble(b0) }),
        (_, None, _, _) => Err(DecodeError { field: StatusField::ErrState, value: high_nibble(b0) }),
        (_, _, None, _) => Err(DecodeError { field: StatusField::LinkState, value: low_nibble(b1) }),
        (_, _, _, None) => Err(DecodeError { field: StatusField::LinkPort, value: high_nibble(b1) }),
        (Some(state), Some(err), Some(link), Some(port)) => {
            if err == EcErrState::NoErr && link == EcLinkState::LinkOk {
                Ok(DeviceStatus::Healthy(state))
            } else {
                Ok(
                    DeviceStatus::Fault(
                        EcSDeviceError {
                            ec_state: state,
                            ec_err_state: err,
                            link_state: link,
                            link_port: port,
                        },
                    ),
                )
            }
        },
    }
}

/// Decode the raw 2-byte status register into a device status. A nibble
/// outside its enumerated set yields a typed `DecodeError`, never a panic.
pub fn decode(b0: u8, b1: u8) -> (r: Result<DeviceStatus, DecodeError>)
    ensures
        r == spec_decode(b0, b1),
{
    let sn = b0 % 16;
    let en = b0 / 16;
    let ln = b1 % 16;
    let pn = b1 / 16;
    match (
        EcState::from_code(sn),
        EcErrState::from_code(en),
        EcLinkState::from_code(ln),
        EcLinkPort::from_code(pn),
    ) {
        (None, _, _, _) => Err(DecodeError { field: StatusField::Lifecycle, value: sn }),
        (_, None, _, _) => Err(DecodeError { field: StatusField::ErrState, value: en }),
        (_, _, None, _) => Err(DecodeError { field: StatusField::LinkState, value: ln }),
        (_, _, _, None) => Err(DecodeError { field: StatusField::LinkPort, value: pn }),
        (Some(state), Some(err), Some(link), Some(port)) => {
            if err == EcErrState::NoErr && link == EcLinkState::LinkOk {
                Ok(DeviceStatus::Healthy(state))
            } else {
                Ok(
                    DeviceStatus::Fault(
                        EcSDeviceError {
                            ec_state: state,
                            ec_err_state: err,
                            link_state: link,
                            link_port: port,
                        },
                    ),
                )
            }
        },
    }
}

/// The little-endian 16-bit register image that requests a transition to
/// `target`: its numeric code in the low byte, zero in the high byte.
pub open spec fn spec_encode(target: EcState) -> Seq<u8> {
    seq![target.spec_code(), 0u8]
}

/// Encode a requested lifecycle state as the 2-byte little-endian register
/// image suitable for a status-register write.
pub fn encode(target: EcState) -> (r: Vec<u8>)
    ensures
        r@ == spec_encode(target),
{
    let mut out: Vec<u8> = Vec::new();
    out.push(target.code());
    out.push(0);
    proof {
        assert(out@ =~= spec_encode(target));
    }
    out
}

/// A second status byte is healthy when its link-state nibble is the `Ok`
/// code and its link-port nibble is in the enumerated set.
pub open spec fn healthy_byte1(b1: u8) -> bool {
    &&& low_nibble(b1) == 0
    &&& EcLinkPort::spec_from_code(high_nibble(b1)) is Some
}

/// Round trip: for every lifecycle state, decoding the low byte of its
/// encoding together with any healthy second byte yields exactly
/// `Healthy` of that state.
pub proof fn lemma_encode_decode_round_trip(v: EcState, b1: u8)
    requires
        healthy_byte1(b1),
    ensures
        spec_decode(spec_encode(v)[0], b1) == Ok::<DeviceStatus, DecodeError>(
            DeviceStatus::Healthy(v),
        ),
{
    assert(spec_encode(v)[0] == v.spec_code());
}

/// Any nibble outside its enumerated set makes decoding fail with a typed
/// error: there is no raw word on which decoding both misses a bad nibble
/// and still produces a status.
pub proof fn lemma_invalid_nibble_rejected(b0: u8, b1: u8)
    requires
        ({
            ||| EcState::spec_from_code(low_nibble(b0)) is None
            ||| EcErrState::spec_from_code(high_nibble(b0)) is None
            ||| EcLinkState::spec_from_code(low_nibble(b1)) is None
            ||| EcLinkPort::spec_from_code(high_nibble(b1)) is None
        }),
    ensures
        spec_decode(b0, b1) is Err,
{
}

} // verus!
