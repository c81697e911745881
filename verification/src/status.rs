//! The decoded fields of the slave status register and the device status
//! model derived from them.
use vstd::prelude::*;

verus! {

/// Lifecycle state of an EtherCAT slave, carried in the low nibble of byte 0
/// of the status register. The wire codes are not contiguous: Op is 8, not 5,
/// so each state is an explicit enumerated code, not an ordinal.
#[derive(Debug, Clone, Copy, PartialEq, Eq, Structural)]
pub enum EcState {
    Init,
    PreOp,
    Boot,
    SafeOp,
    Op,
}

impl EcState {
    /// Numeric wire code of this state.
    pub open spec fn spec_code(self) -> u8 {
        match self {
            EcState::Init => 1,
            EcState::PreOp => 2,
            EcState::Boot => 3,
            EcState::SafeOp => 4,
            EcState::Op => 8,
        }
    }

    /// The state encoded by a lifecycle nibble, or `None` for a nibble
    /// outside the enumerated set.
    pub open spec fn spec_from_code(x: u8) -> Option<EcState> {
        if x == 1 {
            Some(EcState::Init)
        } else if x == 2 {
            Some(EcState::PreOp)
        } else if x == 3 {
            Some(EcState::Boot)
        } else if x == 4 {
            Some(EcState::SafeOp)
        } else if x == 8 {
            Some(EcState::Op)
        } else {
            None
        }
    }

    pub fn code(self) -> (r: u8)
        ensures
            r == self.spec_code(),
    {
        match self {
            EcState::Init => 1,
            EcState::PreOp => 2,
            EcState::Boot => 3,
            EcState::SafeOp => 4,
            EcState::Op => 8,
        }
    }

    /// Decode a lifecycle nibble; a code outside the enumerated set is
    /// refused rather than aborting.
    pub fn from_code(x: u8) -> (r: Option<EcState>)
        ensures
            r == Self::spec_from_code(x),
    {
        match x {
            1 => Some(EcState::Init),
            2 => Some(EcState::PreOp),
            3 => Some(EcState::Boot),
            4 => Some(EcState::SafeOp),
            8 => Some(EcState::Op),
            _ => None,
        }
    }
}

/// Error state of the slave, carried in the high nibble of byte 0 of the
/// status register (the raw byte value is the code shifted left by four).
#[derive(Debug, Clone, Copy, PartialEq, Eq, Structural)]
pub enum EcErrState {
    NoErr,
    GeneralErr,
    VprsErr,
    InitErr,
    Disabled,
}

impl EcErrState {
    /// Nibble code of this error state (before the on-wire shift).
    pub open spec fn spec_code(self) -> u8 {
        match self {
            EcErrState::NoErr => 0,
            EcErrState::GeneralErr => 1,
            EcErrState::VprsErr => 2,
            EcErrState::InitErr => 4,
            EcErrState::Disabled => 8,
        }
    }

    /// The error state encoded by a nibble, or `None` for a nibble outside
    /// the enumerated set.
    pub open spec fn spec_from_code(x: u8) -> Option<EcErrState> {
        if x == 0 {
            Some(EcErrState::NoErr)
        } else if x == 1 {
            Some(EcErrState::GeneralErr)
        } else if x == 2 {
            Some(EcErrState::VprsErr)
        } else if x == 4 {
            Some(EcErrState::InitErr)
        } else if x == 8 {
            Some(EcErrState::Disabled)
        } else {
            None
        }
    }

    pub fn from_code(x: u8) -> (r: Option<EcErrState>)
        ensures
            r == Self::spec_from_code(x),
    {
        match x {
            0 => Some(EcErrState::NoErr),
            1 => Some(EcErrState::GeneralErr),
            2 => Some(EcErrState::VprsErr),
            4 => Some(EcErrState::InitErr),
            8 => Some(EcErrState::Disabled),
            _ => None,
        }
    }
}

/// Link state of the slave, carried in the low nibble of byte 1 of the
/// status register.
#[derive(Debug, Clone, Copy, PartialEq, Eq, Structural)]
pub enum EcLinkState {
    LinkOk,
    NotPresent,
    LinkError,
    MissLink,
    UnexpectedLink,
}

impl EcLinkState {
    /// Nibble code of this link state.
    pub open spec fn spec_code(self) -> u8 {
        match self {
            EcLinkState::LinkOk => 0,
            EcLinkState::NotPresent => 1,
            EcLinkState::LinkError => 2,
            EcLinkState::MissLink => 4,
            EcLinkState::UnexpectedLink => 8,
        }
    }

    /// The link state encoded by a nibble, or `None` for a nibble outside
    /// the enumerated set.
    pub open spec fn spec_from_code(x: u8) -> Option<EcLinkState> {
        if x == 0 {
            Some(EcLinkState::LinkOk)
        } else if x == 1 {
            Some(EcLinkState::NotPresent)
        } else if x == 2 {
            Some(EcLinkState::LinkError)
        } else if x == 4 {
            Some(EcLinkState::MissLink)
        } else if x == 8 {
            Some(EcLinkState::UnexpectedLink)
        } else {
            None
        }
    }

    pub fn from_code(x: u8) -> (r: Option<EcLinkState>)
        ensures
            r == Self::spec_from_code(x),
    {
        match x {
            0 => Some(EcLinkState::LinkOk),
            1 => Some(EcLinkState::NotPresent),
            2 => Some(EcLinkState::LinkError),
            4 => Some(EcLinkState::MissLink),
            8 => Some(EcLinkState::UnexpectedLink),
            _ => None,
        }
    }
}

/// Link port of the slave, carried in the high nibble of byte 1 of the
/// status register.
#[derive(Debug, Clone, Copy, PartialEq, Eq, Structural)]
pub enum EcLinkPort {
    NoPort,
    ComPortA,
    ComPortB,
    ComPortC,
    ComPortD,
}

impl EcLinkPort {
    /// Nibble code of this link port.
    pub open spec fn spec_code(self) -> u8 {
        match self {
            EcLinkPort::NoPort => 0,
            EcLinkPort::ComPortA => 1,
            EcLinkPort::ComPortB => 2,
            EcLinkPort::ComPortC => 4,
            EcLinkPort::ComPortD => 8,
        }
    }

    /// The link port encoded by a nibble, or `None` for a nibble outside
    /// the enumerated set.
    pub open spec fn spec_from_code(x: u8) -> Option<EcLinkPort> {
        if x == 0 {
            Some(EcLinkPort::NoPort)
        } else if x == 1 {
            Some(EcLinkPort::ComPortA)
        } else if x == 2 {
            Some(EcLinkPort::ComPortB)
        } else if x == 4 {
            Some(EcLinkPort::ComPortC)
        } else if x == 8 {
            Some(EcLinkPort::ComPortD)
        } else {
            None
        }
    }

    pub fn from_code(x: u8) -> (r: Option<EcLinkPort>)
        ensures
            r == Self::spec_from_code(x),
    {
        match x {
            0 => Some(EcLinkPort::NoPort),
            1 => Some(EcLinkPort::ComPortA),
            2 => Some(EcLinkPort::ComPortB),
            4 => Some(EcLinkPort::ComPortC),
            8 => Some(EcLinkPort::ComPortD),
            _ => None,
        }
    }
}

/// Full decoded fault record of a slave whose error state or link state
/// deviates from `Ok`. All four decoded fields are retained here, while a
/// healthy status keeps only the lifecycle state.
#[derive(Debug, Clone, Copy, PartialEq, Eq, Structural)]
pub struct EcSDeviceError {
    pub ec_state: EcState,
    pub ec_err_state: EcErrState,
    pub link_state: EcLinkState,
    pub link_port: EcLinkPort,
}

/// Status of the device as derived from one status-register read: healthy
/// (error state and link state both `Ok`) with its lifecycle state, or a
/// fault record with all four decoded fields. A healthy status deliberately
/// drops link and port detail: both are implied `Ok`.
#[derive(Debug, Clone, Copy, PartialEq, Eq, Structural)]
pub enum DeviceStatus {
    Healthy(EcState),
    Fault(EcSDeviceError),
}

} // verus!
