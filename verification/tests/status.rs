use ec_control::{EcErrState, EcLinkPort, EcLinkState, EcState};

#[test]
fn lifecycle_codes() {
    assert_eq!(EcState::Init.code(), 1);
    assert_eq!(EcState::PreOp.code(), 2);
    assert_eq!(EcState::Boot.code(), 3);
    assert_eq!(EcState::SafeOp.code(), 4);
    // The codes are not contiguous: Op is 8, not 5.
    assert_eq!(EcState::Op.code(), 8);
}

#[test]
fn lifecycle_from_code() {
    assert_eq!(EcState::from_code(1), Some(EcState::Init));
    assert_eq!(EcState::from_code(2), Some(EcState::PreOp));
    assert_eq!(EcState::from_code(3), Some(EcState::Boot));
    assert_eq!(EcState::from_code(4), Some(EcState::SafeOp));
    assert_eq!(EcState::from_code(8), Some(EcState::Op));
    assert_eq!(EcState::from_code(0), None);
    assert_eq!(EcState::from_code(5), None);
    assert_eq!(EcState::from_code(15), None);
}

#[test]
fn err_state_from_code() {
    assert_eq!(EcErrState::from_code(0), Some(EcErrState::NoErr));
    assert_eq!(EcErrState::from_code(1), Some(EcErrState::GeneralErr));
    assert_eq!(EcErrState::from_code(2), Some(EcErrState::VprsErr));
    assert_eq!(EcErrState::from_code(4), Some(EcErrState::InitErr));
    assert_eq!(EcErrState::from_code(8), Some(EcErrState::Disabled));
    assert_eq!(EcErrState::from_code(3), None);
    assert_eq!(EcErrState::from_code(5), None);
}

#[test]
fn link_state_from_code() {
    assert_eq!(EcLinkState::from_code(0), Some(EcLinkState::LinkOk));
    assert_eq!(EcLinkState::from_code(1), Some(EcLinkState::NotPresent));
    assert_eq!(EcLinkState::from_code(2), Some(EcLinkState::LinkError));
    assert_eq!(EcLinkState::from_code(4), Some(EcLinkState::MissLink));
    assert_eq!(EcLinkState::from_code(8), Some(EcLinkState::UnexpectedLink));
    assert_eq!(EcLinkState::from_code(5), None);
    assert_eq!(EcLinkState::from_code(6), None);
}

#[test]
fn link_port_from_code() {
    assert_eq!(EcLinkPort::from_code(0), Some(EcLinkPort::NoPort));
    assert_eq!(EcLinkPort::from_code(1), Some(EcLinkPort::ComPortA));
    assert_eq!(EcLinkPort::from_code(2), Some(EcLinkPort::ComPortB));
    assert_eq!(EcLinkPort::from_code(4), Some(EcLinkPort::ComPortC));
    assert_eq!(EcLinkPort::from_code(8), Some(EcLinkPort::ComPortD));
    assert_eq!(EcLinkPort::from_code(5), None);
    assert_eq!(EcLinkPort::from_code(12), None);
}
