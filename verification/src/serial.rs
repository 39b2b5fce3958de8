//! The serial device behind the COM1/COM2 port.
//!
//! The port number comes from the BIOS Data Area where one is recorded,
//! with a fixed fallback; the rights over the eight ports of the device
//! must be delegated into the roottask's I/O map once. This module decides
//! both — which port to use and when the delegation is due — and builds
//! the request words. Driving the UART behind the port is machine I/O and
//! lives in unverified glue.

use vstd::prelude::*;

use crate::bda::BiosDataArea;
use crate::debugcon::delegate_port_rights;
use crate::init::InitState;
use crate::pd_ctrl::spec_delegate_request;
use crate::syscall::SyscallRequest;

verus! {

/// Default port of the serial COM1 device.
pub const DEFAULT_COM1_PORT: u16 = 0x3f8;

/// The serial port the BDA names: COM1 where recorded, else COM2 where
/// recorded, else the default COM1 port.
pub open spec fn spec_serial_port(bda: BiosDataArea) -> u16 {
    if bda.com_1_port != 0 {
        bda.com_1_port
    } else if bda.com_2_port != 0 {
        bda.com_2_port
    } else {
        DEFAULT_COM1_PORT
    }
}

/// Finds the serial port from the BIOS Data Area, using the same mechanism
/// as the kernel does internally. This doesn't work on modern UEFI boot
/// flows by default, where the BDA holds zeroes and the default answers.
pub fn find_serial_port(bda: &BiosDataArea) -> (r: u16)
    ensures
        r == spec_serial_port(*bda),
{
    if bda.com_1_port != 0 {
        bda.com_1_port
    } else if bda.com_2_port != 0 {
        bda.com_2_port
    } else {
        DEFAULT_COM1_PORT
    }
}

/// Builds the `pd_ctrl_delegate` request that delegates the rights for the
/// I/O ports of the serial device behind `port` into the I/O map of the
/// roottask.
pub fn delegate_serial_port_rights(port: u16) -> (r: SyscallRequest)
    ensures
        r == crate::debugcon::spec_port_delegation_request(port),
{
    delegate_port_rights(port)
}

/// Picks the serial port the BDA names and, the first time, returns the
/// delegation request for the rights over it: on an uninitialized state
/// the request is returned and the state advances to ready; afterwards no
/// further request is issued.
pub fn get_serial_port_request(state: &mut InitState, bda: &BiosDataArea) -> (r: (
    u16,
    Option<SyscallRequest>,
))
    ensures
        r.0 == spec_serial_port(*bda),
        *old(state) == InitState::Uninitialized ==> r.1 == Some(
            crate::debugcon::spec_port_delegation_request(spec_serial_port(*bda)),
        ) && *final(state) == InitState::Ready,
        *old(state) == InitState::Ready ==> r.1 is None && *final(state) == InitState::Ready,
{
    let port = find_serial_port(bda);
    if matches!(*state, InitState::Uninitialized) {
        *state = InitState::Ready;
        (port, Some(delegate_serial_port_rights(port)))
    } else {
        (port, None)
    }
}

} // verus!
