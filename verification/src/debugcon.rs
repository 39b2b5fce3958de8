//! QEMU's debugcon device.
//!
//! The debug console is a write-only pseudo device behind one fixed I/O
//! port. Before the port can be written, the rights over it must be
//! delegated into the roottask's I/O map once; this module decides when
//! that delegation is due and builds its request words. Writing bytes to
//! the port is machine I/O and lives in unverified glue.

use vstd::prelude::*;

use crate::capability::{crd_word, CrdPortIO, PortIOCapPermissions};
use crate::init::InitState;
use crate::pd_ctrl::{
    delegate_flags_word, pd_ctrl_delegate_request, spec_delegate_request, DelegateFlags,
};
use crate::syscall::SyscallRequest;
use crate::ROOTTASK_CAPSEL;

verus! {

/// The fixed I/O port of QEMU's debugcon device.
pub const QEMU_DEBUGCON_PORT: u16 = 0xe9;

/// Handle for QEMU's debugcon port, handed out once the delegation of the
/// port rights has been arranged.
#[derive(Debug, Copy, Clone)]
pub struct DebugconPort;

/// The delegation request for the rights over the eight I/O ports starting
/// at the given one: the roottask delegates to itself, from the hypervisor
/// domain, read/write access with order 3. Eight ports at once, because a
/// serial device occupies eight hardware registers.
pub open spec fn spec_port_delegation_request(port: u16) -> SyscallRequest {
    spec_delegate_request(
        ROOTTASK_CAPSEL,
        ROOTTASK_CAPSEL,
        crd_word(2, port as u64, 3, 1),
        delegate_flags_word(true, false, false, true, 0),
        crd_word(2, port as u64, 3, 1),
    )
}

/// Builds the `pd_ctrl_delegate` request that delegates the rights for the
/// I/O ports of the device behind `port` into the I/O map of the roottask.
pub fn delegate_port_rights(port: u16) -> (r: SyscallRequest)
    ensures
        r == spec_port_delegation_request(port),
{
    pd_ctrl_delegate_request(
        ROOTTASK_CAPSEL,
        ROOTTASK_CAPSEL,
        CrdPortIO::new(port, 3, PortIOCapPermissions::read_write()),
        CrdPortIO::new(port, 3, PortIOCapPermissions::read_write()),
        DelegateFlags::new(true, false, false, true, 0),
    )
}

/// Hands out the debugcon port handle, together with the delegation
/// request that is due the first time: on an uninitialized state the
/// request for the debugcon port rights is returned and the state advances
/// to ready; afterwards no further request is issued.
pub fn get_debugcon_port(state: &mut InitState) -> (r: (DebugconPort, Option<SyscallRequest>))
    ensures
        *old(state) == InitState::Uninitialized ==> r.1 == Some(
            spec_port_delegation_request(QEMU_DEBUGCON_PORT),
        ) && *final(state) == InitState::Ready,
        *old(state) == InitState::Ready ==> r.1 is None && *final(state) == InitState::Ready,
{
    if matches!(*state, InitState::Uninitialized) {
        *state = InitState::Ready;
        (DebugconPort, Some(delegate_port_rights(QEMU_DEBUGCON_PORT)))
    } else {
        (DebugconPort, None)
    }
}

} // verus!
