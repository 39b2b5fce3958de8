//! The BIOS Data Area (BDA).
//!
//! The BDA is a fixed low-memory structure whose first words name the I/O
//! ports of the serial devices. It is needed to find the serial port on
//! real hardware, where it might not sit at the default address; modern
//! UEFI boot flows do not fill it. This module builds the delegation
//! request that maps the page holding the BDA into the roottask's address
//! space; reading the mapped memory is left to unverified glue, which
//! hands the two port words back as a [`BiosDataArea`] value.

use vstd::prelude::*;

use crate::capability::{crd_word, CrdMem, MemCapPermissions};
use crate::pd_ctrl::{
    delegate_flags_word, pd_ctrl_delegate_request, spec_delegate_request, DelegateFlags,
};
use crate::syscall::SyscallRequest;
use crate::ROOTTASK_CAPSEL;

verus! {

/// Physical address of the BDA.
pub const BIOS_DATA_AREA_ADDRESS: u64 = 0x0400;

/// Page number of [`BIOS_DATA_AREA_ADDRESS`]: physical frame 0.
pub const BIOS_DATA_AREA_ADDRESS_PAGE_NUM: u64 = BIOS_DATA_AREA_ADDRESS / 4096;

/// The virtual address the BDA gets mapped to.
pub const DEST_ADDR: u64 = 0x1000_0000;

/// Page number of [`DEST_ADDR`].
pub const DEST_ADDR_PAGE_NUM: u64 = DEST_ADDR / 4096;

/// The two words of the BIOS Data Area this crate reads: the I/O ports of
/// the first two serial devices, zero where a device is absent.
#[derive(Debug, Copy, Clone, PartialEq, Eq, Structural)]
pub struct BiosDataArea {
    /// I/O port of the COM1 serial device, or zero.
    pub com_1_port: u16,
    /// I/O port of the COM2 serial device, or zero.
    pub com_2_port: u16,
}

/// The delegation request that maps the BDA's page: the roottask delegates
/// to itself, from the hypervisor's identity mapping, read access to
/// physical frame 0 at the destination page.
pub open spec fn spec_bda_mapping_request() -> SyscallRequest {
    spec_delegate_request(
        ROOTTASK_CAPSEL,
        ROOTTASK_CAPSEL,
        crd_word(1, BIOS_DATA_AREA_ADDRESS_PAGE_NUM, 0, 1),
        delegate_flags_word(true, false, false, true, 0),
        crd_word(1, DEST_ADDR_PAGE_NUM, 0, 1),
    )
}

/// Builds the `pd_ctrl_delegate` request that maps the memory page of the
/// BDA to [`DEST_ADDR`].
pub fn map_boot_data_area_request() -> (r: SyscallRequest)
    ensures
        r == spec_bda_mapping_request(),
{
    pd_ctrl_delegate_request(
        ROOTTASK_CAPSEL,
        ROOTTASK_CAPSEL,
        CrdMem::new(BIOS_DATA_AREA_ADDRESS_PAGE_NUM, 0, MemCapPermissions::read()),
        CrdMem::new(DEST_ADDR_PAGE_NUM, 0, MemCapPermissions::read()),
        DelegateFlags::new(true, false, false, true, 0),
    )
}

/// The virtual address the mapped BDA is readable at: the destination page
/// plus the BDA's offset within its frame.
pub fn bda_virtual_address() -> (r: u64)
    ensures
        r == 0x1000_0400,
{
    proof {
        assert(0x1000_0000u64 | (0x0400u64 & 0xfff) == 0x1000_0400) by (bit_vector);
    }
    DEST_ADDR | (BIOS_DATA_AREA_ADDRESS & 0xfff)
}

} // verus!
