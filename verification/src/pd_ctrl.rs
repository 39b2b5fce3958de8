//! Typings for the `PD_CTRL_DELEGATE` syscall.
//!
//! The syscall transfers memory, port I/O and object capabilities from one
//! protection domain to another. This module builds the five request words
//! of such a call — validating the domain selectors first, so that an
//! out-of-range selector never reaches the kernel — and decodes the
//! kernel's answer. Issuing the machine transfer itself is left to
//! unverified glue around this crate.

use vstd::prelude::*;

use crate::capability::{CapSel, Crd};
use crate::syscall::{
    interpret_syscall_result, PdCtrlSubSyscall, SyscallNum, SyscallRequest, SyscallStatus,
    SYSCALL_STATUS_BITMASK,
};
use crate::NUM_CAP_SEL;

verus! {

/// Carries additional information for a transfer or delegation call,
/// packed into one machine word.
///
/// Bit 0 is always set: it tags the typed item as a delegation (the
/// alternative tag is retired). Bit 8 stores the *inverse* of the
/// host-page-table flag, bit 9 the device-page-table flag, bit 10 the
/// guest-page-table flag, bit 11 the hypervisor-source flag, and bits
/// `[12,64)` the hotspot.
#[derive(Copy, Clone, Debug)]
pub struct DelegateFlags(u64);

/// The encoded word a flags value with the given fields carries. The
/// host-page-table argument is stored inverted; the hotspot is truncated to
/// the 52 bits that fit above the flag bits.
pub open spec fn delegate_flags_word(
    in_host_pt: bool,
    in_device_pt: bool,
    in_guest_pt: bool,
    use_hypervisor_as_src: bool,
    hotspot: u64,
) -> u64 {
    (1u64 | (if !in_host_pt {
        0x100u64
    } else {
        0u64
    }) | (if in_device_pt {
        0x200u64
    } else {
        0u64
    }) | (if in_guest_pt {
        0x400u64
    } else {
        0u64
    }) | (if use_hypervisor_as_src {
        0x800u64
    } else {
        0u64
    })) | (hotspot << 12)
}

impl View for DelegateFlags {
    type V = u64;

    closed spec fn view(&self) -> u64 {
        self.0
    }
}

impl DelegateFlags {
    /// The mapping goes into the host page table / I/O space, stored as a
    /// cleared bit 8. Only meaningful for memory and I/O delegations.
    pub open spec fn spec_host(self) -> bool {
        self@ & 0x100 == 0
    }

    /// The mapping goes into the device page table, stored in bit 9. Only
    /// meaningful for memory delegations.
    pub open spec fn spec_device(self) -> bool {
        self@ & 0x200 != 0
    }

    /// The mapping goes into the guest page table / I/O space, stored in
    /// bit 10. Only meaningful for memory and I/O delegations.
    pub open spec fn spec_guest(self) -> bool {
        self@ & 0x400 != 0
    }

    /// The source is the hypervisor domain, stored in bit 11. Only
    /// meaningful for the roottask, silently ignored otherwise.
    pub open spec fn spec_hypervisor(self) -> bool {
        self@ & 0x800 != 0
    }

    /// The hotspot, stored in bits `[12,64)`.
    pub open spec fn spec_hotspot(self) -> u64 {
        self@ >> 12
    }

    /// Builds the flags word for one delegation.
    ///
    /// # Parameters
    /// - `in_host_pt`: the mapping goes into the host page table / I/O
    ///   space. Only meaningful for memory and I/O delegations. Stored
    ///   inverted, in bit 8.
    /// - `in_device_pt`: the mapping goes into the device page table. Only
    ///   meaningful for memory delegations.
    /// - `in_guest_pt`: the mapping goes into the guest page table / I/O
    ///   space. Only meaningful for memory and I/O delegations.
    /// - `use_hypervisor_as_src`: the source is the hypervisor domain. Only
    ///   meaningful for the roottask, silently ignored otherwise.
    /// - `hotspot`: disambiguates overlapping send and receive windows, and
    ///   carries auxiliary addressing data for some kinds of delegations.
    pub fn new(
        in_host_pt: bool,
        in_device_pt: bool,
        in_guest_pt: bool,
        use_hypervisor_as_src: bool,
        hotspot: u64,
    ) -> (r: Self)
        ensures
            r@ == delegate_flags_word(
                in_host_pt,
                in_device_pt,
                in_guest_pt,
                use_hypervisor_as_src,
                hotspot,
            ),
    {
        let not_host: u64 = if !in_host_pt {
            0x100
        } else {
            0
        };
        let device: u64 = if in_device_pt {
            0x200
        } else {
            0
        };
        let guest: u64 = if in_guest_pt {
            0x400
        } else {
            0
        };
        let hypervisor: u64 = if use_hypervisor_as_src {
            0x800
        } else {
            0
        };
        DelegateFlags((1u64 | not_host | device | guest | hypervisor) | (hotspot << 12))
    }

    /// Returns the encoded flags word.
    pub fn val(self) -> (r: u64)
        ensures
            r == self@,
    {
        self.0
    }

    /// Whether the mapping goes into the host page table / I/O space: the
    /// logical reading of the inverted bit 8.
    pub fn host(self) -> (r: bool)
        ensures
            r == self.spec_host(),
    {
        (self.0 & 0x100) == 0
    }

    /// Whether the mapping goes into the guest page table / I/O space.
    pub fn guest(self) -> (r: bool)
        ensures
            r == self.spec_guest(),
    {
        (self.0 & 0x400) != 0
    }

    /// Whether the mapping goes into the device page table.
    pub fn device(self) -> (r: bool)
        ensures
            r == self.spec_device(),
    {
        (self.0 & 0x200) != 0
    }

    /// Whether the source is the hypervisor domain.
    pub fn hypervisor(self) -> (r: bool)
        ensures
            r == self.spec_hypervisor(),
    {
        (self.0 & 0x800) != 0
    }

    /// The hotspot used to disambiguate send and receive windows.
    pub fn hotspot(self) -> (r: u64)
        ensures
            r == self.spec_hotspot(),
    {
        self.0 >> 12
    }
}

impl Default for DelegateFlags {
    /// The default suits plain memory and I/O delegations, and is silently
    /// ignored by all others: host page table, no device or guest mapping,
    /// no hypervisor source, hotspot zero.
    fn default() -> (r: Self)
        ensures
            r@ == delegate_flags_word(true, false, false, false, 0),
    {
        Self::new(true, false, false, false, 0)
    }
}

/// Decoding a flags word recovers every argument of [`DelegateFlags::new`]:
/// the host flag comes back un-inverted, and the hotspot truncated to its
/// 52 available bits. The delegation tag bit is always set.
pub proof fn lemma_delegate_flags_round_trip(
    in_host_pt: bool,
    in_device_pt: bool,
    in_guest_pt: bool,
    use_hypervisor_as_src: bool,
    hotspot: u64,
)
    ensures
        delegate_flags_word(in_host_pt, in_device_pt, in_guest_pt, use_hypervisor_as_src, hotspot)
            & 0x100 == 0 <==> in_host_pt,
        delegate_flags_word(in_host_pt, in_device_pt, in_guest_pt, use_hypervisor_as_src, hotspot)
            & 0x200 != 0 <==> in_device_pt,
        delegate_flags_word(in_host_pt, in_device_pt, in_guest_pt, use_hypervisor_as_src, hotspot)
            & 0x400 != 0 <==> in_guest_pt,
        delegate_flags_word(in_host_pt, in_device_pt, in_guest_pt, use_hypervisor_as_src, hotspot)
            & 0x800 != 0 <==> use_hypervisor_as_src,
        delegate_flags_word(in_host_pt, in_device_pt, in_guest_pt, use_hypervisor_as_src, hotspot)
            >> 12 == hotspot & 0x000f_ffff_ffff_ffff,
        delegate_flags_word(in_host_pt, in_device_pt, in_guest_pt, use_hypervisor_as_src, hotspot)
            & 1 == 1,
{
    let not_host: u64 = if !in_host_pt {
        0x100
    } else {
        0
    };
    let device: u64 = if in_device_pt {
        0x200
    } else {
        0
    };
    let guest: u64 = if in_guest_pt {
        0x400
    } else {
        0
    };
    let hypervisor: u64 = if use_hypervisor_as_src {
        0x800
    } else {
        0
    };
    let w = (1u64 | not_host | device | guest | hypervisor) | (hotspot << 12);
    assert((w & 0x100 == 0 <==> not_host == 0) && (w & 0x200 != 0 <==> device != 0) && (w & 0x400
        != 0 <==> guest != 0) && (w & 0x800 != 0 <==> hypervisor != 0) && w >> 12 == hotspot
        & 0x000f_ffff_ffff_ffff && w & 1 == 1) by (bit_vector)
        requires
            not_host == 0 || not_host == 0x100,
            device == 0 || device == 0x200,
            guest == 0 || guest == 0x400,
            hypervisor == 0 || hypervisor == 0x800,
            w == (1u64 | not_host | device | guest | hypervisor) | (hotspot << 12),
    ;
}

/// The first word of a delegation request: the `PdCtrl` syscall number in
/// the low byte, the delegate sub-number in bits `[8,10)`, and the source
/// domain selector shifted left by 12 and masked against bits `[10,64)`.
/// The shift/mask pair is kept exactly as the kernel ABI defines it, even
/// though bits 10 and 11 of the mask are unreachable by the shift.
pub open spec fn delegate_syscall_word1(source_pd: u64) -> u64 {
    (8u64 & 0xff) | ((2u64 << 8) & 0x300) | ((source_pd << 12) & 0xffff_ffff_ffff_fc00)
}

/// The five request words of one `pd_ctrl_delegate` call, as a function of
/// nothing but its arguments.
pub open spec fn spec_delegate_request(
    source_pd: u64,
    dest_pd: u64,
    source_crd: u64,
    flags: u64,
    dest_crd: u64,
) -> SyscallRequest {
    SyscallRequest {
        word1: delegate_syscall_word1(source_pd),
        word2: dest_pd,
        word3: source_crd,
        word4: flags,
        word5: dest_crd,
    }
}

/// Packs the five request words of a `pd_ctrl_delegate` call.
///
/// Both domain selectors must lie below the object-capability bound; the
/// caller who cannot guarantee that uses [`try_pd_ctrl_delegate_request`],
/// which rejects such selectors before any kernel interaction. Source and
/// destination CRD share one specialisation: a delegation can never mix
/// capability families between its send and receive window.
pub fn pd_ctrl_delegate_request<Permissions, Specialization, ObjectSpecialization>(
    source_pd: CapSel,
    dest_pd: CapSel,
    source_crd: Crd<Permissions, Specialization, ObjectSpecialization>,
    dest_crd: Crd<Permissions, Specialization, ObjectSpecialization>,
    flags: DelegateFlags,
) -> (r: SyscallRequest)
    requires
        source_pd < NUM_CAP_SEL,
        dest_pd < NUM_CAP_SEL,
    ensures
        r == spec_delegate_request(source_pd, dest_pd, source_crd@, flags@, dest_crd@),
{
    let mut word1: u64 = 0;
    word1 = word1 | (SyscallNum::PdCtrl.val() & 0xff);
    word1 = word1 | ((PdCtrlSubSyscall::PdCtrlDelegate.val() << 8) & 0x300);
    word1 = word1 | ((source_pd << 12) & 0xffff_ffff_ffff_fc00);
    proof {
        let pd = source_pd;
        assert(((0u64 | (8u64 & 0xff)) | ((2u64 << 8) & 0x300)) | ((pd << 12)
            & 0xffff_ffff_ffff_fc00) == (8u64 & 0xff) | ((2u64 << 8) & 0x300) | ((pd << 12)
            & 0xffff_ffff_ffff_fc00)) by (bit_vector);
    }
    SyscallRequest {
        word1,
        word2: dest_pd,
        word3: source_crd.val(),
        word4: flags.val(),
        word5: dest_crd.val(),
    }
}

/// Packs a `pd_ctrl_delegate` request after validating both domain
/// selectors: a selector at or above the object-capability bound yields
/// `None`, before anything could reach the kernel.
pub fn try_pd_ctrl_delegate_request<Permissions, Specialization, ObjectSpecialization>(
    source_pd: CapSel,
    dest_pd: CapSel,
    source_crd: Crd<Permissions, Specialization, ObjectSpecialization>,
    dest_crd: Crd<Permissions, Specialization, ObjectSpecialization>,
    flags: DelegateFlags,
) -> (r: Option<SyscallRequest>)
    ensures
        r is Some <==> source_pd < NUM_CAP_SEL && dest_pd < NUM_CAP_SEL,
        r is Some ==> r->0 == spec_delegate_request(
            source_pd,
            dest_pd,
            source_crd@,
            flags@,
            dest_crd@,
        ),
{
    if source_pd < NUM_CAP_SEL && dest_pd < NUM_CAP_SEL {
        Some(pd_ctrl_delegate_request(source_pd, dest_pd, source_crd, dest_crd, flags))
    } else {
        None
    }
}

/// The request words are a function of the delegation's arguments alone:
/// two delegations invoked with identical arguments send identical words
/// to the kernel, so repeating a delegation never corrupts any state on
/// this side — no state outlives a single request.
pub proof fn lemma_delegate_request_deterministic(
    source_pd1: u64,
    dest_pd1: u64,
    source_crd1: u64,
    flags1: u64,
    dest_crd1: u64,
    source_pd2: u64,
    dest_pd2: u64,
    source_crd2: u64,
    flags2: u64,
    dest_crd2: u64,
)
    requires
        source_pd1 == source_pd2,
        dest_pd1 == dest_pd2,
        source_crd1 == source_crd2,
        flags1 == flags2,
        dest_crd1 == dest_crd2,
    ensures
        spec_delegate_request(source_pd1, dest_pd1, source_crd1, flags1, dest_crd1)
            == spec_delegate_request(source_pd2, dest_pd2, source_crd2, flags2, dest_crd2),
{
}

/// Decodes the kernel's answer to a `pd_ctrl_delegate` call: success maps
/// to unit and a failure to its status. The secondary payload word is
/// discarded in this protocol by design; callers needing the payload use a
/// different call shape.
pub fn pd_ctrl_delegate_result(out1: u64, out2: u64) -> (r: Result<(), SyscallStatus>)
    requires
        out1 & SYSCALL_STATUS_BITMASK <= 8,
    ensures
        r is Ok <==> out1 & SYSCALL_STATUS_BITMASK == 0,
        r is Err ==> r->Err_0 == SyscallStatus::spec_from_val(out1 & SYSCALL_STATUS_BITMASK),
{
    match interpret_syscall_result(out1, out2) {
        Ok(_) => Ok(()),
        Err((status, _)) => Err(status),
    }
}

} // verus!
