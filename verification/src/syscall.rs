//! Generic typings for the kernel's syscall interface.
//!
//! A privileged call hands the kernel five machine words and receives two
//! back: a status word whose low byte encodes a [`SyscallStatus`], and a
//! payload word. Everything here is pure value computation: the machine
//! transfer itself is performed by unverified glue, which passes the raw
//! outcome back into [`interpret_syscall_result`].

use vstd::prelude::*;

verus! {

/// Enumerates the kernel's syscall entry points. The number of a syscall is
/// carried in the low byte of the first request word.
#[derive(Debug, Copy, Clone, PartialEq, Eq, Structural)]
pub enum SyscallNum {
    Call,
    Reply,
    CreatePd,
    CreateEc,
    CreateSc,
    CreatePt,
    CreateSm,
    Revoke,
    PdCtrl,
    EcCtrl,
    ScCtrl,
    PtCtrl,
    SmCtrl,
    AssignPci,
    AssignGsi,
    MachineCtrl,
}

impl SyscallNum {
    /// The wire number of this syscall.
    pub open spec fn spec_val(self) -> u64 {
        match self {
            SyscallNum::Call => 0,
            SyscallNum::Reply => 1,
            SyscallNum::CreatePd => 2,
            SyscallNum::CreateEc => 3,
            SyscallNum::CreateSc => 4,
            SyscallNum::CreatePt => 5,
            SyscallNum::CreateSm => 6,
            SyscallNum::Revoke => 7,
            SyscallNum::PdCtrl => 8,
            SyscallNum::EcCtrl => 9,
            SyscallNum::ScCtrl => 10,
            SyscallNum::PtCtrl => 11,
            SyscallNum::SmCtrl => 12,
            SyscallNum::AssignPci => 13,
            SyscallNum::AssignGsi => 14,
            SyscallNum::MachineCtrl => 15,
        }
    }

    /// Returns the raw unsigned integer value.
    pub fn val(self) -> (r: u64)
        ensures
            r == self.spec_val(),
    {
        match self {
            SyscallNum::Call => 0,
            SyscallNum::Reply => 1,
            SyscallNum::CreatePd => 2,
            SyscallNum::CreateEc => 3,
            SyscallNum::CreateSc => 4,
            SyscallNum::CreatePt => 5,
            SyscallNum::CreateSm => 6,
            SyscallNum::Revoke => 7,
            SyscallNum::PdCtrl => 8,
            SyscallNum::EcCtrl => 9,
            SyscallNum::ScCtrl => 10,
            SyscallNum::PtCtrl => 11,
            SyscallNum::SmCtrl => 12,
            SyscallNum::AssignPci => 13,
            SyscallNum::AssignGsi => 14,
            SyscallNum::MachineCtrl => 15,
        }
    }
}

/// Enumerates the sub-operations of the `PdCtrl` syscall. The sub-number is
/// carried in bits `[8,10)` of the first request word.
#[derive(Debug, Copy, Clone, PartialEq, Eq, Structural)]
pub enum PdCtrlSubSyscall {
    PdCtrlDelegate,
    PdCtrlMsgAccess,
}

impl PdCtrlSubSyscall {
    /// The wire number of this sub-syscall.
    pub open spec fn spec_val(self) -> u64 {
        match self {
            PdCtrlSubSyscall::PdCtrlDelegate => 2,
            PdCtrlSubSyscall::PdCtrlMsgAccess => 3,
        }
    }

    /// Returns the raw unsigned integer value.
    pub fn val(self) -> (r: u64)
        ensures
            r == self.spec_val(),
    {
        match self {
            PdCtrlSubSyscall::PdCtrlDelegate => 2,
            PdCtrlSubSyscall::PdCtrlMsgAccess => 3,
        }
    }
}

/// Possible return values of a syscall. All except [`SyscallStatus::Success`]
/// are error codes.
#[derive(Debug, Copy, Clone, PartialEq, Eq, Structural)]
pub enum SyscallStatus {
    /// The operation completed successfully.
    Success,
    /// The operation timed out.
    Timeout,
    /// The operation was aborted.
    Abort,
    /// An invalid hypercall was called.
    BadHyp,
    /// A hypercall referred to an empty or otherwise invalid capability.
    BadCap,
    /// A hypercall used invalid parameters.
    BadPar,
    /// An invalid feature was requested.
    BadFtr,
    /// A portal capability was used on the wrong CPU.
    BadCpu,
    /// An invalid device ID was passed.
    BadDev,
}

/// Only the lowest 8 bits of the kernel's raw return value encode the status.
pub const SYSCALL_STATUS_BITMASK: u64 = 0xff;

impl SyscallStatus {
    /// The wire code of this status.
    pub open spec fn spec_val(self) -> u64 {
        match self {
            SyscallStatus::Success => 0,
            SyscallStatus::Timeout => 1,
            SyscallStatus::Abort => 2,
            SyscallStatus::BadHyp => 3,
            SyscallStatus::BadCap => 4,
            SyscallStatus::BadPar => 5,
            SyscallStatus::BadFtr => 6,
            SyscallStatus::BadCpu => 7,
            SyscallStatus::BadDev => 8,
        }
    }

    /// Returns the raw unsigned integer value.
    pub fn val(self) -> (r: u64)
        ensures
            r == self.spec_val(),
    {
        match self {
            SyscallStatus::Success => 0,
            SyscallStatus::Timeout => 1,
            SyscallStatus::Abort => 2,
            SyscallStatus::BadHyp => 3,
            SyscallStatus::BadCap => 4,
            SyscallStatus::BadPar => 5,
            SyscallStatus::BadFtr => 6,
            SyscallStatus::BadCpu => 7,
            SyscallStatus::BadDev => 8,
        }
    }

    /// The status a wire code stands for.
    pub open spec fn spec_from_val(val: u64) -> SyscallStatus
        recommends
            val <= 8,
    {
        if val == 0 {
            SyscallStatus::Success
        } else if val == 1 {
            SyscallStatus::Timeout
        } else if val == 2 {
            SyscallStatus::Abort
        } else if val == 3 {
            SyscallStatus::BadHyp
        } else if val == 4 {
            SyscallStatus::BadCap
        } else if val == 5 {
            SyscallStatus::BadPar
        } else if val == 6 {
            SyscallStatus::BadFtr
        } else if val == 7 {
            SyscallStatus::BadCpu
        } else {
            SyscallStatus::BadDev
        }
    }

    /// Constructs the status encoded in the low byte of a raw kernel return
    /// value. Any other bit of the word is insignificant and ignored.
    pub fn from_raw(raw: u64) -> (r: SyscallStatus)
        requires
            raw & SYSCALL_STATUS_BITMASK <= 8,
        ensures
            r == SyscallStatus::spec_from_val(raw & SYSCALL_STATUS_BITMASK),
            r.spec_val() == raw & SYSCALL_STATUS_BITMASK,
    {
        let masked = raw & SYSCALL_STATUS_BITMASK;
        if masked == 0 {
            SyscallStatus::Success
        } else if masked == 1 {
            SyscallStatus::Timeout
        } else if masked == 2 {
            SyscallStatus::Abort
        } else if masked == 3 {
            SyscallStatus::BadHyp
        } else if masked == 4 {
            SyscallStatus::BadCap
        } else if masked == 5 {
            SyscallStatus::BadPar
        } else if masked == 6 {
            SyscallStatus::BadFtr
        } else if masked == 7 {
            SyscallStatus::BadCpu
        } else {
            SyscallStatus::BadDev
        }
    }
}

/// The five machine words of one privileged call, fully packed and ready to
/// be moved into the kernel's argument registers by the caller.
#[derive(Debug, Copy, Clone, PartialEq, Eq, Structural)]
pub struct SyscallRequest {
    /// Packs the syscall number, the sub-syscall number and the source
    /// domain selector.
    pub word1: u64,
    /// The destination domain selector.
    pub word2: u64,
    /// The encoded source CRD.
    pub word3: u64,
    /// The encoded delegation flags.
    pub word4: u64,
    /// The encoded destination CRD.
    pub word5: u64,
}

/// Decodes the two words a privileged call returns. On success the payload
/// word is handed back; on failure the decoded status comes with it.
pub fn interpret_syscall_result(out1: u64, out2: u64) -> (r: Result<u64, (SyscallStatus, u64)>)
    requires
        out1 & SYSCALL_STATUS_BITMASK <= 8,
    ensures
        r is Ok <==> out1 & SYSCALL_STATUS_BITMASK == 0,
        r is Ok ==> r->Ok_0 == out2,
        r is Err ==> r->Err_0.0 == SyscallStatus::spec_from_val(out1 & SYSCALL_STATUS_BITMASK)
            && r->Err_0.1 == out2,
{
    let status = SyscallStatus::from_raw(out1);
    if status == SyscallStatus::Success {
        Ok(out2)
    } else {
        Err((status, out2))
    }
}

} // verus!
