use roottask::capability::{CrdPortIO, PortIOCapPermissions};
use roottask::pd_ctrl::{
    pd_ctrl_delegate_result, try_pd_ctrl_delegate_request, DelegateFlags,
};
use roottask::syscall::{
    interpret_syscall_result, PdCtrlSubSyscall, SyscallNum, SyscallStatus,
};
use roottask::NUM_CAP_SEL;

/// A test double for the privileged-call primitive: records whether it was
/// invoked and answers success.
struct CallRecorder {
    invocations: usize,
}

impl CallRecorder {
    fn new() -> Self {
        CallRecorder { invocations: 0 }
    }

    /// Stands in for the kernel round-trip: takes the packed request,
    /// returns the raw status and payload words of a successful call.
    fn call(&mut self, _request: roottask::syscall::SyscallRequest) -> (u64, u64) {
        self.invocations += 1;
        (0, 0)
    }
}

fn sample_crd() -> CrdPortIO {
    CrdPortIO::new(0x3f8, 3, PortIOCapPermissions::read_write())
}

#[test]
fn delegate_rejects_out_of_range_source_domain() {
    // source_domain == 2^26 fails before any privileged call is issued.
    let mut recorder = CallRecorder::new();
    let request = try_pd_ctrl_delegate_request(
        NUM_CAP_SEL,
        32,
        sample_crd(),
        sample_crd(),
        DelegateFlags::default(),
    );
    if let Some(request) = request {
        recorder.call(request);
    }
    assert!(request.is_none());
    assert_eq!(recorder.invocations, 0);
}

#[test]
fn delegate_rejects_out_of_range_dest_domain() {
    let request = try_pd_ctrl_delegate_request(
        32,
        NUM_CAP_SEL,
        sample_crd(),
        sample_crd(),
        DelegateFlags::default(),
    );
    assert!(request.is_none());
}

#[test]
fn delegate_accepts_boundary_domains() {
    let request = try_pd_ctrl_delegate_request(
        NUM_CAP_SEL - 1,
        NUM_CAP_SEL - 1,
        sample_crd(),
        sample_crd(),
        DelegateFlags::default(),
    );
    assert!(request.is_some());
}

#[test]
fn delegate_request_words() {
    let flags = DelegateFlags::new(true, false, false, true, 0);
    let request =
        try_pd_ctrl_delegate_request(32, 32, sample_crd(), sample_crd(), flags).unwrap();
    // word1: syscall number 8 in the low byte, sub-number 2 in bits [8,10),
    // the source domain selector shifted left by 12.
    assert_eq!(request.word1, 0x8 | (2 << 8) | (32 << 12));
    assert_eq!(request.word1, 0x20208);
    assert_eq!(request.word2, 32);
    assert_eq!(request.word3, 0x3F8186);
    assert_eq!(request.word4, 0x801);
    assert_eq!(request.word5, 0x3F8186);
}

#[test]
fn delegate_idempotent() {
    // Two delegations with identical arguments pack identical words and
    // both come back Ok: no state persists between the calls.
    let mut recorder = CallRecorder::new();
    let flags = DelegateFlags::new(true, false, false, true, 0);

    let first =
        try_pd_ctrl_delegate_request(32, 32, sample_crd(), sample_crd(), flags).unwrap();
    let (out1, out2) = recorder.call(first);
    assert_eq!(pd_ctrl_delegate_result(out1, out2), Ok(()));

    let second =
        try_pd_ctrl_delegate_request(32, 32, sample_crd(), sample_crd(), flags).unwrap();
    let (out1, out2) = recorder.call(second);
    assert_eq!(pd_ctrl_delegate_result(out1, out2), Ok(()));

    assert_eq!(first, second);
    assert_eq!(recorder.invocations, 2);
}

#[test]
fn delegate_result_maps_each_status() {
    assert_eq!(pd_ctrl_delegate_result(0, 7), Ok(()));
    assert_eq!(pd_ctrl_delegate_result(1, 0), Err(SyscallStatus::Timeout));
    assert_eq!(pd_ctrl_delegate_result(2, 0), Err(SyscallStatus::Abort));
    assert_eq!(pd_ctrl_delegate_result(3, 0), Err(SyscallStatus::BadHyp));
    assert_eq!(pd_ctrl_delegate_result(4, 0), Err(SyscallStatus::BadCap));
    assert_eq!(pd_ctrl_delegate_result(5, 0), Err(SyscallStatus::BadPar));
    assert_eq!(pd_ctrl_delegate_result(6, 0), Err(SyscallStatus::BadFtr));
    assert_eq!(pd_ctrl_delegate_result(7, 0), Err(SyscallStatus::BadCpu));
    assert_eq!(pd_ctrl_delegate_result(8, 0), Err(SyscallStatus::BadDev));
}

#[test]
fn interpret_syscall_result_success_hands_payload() {
    assert_eq!(interpret_syscall_result(0, 0xabcd), Ok(0xabcd));
    assert_eq!(
        interpret_syscall_result(4, 0x77),
        Err((SyscallStatus::BadCap, 0x77))
    );
}

#[test]
fn syscall_status_ignores_high_bits() {
    // Only the low 8 bits of the raw return value are significant.
    assert_eq!(SyscallStatus::from_raw(0xff00), SyscallStatus::Success);
    assert_eq!(SyscallStatus::from_raw(0x1_0000_0003), SyscallStatus::BadHyp);
}

#[test]
fn syscall_status_values() {
    assert_eq!(SyscallStatus::Success.val(), 0);
    assert_eq!(SyscallStatus::Timeout.val(), 1);
    assert_eq!(SyscallStatus::Abort.val(), 2);
    assert_eq!(SyscallStatus::BadHyp.val(), 3);
    assert_eq!(SyscallStatus::BadCap.val(), 4);
    assert_eq!(SyscallStatus::BadPar.val(), 5);
    assert_eq!(SyscallStatus::BadFtr.val(), 6);
    assert_eq!(SyscallStatus::BadCpu.val(), 7);
    assert_eq!(SyscallStatus::BadDev.val(), 8);
    for raw in 0u64..=8 {
        assert_eq!(SyscallStatus::from_raw(raw).val(), raw);
    }
}

#[test]
fn syscall_num_values() {
    assert_eq!(SyscallNum::Call.val(), 0);
    assert_eq!(SyscallNum::Reply.val(), 1);
    assert_eq!(SyscallNum::CreatePd.val(), 2);
    assert_eq!(SyscallNum::CreateEc.val(), 3);
    assert_eq!(SyscallNum::CreateSc.val(), 4);
    assert_eq!(SyscallNum::CreatePt.val(), 5);
    assert_eq!(SyscallNum::CreateSm.val(), 6);
    assert_eq!(SyscallNum::Revoke.val(), 7);
    assert_eq!(SyscallNum::PdCtrl.val(), 8);
    assert_eq!(SyscallNum::EcCtrl.val(), 9);
    assert_eq!(SyscallNum::ScCtrl.val(), 10);
    assert_eq!(SyscallNum::PtCtrl.val(), 11);
    assert_eq!(SyscallNum::SmCtrl.val(), 12);
    assert_eq!(SyscallNum::AssignPci.val(), 13);
    assert_eq!(SyscallNum::AssignGsi.val(), 14);
    assert_eq!(SyscallNum::MachineCtrl.val(), 15);
}

#[test]
fn pd_ctrl_sub_syscall_values() {
    assert_eq!(PdCtrlSubSyscall::PdCtrlDelegate.val(), 2);
    assert_eq!(PdCtrlSubSyscall::PdCtrlMsgAccess.val(), 3);
}
