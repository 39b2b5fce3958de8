//! Userspace side of the Hedron capability-delegation protocol.
//!
//! The crate is the pure, verified core of a roottask: a bit-exact codec for
//! capability range descriptors (CRDs), the permission sets that go into them,
//! the delegation-flags word, and the packing and decoding of the five-word
//! `pd_ctrl_delegate` privileged call. Everything here is value computation;
//! the single machine-level transfer into the kernel, and the serial and
//! debug-console devices, live outside in unverified glue that consumes the
//! request values built here.

use vstd::prelude::*;

pub mod bda;
pub mod capability;
pub mod debugcon;
pub mod init;
pub mod pd_ctrl;
pub mod serial;
pub mod syscall;

verus! {

/// Maximum of `2^26` capability selectors for kernel objects.
/// Memory capability selectors may exceed this bound.
pub const NUM_CAP_SEL: u64 = 0x400_0000;

/// Capability selector under which the roottask's own protection domain
/// is reachable.
pub const ROOTTASK_CAPSEL: u64 = 32;

} // verus!
