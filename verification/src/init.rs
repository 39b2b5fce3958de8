//! Explicit one-shot initialization state.
//!
//! Rights over a device's I/O ports or over a memory page need to be
//! delegated once per boot; repeating the delegation is harmless but
//! wasteful. Instead of an ambient process-wide flag, the guard is an
//! explicit state value constructed once and threaded through the startup
//! path by the caller.

use vstd::prelude::*;

verus! {

/// The two states of a one-shot initialization: the guarded delegation has
/// not happened yet, or it has.
#[derive(Debug, Copy, Clone, PartialEq, Eq, Structural)]
pub enum InitState {
    /// The guarded delegation has not been issued yet.
    Uninitialized,
    /// The guarded delegation has been issued.
    Ready,
}

} // verus!
