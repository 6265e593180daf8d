//! Error kinds. Configuration errors are detected locally before any
//! kernel call; kernel-call failures carry the underlying OS error code
//! verbatim; decoding errors are fatal to the current decode step and
//! never recovered by resynchronizing mid-record. Nothing is retried
//! anywhere: every failure surfaces to the caller.

use vstd::prelude::*;

verus! {

/// Failure to build a session from the pending target state.
#[derive(Clone, Copy, Debug, PartialEq, Eq, Structural)]
pub enum BuildError {
    /// pid or cpu targeting was left unresolved; the kernel interface has
    /// no valid combination with either missing.
    PidAndCpuNotSet,
    /// The ring-buffer page count is absent, zero, or not one more than a
    /// power of two.
    RingBufferPagesInvalid,
    /// The kernel reported a failure when the descriptor was opened; the
    /// OS error code is preserved verbatim.
    SyscallFailed(i32),
}

/// Failure to decode a record from buffered ring-buffer bytes.
#[derive(Clone, Copy, Debug, PartialEq, Eq, Structural)]
pub enum DecodeError {
    /// A record header declares a size smaller than the header itself.
    HeaderTooSmall,
    /// The fields a record's selector mask announces run past the
    /// record's declared total size; continuing would reinterpret
    /// acknowledged-bad memory.
    SizeMismatch,
}

} // verus!
