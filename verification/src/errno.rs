//! Kernel error numbers.
use vstd::prelude::*;

verus! {

/// Error number returned by kernel requests; negative values are errors.
pub type ErrNo = isize;

/// Success.
pub const OK: ErrNo = 0;

/// Generic error, used when no more specific one is available.
pub const GENERAL: ErrNo = -1;

/// Result of a kernel request.
pub type KernelResult<T> = Result<T, ErrNo>;

} // verus!
