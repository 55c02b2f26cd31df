use vstd::prelude::*;

verus! {

/// Success.
pub const LXET_OK: i32 = 0;

/// NULL pointer or otherwise malformed input.
pub const LXET_ERR_INVALID_ARG: i32 = 1;

/// Authentication/authorization failure (missing/expired token, 401, 403).
pub const LXET_ERR_AUTH: i32 = 2;

/// Network error (DNS, connect, timeout, mid-stream failure).
pub const LXET_ERR_NETWORK: i32 = 3;

/// Chunk integrity / hash-mismatch / data corruption.
pub const LXET_ERR_INTEGRITY: i32 = 4;

/// User cancelled via an abort request or SIGINT.
pub const LXET_ERR_CANCELLED: i32 = 5;

/// Any other failure.
pub const LXET_ERR_OTHER: i32 = 99;

} // verus!

verus! {

/// A failed call: the `LXET_ERR_*` code it returns and the diagnostic text
/// it leaves in the thread's last-error slot.
pub struct Failure {
    pub code: i32,
    pub message: String,
}

} // verus!
