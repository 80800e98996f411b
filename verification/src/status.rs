//! Status codes returned by every fallible operation.

use vstd::prelude::*;

verus! {

/// The operation completed.
pub const OK: i32 = 0;

/// An input value is malformed.
pub const INVALID_ARGUMENT: i32 = 1;

/// The handle is zero or names no live world.
pub const INVALID_HANDLE: i32 = 2;

/// A well-formed request exceeds a resource-protection limit.
pub const POLICY_DENIED: i32 = 3;

/// Shared state could not be reached.
pub const INTERNAL_ERROR: i32 = 4;

/// The largest number of steps a single call may run.
pub const MAX_STEPS: u32 = 10_000;

} // verus!
