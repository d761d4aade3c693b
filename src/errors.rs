//! Errors shared by the binding modules, and the platform's error numbers.
use vstd::prelude::*;

verus! {

/// The error numbers of the platform that the native binding functions
/// report through `errno`.
#[derive(Clone, Copy, Debug, PartialEq, Eq, Hash)]
pub struct ErrorNumbers {
    /// `ENOSYS`: the function is not implemented for this kind of entity.
    pub not_implemented: i32,
    /// `EXDEV`: the request cannot be honored as given.
    pub cross_device: i32,
    /// `ENOMEM`: memory could not be allocated.
    pub out_of_memory: i32,
    /// `EINVAL`: the request is invalid.
    pub invalid_argument: i32,
}

impl ErrorNumbers {
    /// The four error numbers are different from each other, as they are on
    /// every platform.
    pub open spec fn distinct(self) -> bool {
        &&& self.not_implemented != self.cross_device
        &&& self.not_implemented != self.out_of_memory
        &&& self.not_implemented != self.invalid_argument
        &&& self.cross_device != self.out_of_memory
        &&& self.cross_device != self.invalid_argument
        &&& self.out_of_memory != self.invalid_argument
    }
}

/// Relies on libc's `ENOSYS`, `EXDEV`, `ENOMEM` and `EINVAL` constants, whose
/// values depend on the platform.
#[verifier::external_body]
pub(crate) fn platform_error_numbers() -> (r: ErrorNumbers) {
    ErrorNumbers {
        not_implemented: libc::ENOSYS,
        cross_device: libc::EXDEV,
        out_of_memory: libc::ENOMEM,
        invalid_argument: libc::EINVAL,
    }
}

/// Relies on `errno::errno`: the calling thread's last error number, which
/// can be anything.
#[verifier::external_body]
pub(crate) fn last_errno() -> (r: i32) {
    errno::errno().0
}

/// A native call failed in a way that the binding layer does not map to a
/// structured error: the native library broke its own contract.
#[derive(Clone, Copy, Debug, PartialEq, Eq, Hash)]
pub struct RawHwlocError {
    /// Name of the native function that failed.
    pub api: &'static str,
    /// The raw result of the call.
    pub result: i32,
    /// The error number read right after the call.
    pub errno: i32,
}

/// Either an error that callers can act on, or an unexpected native failure.
#[derive(Clone, Debug, PartialEq, Eq, Hash)]
pub enum HybridError<RustError> {
    /// An error that the binding layer understands.
    Rust(RustError),
    /// A native failure that the binding layer cannot interpret.
    Hwloc(RawHwlocError),
}

/// The requested flags are not valid for this operation on this target.
#[derive(Clone, Copy, Debug, PartialEq, Eq, Hash)]
pub struct FlagsError<Flags>(pub Flags);

} // verus!
