//! CPU binding: which processing units a process or thread may run on.
use vstd::prelude::*;

use crate::bitmap::CpuSet;
use crate::errors::{
    last_errno, platform_error_numbers, ErrorNumbers, FlagsError, HybridError, RawHwlocError,
};

verus! {

/// Bit of [`CpuBindingFlags::assume_single_thread`]; it has no native meaning.
pub const CPU_BIND_ASSUME_SINGLE_THREAD: u32 = 1 << 31;

/// Native bit of [`CpuBindingFlags::thread`] (`HWLOC_CPUBIND_THREAD`).
pub const CPU_BIND_THREAD: u32 = 1 << 1;

/// Native bit of [`CpuBindingFlags::process`] (`HWLOC_CPUBIND_PROCESS`).
pub const CPU_BIND_PROCESS: u32 = 1 << 0;

/// Native bit of [`CpuBindingFlags::strict`] (`HWLOC_CPUBIND_STRICT`).
pub const CPU_BIND_STRICT: u32 = 1 << 2;

/// Native bit of [`CpuBindingFlags::no_memory_binding`] (`HWLOC_CPUBIND_NOMEMBIND`).
pub const CPU_BIND_NO_MEMORY_BINDING: u32 = 1 << 3;

/// Every bit that a [`CpuBindingFlags`] value can hold.
pub const CPU_BIND_ALL: u32 = CPU_BIND_ASSUME_SINGLE_THREAD | CPU_BIND_THREAD | CPU_BIND_PROCESS
    | CPU_BIND_STRICT | CPU_BIND_NO_MEMORY_BINDING;

/// Flags of a CPU binding request.
///
/// `assume_single_thread`, `thread` and `process` select the target when it
/// is the calling program; `strict` asks for the exact binding or none, and
/// `no_memory_binding` asks to leave the memory binding alone.
#[derive(Clone, Copy, Debug, PartialEq, Eq, Hash)]
pub struct CpuBindingFlags {
    bits: u32,
}

impl View for CpuBindingFlags {
    type V = u32;

    closed spec fn view(&self) -> u32 {
        self.bits
    }
}

/// What a CPU binding request is about.
#[derive(Clone, Copy, Debug, PartialEq, Eq, Hash, Structural)]
pub enum CpuBoundObject {
    /// A process, identified by its PID, or on Linux a thread, identified by
    /// its TID.
    ProcessOrThread,
    /// A thread, identified by its thread handle.
    Thread,
    /// The calling process or thread.
    ThisProgram,
}

impl CpuBoundObject {
    /// How error messages name the target.
    pub fn description(&self) -> (r: &'static str)
        ensures
            *self == CpuBoundObject::ProcessOrThread ==> r@ == "the target process/thread"@,
            *self == CpuBoundObject::Thread ==> r@ == "the target thread"@,
            *self == CpuBoundObject::ThisProgram ==> r@ == "the current process/thread"@,
    {
        match self {
            CpuBoundObject::ProcessOrThread => "the target process/thread",
            CpuBoundObject::Thread => "the target thread",
            CpuBoundObject::ThisProgram => "the current process/thread",
        }
    }
}

/// What a CPU binding request does.
#[derive(Clone, Copy, Debug, PartialEq, Eq, Hash, Structural)]
pub enum CpuBindingOperation {
    /// Query the current binding.
    GetBinding,
    /// Change the binding.
    SetBinding,
    /// Query where the target last ran.
    GetLastLocation,
}

/// Clearing the top bit of a word leaves it clear.
proof fn lemma_without_high_bit(x: u32)
    ensures
        (x & !CPU_BIND_ASSUME_SINGLE_THREAD) & CPU_BIND_ASSUME_SINGLE_THREAD == 0,
{
    assert((x & !(1u32 << 31)) & (1u32 << 31) == 0) by (bit_vector);
}

/// A word whose top bit is clear fits in an `i32`.
proof fn lemma_high_bit_clear_fits(x: u32)
    requires
        x & CPU_BIND_ASSUME_SINGLE_THREAD == 0,
    ensures
        x <= 0x7fff_ffff,
{
    assert(x & (1u32 << 31) == 0 ==> x <= 0x7fff_ffff) by (bit_vector);
}

impl CpuBindingFlags {
    /// Whether any of the bits of `mask` is set.
    pub open spec fn has_any(self, mask: u32) -> bool {
        self@ & mask != 0
    }

    /// Number of target selectors (`process`, `thread`, `assume_single_thread`)
    /// that are set.
    pub open spec fn target_flag_count(self) -> int {
        (if self.has_any(CPU_BIND_PROCESS) { 1int } else { 0int })
            + (if self.has_any(CPU_BIND_THREAD) { 1int } else { 0int })
            + (if self.has_any(CPU_BIND_ASSUME_SINGLE_THREAD) { 1int } else { 0int })
    }

    /// `thread` asked of a call that addresses a process: on Linux this binds
    /// the thread whose TID is given.
    pub open spec fn is_thread_special_case(self, target: CpuBoundObject) -> bool {
        self.has_any(CPU_BIND_THREAD) && target == CpuBoundObject::ProcessOrThread
    }

    /// The target selectors fit the target: exactly one for the calling
    /// program, none for another process or thread, except that where thread
    /// IDs can stand for process IDs, `thread` alone may address a thread.
    pub open spec fn target_flags_fit(
        self,
        target: CpuBoundObject,
        thread_ids_are_process_ids: bool,
    ) -> bool {
        if self.is_thread_special_case(target) {
            thread_ids_are_process_ids && self.target_flag_count() == 1
        } else if target == CpuBoundObject::ThisProgram {
            self.target_flag_count() == 1
        } else {
            self.target_flag_count() == 0
        }
    }

    /// The operation accepts the remaining flags: querying the last location
    /// takes neither `strict` nor `no_memory_binding`, querying the binding
    /// takes no `no_memory_binding`, and no `strict` for a thread.
    pub open spec fn operation_allows(
        self,
        target: CpuBoundObject,
        operation: CpuBindingOperation,
    ) -> bool {
        match operation {
            CpuBindingOperation::GetLastLocation => !self.has_any(
                CPU_BIND_STRICT | CPU_BIND_NO_MEMORY_BINDING,
            ),
            CpuBindingOperation::SetBinding => true,
            CpuBindingOperation::GetBinding => !(self.has_any(CPU_BIND_STRICT) && target
                == CpuBoundObject::Thread) && !self.has_any(CPU_BIND_NO_MEMORY_BINDING),
        }
    }

    /// The request is legal.
    pub open spec fn accepts(
        self,
        target: CpuBoundObject,
        operation: CpuBindingOperation,
        thread_ids_are_process_ids: bool,
    ) -> bool {
        self.target_flags_fit(target, thread_ids_are_process_ids) && self.operation_allows(
            target,
            operation,
        )
    }

    /// No flag.
    pub fn empty() -> (r: Self)
        ensures
            r@ == 0,
    {
        CpuBindingFlags { bits: 0 }
    }

    /// Let the library pick between thread and process binding, assuming that
    /// the calling process has a single thread. Never reaches the native call.
    pub fn assume_single_thread() -> (r: Self)
        ensures
            r@ == CPU_BIND_ASSUME_SINGLE_THREAD,
    {
        CpuBindingFlags { bits: CPU_BIND_ASSUME_SINGLE_THREAD }
    }

    /// Bind the calling thread.
    pub fn thread() -> (r: Self)
        ensures
            r@ == CPU_BIND_THREAD,
    {
        CpuBindingFlags { bits: CPU_BIND_THREAD }
    }

    /// Bind all threads of the calling process.
    pub fn process() -> (r: Self)
        ensures
            r@ == CPU_BIND_PROCESS,
    {
        CpuBindingFlags { bits: CPU_BIND_PROCESS }
    }

    /// Fail rather than approximate the requested binding.
    pub fn strict() -> (r: Self)
        ensures
            r@ == CPU_BIND_STRICT,
    {
        CpuBindingFlags { bits: CPU_BIND_STRICT }
    }

    /// Leave the memory binding as it is.
    pub fn no_memory_binding() -> (r: Self)
        ensures
            r@ == CPU_BIND_NO_MEMORY_BINDING,
    {
        CpuBindingFlags { bits: CPU_BIND_NO_MEMORY_BINDING }
    }

    /// The flags whose bits are set in `bits`; other bits are dropped.
    pub fn from_bits_truncate(bits: u32) -> (r: Self)
        ensures
            r@ == bits & CPU_BIND_ALL,
    {
        CpuBindingFlags { bits: bits & CPU_BIND_ALL }
    }

    /// The raw bits.
    pub fn bits(self) -> (r: u32)
        ensures
            r == self@,
    {
        self.bits
    }

    /// The flags of both sets.
    pub fn union(self, other: Self) -> (r: Self)
        ensures
            r@ == self@ | other@,
    {
        CpuBindingFlags { bits: self.bits | other.bits }
    }

    /// Whether every flag of `other` is set.
    pub fn contains(self, other: Self) -> (r: bool)
        ensures
            r == (self@ & other@ == other@),
    {
        self.bits & other.bits == other.bits
    }

    /// Whether some flag of `other` is set.
    pub fn intersects(self, other: Self) -> (r: bool)
        ensures
            r == (self@ & other@ != 0),
    {
        self.bits & other.bits != 0
    }

    /// Whether no flag is set.
    pub fn is_empty(self) -> (r: bool)
        ensures
            r == (self@ == 0),
    {
        self.bits == 0
    }

    /// Checks the flags of a request and readies them for the native call.
    ///
    /// Returns the flags without `assume_single_thread` where the request is
    /// legal (see [`CpuBindingFlags::accepts`]), `None` otherwise.
    /// `thread_ids_are_process_ids` says whether the platform lets a thread
    /// ID stand where a process ID is expected, as Linux does.
    pub fn validate(
        self,
        target: CpuBoundObject,
        operation: CpuBindingOperation,
        thread_ids_are_process_ids: bool,
    ) -> (r: Option<Self>)
        ensures
            r is Some <==> self.accepts(target, operation, thread_ids_are_process_ids),
            r matches Some(n) ==> n@ == self@ & !CPU_BIND_ASSUME_SINGLE_THREAD,
            r matches Some(n) ==> !n.has_any(CPU_BIND_ASSUME_SINGLE_THREAD),
    {
        let is_thread_special_case = self.bits & CPU_BIND_THREAD != 0 && matches!(
            target,
            CpuBoundObject::ProcessOrThread
        );
        if is_thread_special_case && !thread_ids_are_process_ids {
            return None;
        }
        let mut num_target_flags: u32 = 0;
        if self.bits & CPU_BIND_PROCESS != 0 {
            num_target_flags = num_target_flags + 1;
        }
        if self.bits & CPU_BIND_THREAD != 0 {
            num_target_flags = num_target_flags + 1;
        }
        if self.bits & CPU_BIND_ASSUME_SINGLE_THREAD != 0 {
            num_target_flags = num_target_flags + 1;
        }
        let expected: u32 = if matches!(target, CpuBoundObject::ThisProgram) {
            1
        } else {
            0
        };
        if num_target_flags != expected && !(num_target_flags == 1 && is_thread_special_case) {
            return None;
        }
        match operation {
            CpuBindingOperation::GetLastLocation => {
                if self.bits & (CPU_BIND_STRICT | CPU_BIND_NO_MEMORY_BINDING) != 0 {
                    return None;
                }
            },
            CpuBindingOperation::SetBinding => {},
            CpuBindingOperation::GetBinding => {
                if (self.bits & CPU_BIND_STRICT != 0 && matches!(target, CpuBoundObject::Thread))
                    || self.bits & CPU_BIND_NO_MEMORY_BINDING != 0 {
                    return None;
                }
            },
        }
        let bits = self.bits & !CPU_BIND_ASSUME_SINGLE_THREAD;
        proof {
            lemma_without_high_bit(self.bits);
        }
        Some(CpuBindingFlags { bits })
    }

    /// The flags as the native functions take them.
    pub fn native_bits(self) -> (r: i32)
        requires
            !self.has_any(CPU_BIND_ASSUME_SINGLE_THREAD),
        ensures
            r as u32 == self@,
            r >= 0,
    {
        proof {
            lemma_high_bit_clear_fits(self.bits);
        }
        self.bits as i32
    }
}

/// Errors of the CPU binding functions.
#[derive(Clone, Debug, PartialEq, Eq, Hash)]
pub enum CpuBindingError {
    /// The CPU binding of this kind of entity cannot be queried or set.
    BadObject(CpuBoundObject),
    /// The flags are not valid for this request.
    BadFlags(FlagsError<CpuBindingFlags>),
    /// The entity cannot be bound to the requested set.
    BadCpuSet(CpuBoundObject, CpuSet),
}

impl From<CpuBindingFlags> for CpuBindingError {
    fn from(value: CpuBindingFlags) -> (r: Self) {
        CpuBindingError::BadFlags(FlagsError(value))
    }
}

impl vstd::std_specs::convert::FromSpecImpl<CpuBindingFlags> for CpuBindingError {
    open spec fn obeys_from_spec() -> bool {
        true
    }

    open spec fn from_spec(v: CpuBindingFlags) -> Self {
        CpuBindingError::BadFlags(FlagsError(v))
    }
}

/// The error of a request whose flags were rejected.
pub open spec fn bad_flags<T>(flags: CpuBindingFlags) -> Result<T, HybridError<CpuBindingError>> {
    Err(HybridError::Rust(CpuBindingError::BadFlags(FlagsError(flags))))
}

/// The set that an optional reference points to.
pub open spec fn optional_set(cpuset: Option<&CpuSet>) -> Option<Set<u32>> {
    match cpuset {
        Some(s) => Some(s@),
        None => None,
    }
}

/// What a CPU binding call that returned `result`, with `errno` as the error
/// number, comes to.
///
/// A result of zero or more is a success. A result of -1 is read through the
/// error number: `ENOSYS` says that the entity cannot be bound, `EXDEV` that
/// it cannot be bound to the requested set (when there is one). Everything
/// else is an unexpected native failure, reported with the raw values.
pub open spec fn cpu_call_outcome<T>(
    api: &'static str,
    object: CpuBoundObject,
    cpuset: Option<Set<u32>>,
    result: i32,
    errno: i32,
    numbers: ErrorNumbers,
    r: Result<T, HybridError<CpuBindingError>>,
) -> bool {
    if result >= 0 {
        r is Ok
    } else if result == -1 && errno == numbers.not_implemented {
        r == Err::<T, HybridError<CpuBindingError>>(HybridError::Rust(CpuBindingError::BadObject(object)))
    } else if result == -1 && errno == numbers.cross_device && cpuset is Some {
        r matches Err(HybridError::Rust(CpuBindingError::BadCpuSet(o, s))) && o == object && s@
            == cpuset.unwrap()
    } else {
        r == Err::<T, HybridError<CpuBindingError>>(HybridError::Hwloc(RawHwlocError { api, result, errno }))
    }
}

/// Interprets the result of a CPU binding call, given the error number read
/// right after it.
pub fn cpu_call_result(
    api: &'static str,
    object: CpuBoundObject,
    cpuset: Option<&CpuSet>,
    result: i32,
    errno: i32,
    numbers: ErrorNumbers,
) -> (r: Result<(), HybridError<CpuBindingError>>)
    ensures
        cpu_call_outcome(api, object, optional_set(cpuset), result, errno, numbers, r),
{
    if result >= 0 {
        Ok(())
    } else if result == -1 && errno == numbers.not_implemented {
        Err(HybridError::Rust(CpuBindingError::BadObject(object)))
    } else if result == -1 && errno == numbers.cross_device && cpuset.is_some() {
        let set = cpuset.unwrap().clone();
        Err(HybridError::Rust(CpuBindingError::BadCpuSet(object, set)))
    } else {
        Err(HybridError::Hwloc(RawHwlocError { api, result, errno }))
    }
}

/// Interprets the result of a CPU binding call that just returned, reading the
/// error number only where the call failed.
fn check_cpu_call(
    api: &'static str,
    object: CpuBoundObject,
    cpuset: Option<&CpuSet>,
    result: i32,
) -> (r: Result<(), HybridError<CpuBindingError>>)
    ensures
        exists|errno: i32, numbers: ErrorNumbers|
            cpu_call_outcome(api, object, optional_set(cpuset), result, errno, numbers, r),
{
    if result >= 0 {
        let r = Ok(());
        assert(cpu_call_outcome(
            api,
            object,
            optional_set(cpuset),
            result,
            0,
            arbitrary::<ErrorNumbers>(),
            r,
        ));
        return r;
    }
    let errno = last_errno();
    let numbers = platform_error_numbers();
    cpu_call_result(api, object, cpuset, result, errno, numbers)
}

/// Makes one native CPU binding call and interprets its result.
pub fn call_hwloc<F: FnOnce() -> i32>(
    api: &'static str,
    object: CpuBoundObject,
    cpuset: Option<&CpuSet>,
    ffi: F,
) -> (r: Result<(), HybridError<CpuBindingError>>)
    requires
        ffi.requires(()),
    ensures
        exists|result: i32, errno: i32, numbers: ErrorNumbers|
            ffi.ensures((), result) && cpu_call_outcome(
                api,
                object,
                optional_set(cpuset),
                result,
                errno,
                numbers,
                r,
            ),
{
    let result = ffi();
    check_cpu_call(api, object, cpuset, result)
}

/// The native bits of the flags once `assume_single_thread` is dropped.
pub open spec fn native_flags(flags: CpuBindingFlags) -> i32 {
    (flags@ & !CPU_BIND_ASSUME_SINGLE_THREAD) as i32
}

/// Binds `target` to `set`: checks the flags, then makes the native call
/// `ffi`, which takes the set and the native flags.
///
/// Where the flags are rejected, `ffi` is not called and the result is
/// `BadFlags`.
pub fn bind_cpu_impl<F: FnOnce(&CpuSet, i32) -> i32>(
    set: &CpuSet,
    flags: CpuBindingFlags,
    target: CpuBoundObject,
    api: &'static str,
    thread_ids_are_process_ids: bool,
    ffi: F,
) -> (r: Result<(), HybridError<CpuBindingError>>)
    requires
        ffi.requires((set, native_flags(flags))),
    ensures
        !flags.accepts(target, CpuBindingOperation::SetBinding, thread_ids_are_process_ids) ==> r
            == bad_flags::<()>(flags),
        flags.accepts(target, CpuBindingOperation::SetBinding, thread_ids_are_process_ids) ==> exists|
            result: i32,
            errno: i32,
            numbers: ErrorNumbers,
        |
            ffi.ensures((set, native_flags(flags)), result) && cpu_call_outcome(
                api,
                target,
                Some(set@),
                result,
                errno,
                numbers,
                r,
            ),
{
    let normalized = match flags.validate(
        target,
        CpuBindingOperation::SetBinding,
        thread_ids_are_process_ids,
    ) {
        Some(normalized) => normalized,
        None => {
            return Err(HybridError::Rust(CpuBindingError::from(flags)));
        },
    };
    let bits = normalized.native_bits();
    let result = ffi(set, bits);
    check_cpu_call(api, target, Some(set), result)
}

/// Queries a CPU set of `target`: checks the flags, then makes the native
/// call `ffi`, which takes an empty set and the native flags, and hands back
/// its result with the set filled.
///
/// Where the flags are rejected, `ffi` is not called, no set is made, and the
/// result is `BadFlags`. On success the result is the set that `ffi` filled.
pub fn get_cpuset<F: FnOnce(CpuSet, i32) -> (i32, CpuSet)>(
    flags: CpuBindingFlags,
    target: CpuBoundObject,
    operation: CpuBindingOperation,
    api: &'static str,
    thread_ids_are_process_ids: bool,
    ffi: F,
) -> (r: Result<CpuSet, HybridError<CpuBindingError>>)
    requires
        forall|s: CpuSet| s@ == Set::<u32>::empty() ==> ffi.requires((s, native_flags(flags))),
    ensures
        !flags.accepts(target, operation, thread_ids_are_process_ids) ==> r == bad_flags::<CpuSet>(
            flags,
        ),
        flags.accepts(target, operation, thread_ids_are_process_ids) ==> exists|
            empty: CpuSet,
            filled: CpuSet,
            result: i32,
            errno: i32,
            numbers: ErrorNumbers,
        |
            empty@ == Set::<u32>::empty() && ffi.ensures(
                (empty, native_flags(flags)),
                (result, filled),
            ) && cpu_call_outcome(api, target, None, result, errno, numbers, r) && (r is Ok ==> r
                == Ok::<CpuSet, HybridError<CpuBindingError>>(filled)),
{
    let normalized = match flags.validate(target, operation, thread_ids_are_process_ids) {
        Some(normalized) => normalized,
        None => {
            return Err(HybridError::Rust(CpuBindingError::from(flags)));
        },
    };
    let bits = normalized.native_bits();
    let empty = CpuSet::new();
    let ghost empty_set = empty;
    let (result, cpuset) = ffi(empty, bits);
    let checked = check_cpu_call(api, target, None, result);
    let ghost (errno, numbers) = choose|errno: i32, numbers: ErrorNumbers|
        cpu_call_outcome(api, target, None, result, errno, numbers, checked);
    let r = match checked {
        Ok(()) => Ok(cpuset),
        Err(e) => Err(e),
    };
    assert(cpu_call_outcome(api, target, None, result, errno, numbers, r));
    assert(empty_set@ == Set::<u32>::empty() && ffi.ensures((empty_set, native_flags(flags)), (result, cpuset)));
    r
}

/// Queries the CPU binding of `target` (see [`get_cpuset`]).
pub fn cpu_binding_impl<F: FnOnce(CpuSet, i32) -> (i32, CpuSet)>(
    flags: CpuBindingFlags,
    target: CpuBoundObject,
    api: &'static str,
    thread_ids_are_process_ids: bool,
    ffi: F,
) -> (r: Result<CpuSet, HybridError<CpuBindingError>>)
    requires
        forall|s: CpuSet| s@ == Set::<u32>::empty() ==> ffi.requires((s, native_flags(flags))),
    ensures
        !flags.accepts(target, CpuBindingOperation::GetBinding, thread_ids_are_process_ids) ==> r
            == bad_flags::<CpuSet>(flags),
        flags.accepts(target, CpuBindingOperation::GetBinding, thread_ids_are_process_ids) ==> exists|
            empty: CpuSet,
            filled: CpuSet,
            result: i32,
            errno: i32,
            numbers: ErrorNumbers,
        |
            empty@ == Set::<u32>::empty() && ffi.ensures(
                (empty, native_flags(flags)),
                (result, filled),
            ) && cpu_call_outcome(api, target, None, result, errno, numbers, r) && (r is Ok ==> r
                == Ok::<CpuSet, HybridError<CpuBindingError>>(filled)),
{
    get_cpuset(flags, target, CpuBindingOperation::GetBinding, api, thread_ids_are_process_ids, ffi)
}

/// Queries where `target` last ran (see [`get_cpuset`]).
pub fn last_cpu_location_impl<F: FnOnce(CpuSet, i32) -> (i32, CpuSet)>(
    flags: CpuBindingFlags,
    target: CpuBoundObject,
    api: &'static str,
    thread_ids_are_process_ids: bool,
    ffi: F,
) -> (r: Result<CpuSet, HybridError<CpuBindingError>>)
    requires
        forall|s: CpuSet| s@ == Set::<u32>::empty() ==> ffi.requires((s, native_flags(flags))),
    ensures
        !flags.accepts(target, CpuBindingOperation::GetLastLocation, thread_ids_are_process_ids)
            ==> r == bad_flags::<CpuSet>(flags),
        flags.accepts(target, CpuBindingOperation::GetLastLocation, thread_ids_are_process_ids)
            ==> exists|
            empty: CpuSet,
            filled: CpuSet,
            result: i32,
            errno: i32,
            numbers: ErrorNumbers,
        |
            empty@ == Set::<u32>::empty() && ffi.ensures(
                (empty, native_flags(flags)),
                (result, filled),
            ) && cpu_call_outcome(api, target, None, result, errno, numbers, r) && (r is Ok ==> r
                == Ok::<CpuSet, HybridError<CpuBindingError>>(filled)),
{
    get_cpuset(
        flags,
        target,
        CpuBindingOperation::GetLastLocation,
        api,
        thread_ids_are_process_ids,
        ffi,
    )
}

/// A request about the calling program is legal exactly when one target
/// selector is set, whatever the operation, as long as the operation accepts
/// the other flags: zero selectors, or two or more, are rejected.
pub proof fn lemma_this_program_needs_one_target_flag(
    flags: CpuBindingFlags,
    operation: CpuBindingOperation,
    thread_ids_are_process_ids: bool,
)
    requires
        flags.operation_allows(CpuBoundObject::ThisProgram, operation),
    ensures
        flags.accepts(CpuBoundObject::ThisProgram, operation, thread_ids_are_process_ids)
            <==> flags.target_flag_count() == 1,
{
}

/// `thread` on a call that addresses a process is rejected for every
/// operation where thread IDs cannot stand for process IDs; where they can,
/// `thread` alone is accepted for setting the binding.
pub proof fn lemma_thread_for_process_depends_on_platform(
    flags: CpuBindingFlags,
    operation: CpuBindingOperation,
    thread_ids_are_process_ids: bool,
)
    requires
        flags.has_any(CPU_BIND_THREAD),
    ensures
        !thread_ids_are_process_ids ==> !flags.accepts(
            CpuBoundObject::ProcessOrThread,
            operation,
            thread_ids_are_process_ids,
        ),
        thread_ids_are_process_ids && flags.target_flag_count() == 1 ==> flags.accepts(
            CpuBoundObject::ProcessOrThread,
            CpuBindingOperation::SetBinding,
            thread_ids_are_process_ids,
        ),
{
}

/// How the error number of a failed CPU binding call (result -1) is read:
/// `ENOSYS` always means that the entity cannot be bound, `EXDEV` that it
/// cannot be bound to the requested set, and any other error number is
/// reported as it came.
pub proof fn lemma_cpu_errno_meaning(
    api: &'static str,
    object: CpuBoundObject,
    cpuset: Option<Set<u32>>,
    errno: i32,
    numbers: ErrorNumbers,
    r: Result<(), HybridError<CpuBindingError>>,
)
    requires
        numbers.distinct(),
    ensures
        errno == numbers.not_implemented ==> (cpu_call_outcome(
            api,
            object,
            cpuset,
            -1i32,
            errno,
            numbers,
            r,
        ) <==> r == Err::<(), HybridError<CpuBindingError>>(
            HybridError::Rust(CpuBindingError::BadObject(object)),
        )),
        errno == numbers.cross_device && cpuset is Some ==> (cpu_call_outcome(
            api,
            object,
            cpuset,
            -1i32,
            errno,
            numbers,
            r,
        ) <==> (r matches Err(HybridError::Rust(CpuBindingError::BadCpuSet(o, s))) && o == object
            && s@ == cpuset.unwrap())),
        errno != numbers.not_implemented && errno != numbers.cross_device ==> (cpu_call_outcome(
            api,
            object,
            cpuset,
            -1i32,
            errno,
            numbers,
            r,
        ) <==> r == Err::<(), HybridError<CpuBindingError>>(
            HybridError::Hwloc(RawHwlocError { api, result: -1i32, errno }),
        )),
{
}

} // verus!
