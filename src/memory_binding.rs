//! Memory binding: which NUMA nodes memory is allocated from.
use vstd::prelude::*;

use crate::errors::{last_errno, platform_error_numbers, ErrorNumbers};

verus! {

/// Native bit of [`MemoryBindingFlags::process`] (`HWLOC_MEMBIND_PROCESS`).
pub const MEM_BIND_PROCESS: i32 = 1 << 0;

/// Native bit of [`MemoryBindingFlags::thread`] (`HWLOC_MEMBIND_THREAD`).
pub const MEM_BIND_THREAD: i32 = 1 << 1;

/// Native bit of [`MemoryBindingFlags::strict`] (`HWLOC_MEMBIND_STRICT`).
pub const MEM_BIND_STRICT: i32 = 1 << 2;

/// Native bit of [`MemoryBindingFlags::migrate`] (`HWLOC_MEMBIND_MIGRATE`).
pub const MEM_BIND_MIGRATE: i32 = 1 << 3;

/// Native bit of [`MemoryBindingFlags::no_cpu_binding`] (`HWLOC_MEMBIND_NOCPUBIND`).
pub const MEM_BIND_NO_CPU_BINDING: i32 = 1 << 4;

/// Native bit of [`MemoryBindingFlags::by_node_set`] (`HWLOC_MEMBIND_BYNODESET`).
pub const MEM_BIND_BY_NODE_SET: i32 = 1 << 5;

/// Every bit that a [`MemoryBindingFlags`] value can hold.
pub const MEM_BIND_ALL: i32 = MEM_BIND_PROCESS | MEM_BIND_THREAD | MEM_BIND_STRICT
    | MEM_BIND_MIGRATE | MEM_BIND_NO_CPU_BINDING | MEM_BIND_BY_NODE_SET;

/// Flags of a memory binding request.
///
/// `process` and `thread` select the target when it is the calling program;
/// `strict` asks for the exact binding or none, `migrate` moves memory that is
/// already allocated, `no_cpu_binding` leaves the CPU binding alone, and
/// `by_node_set` says that the set holds NUMA nodes rather than processing
/// units.
#[derive(Clone, Copy, Debug, PartialEq, Eq, Hash)]
pub struct MemoryBindingFlags {
    bits: i32,
}

impl View for MemoryBindingFlags {
    type V = i32;

    closed spec fn view(&self) -> i32 {
        self.bits
    }
}

/// What a memory binding request is about.
#[derive(Clone, Copy, Debug, PartialEq, Eq, Hash, Structural)]
pub enum MemoryBindingTarget {
    /// A process, or the calling program.
    Process,
    /// A range of memory addresses.
    Area,
    /// No particular target: the default policy, or an allocation.
    NoTarget,
}

/// What a memory binding request does.
#[derive(Clone, Copy, Debug, PartialEq, Eq, Hash, Structural)]
pub enum MemoryBindingOperation {
    /// Query the current binding.
    GetBinding,
    /// Change the binding.
    Bind,
    /// Reset the binding to the system default.
    Unbind,
    /// Allocate bound memory.
    Allocate,
    /// Query where memory was last allocated.
    GetLastLocation,
}

impl MemoryBindingFlags {
    /// Whether any of the bits of `mask` is set.
    pub open spec fn has_any(self, mask: i32) -> bool {
        self@ & mask != 0
    }

    /// `process` and `thread` are not both set.
    pub open spec fn selectors_exclusive(self) -> bool {
        !(self.has_any(MEM_BIND_PROCESS) && self.has_any(MEM_BIND_THREAD))
    }

    /// The target accepts the selectors: a memory area takes neither
    /// `process` nor `thread`, a process takes no `thread`, and `NoTarget`
    /// takes either.
    pub open spec fn target_allows(self, target: MemoryBindingTarget) -> bool {
        match target {
            MemoryBindingTarget::Area => !self.has_any(MEM_BIND_PROCESS | MEM_BIND_THREAD),
            MemoryBindingTarget::Process => !self.has_any(MEM_BIND_THREAD),
            MemoryBindingTarget::NoTarget => true,
        }
    }

    /// The operation accepts the flags: querying the last location takes
    /// neither `strict`, `migrate` nor `no_cpu_binding`; querying the binding
    /// takes neither `migrate` nor `no_cpu_binding`, and without a target no
    /// `strict` unless `process` is set too; unbinding takes neither `strict`
    /// nor `migrate`; allocating takes no `migrate`.
    pub open spec fn operation_allows(
        self,
        target: MemoryBindingTarget,
        operation: MemoryBindingOperation,
    ) -> bool {
        match operation {
            MemoryBindingOperation::GetLastLocation => !self.has_any(
                MEM_BIND_STRICT | MEM_BIND_MIGRATE | MEM_BIND_NO_CPU_BINDING,
            ),
            MemoryBindingOperation::GetBinding => !self.has_any(
                MEM_BIND_MIGRATE | MEM_BIND_NO_CPU_BINDING,
            ) && (target == MemoryBindingTarget::NoTarget ==> (!self.has_any(MEM_BIND_STRICT)
                || self.has_any(MEM_BIND_PROCESS))),
            MemoryBindingOperation::Unbind => !self.has_any(MEM_BIND_STRICT | MEM_BIND_MIGRATE),
            MemoryBindingOperation::Allocate => !self.has_any(MEM_BIND_MIGRATE),
            MemoryBindingOperation::Bind => true,
        }
    }

    /// The request is legal.
    pub open spec fn accepts(
        self,
        target: MemoryBindingTarget,
        operation: MemoryBindingOperation,
    ) -> bool {
        self.selectors_exclusive() && self.target_allows(target) && self.operation_allows(
            target,
            operation,
        )
    }

    /// No flag.
    pub fn empty() -> (r: Self)
        ensures
            r@ == 0,
    {
        MemoryBindingFlags { bits: 0 }
    }

    /// Bind all threads of the calling process.
    pub fn process() -> (r: Self)
        ensures
            r@ == MEM_BIND_PROCESS,
    {
        MemoryBindingFlags { bits: MEM_BIND_PROCESS }
    }

    /// Bind the calling thread.
    pub fn thread() -> (r: Self)
        ensures
            r@ == MEM_BIND_THREAD,
    {
        MemoryBindingFlags { bits: MEM_BIND_THREAD }
    }

    /// Fail rather than approximate the requested binding.
    pub fn strict() -> (r: Self)
        ensures
            r@ == MEM_BIND_STRICT,
    {
        MemoryBindingFlags { bits: MEM_BIND_STRICT }
    }

    /// Move memory that is already allocated to the new nodes.
    pub fn migrate() -> (r: Self)
        ensures
            r@ == MEM_BIND_MIGRATE,
    {
        MemoryBindingFlags { bits: MEM_BIND_MIGRATE }
    }

    /// Leave the CPU binding as it is.
    pub fn no_cpu_binding() -> (r: Self)
        ensures
            r@ == MEM_BIND_NO_CPU_BINDING,
    {
        MemoryBindingFlags { bits: MEM_BIND_NO_CPU_BINDING }
    }

    /// The set holds NUMA nodes rather than processing units.
    pub fn by_node_set() -> (r: Self)
        ensures
            r@ == MEM_BIND_BY_NODE_SET,
    {
        MemoryBindingFlags { bits: MEM_BIND_BY_NODE_SET }
    }

    /// The flags whose bits are set in `bits`; other bits are dropped.
    pub fn from_bits_truncate(bits: i32) -> (r: Self)
        ensures
            r@ == bits & MEM_BIND_ALL,
    {
        MemoryBindingFlags { bits: bits & MEM_BIND_ALL }
    }

    /// The raw bits, as the native functions take them.
    pub fn bits(self) -> (r: i32)
        ensures
            r == self@,
    {
        self.bits
    }

    /// The flags of both sets.
    pub fn union(self, other: Self) -> (r: Self)
        ensures
            r@ == self@ | other@,
    {
        MemoryBindingFlags { bits: self.bits | other.bits }
    }

    /// Whether every flag of `other` is set.
    pub fn contains(self, other: Self) -> (r: bool)
        ensures
            r == (self@ & other@ == other@),
    {
        self.bits & other.bits == other.bits
    }

    /// Whether some flag of `other` is set.
    pub fn intersects(self, other: Self) -> (r: bool)
        ensures
            r == (self@ & other@ != 0),
    {
        self.bits & other.bits != 0
    }

    /// Whether no flag is set.
    pub fn is_empty(self) -> (r: bool)
        ensures
            r == (self@ == 0),
    {
        self.bits == 0
    }

    /// Whether the flags are legal for this operation on this target (see
    /// [`MemoryBindingFlags::accepts`]).
    pub fn is_valid(self, target: MemoryBindingTarget, operation: MemoryBindingOperation) -> (r:
        bool)
        ensures
            r == self.accepts(target, operation),
    {
        if self.bits & MEM_BIND_PROCESS != 0 && self.bits & MEM_BIND_THREAD != 0 {
            return false;
        }
        let good_for_target = match target {
            MemoryBindingTarget::Area => self.bits & (MEM_BIND_PROCESS | MEM_BIND_THREAD) == 0,
            MemoryBindingTarget::Process => self.bits & MEM_BIND_THREAD == 0,
            MemoryBindingTarget::NoTarget => true,
        };
        good_for_target && match operation {
            MemoryBindingOperation::GetLastLocation => self.bits & (MEM_BIND_STRICT
                | MEM_BIND_MIGRATE | MEM_BIND_NO_CPU_BINDING) == 0,
            MemoryBindingOperation::GetBinding => {
                if self.bits & (MEM_BIND_MIGRATE | MEM_BIND_NO_CPU_BINDING) != 0 {
                    return false;
                }
                match target {
                    MemoryBindingTarget::Area | MemoryBindingTarget::Process => true,
                    MemoryBindingTarget::NoTarget => self.bits & MEM_BIND_STRICT == 0 || self.bits
                        & MEM_BIND_PROCESS != 0,
                }
            },
            MemoryBindingOperation::Unbind => self.bits & (MEM_BIND_STRICT | MEM_BIND_MIGRATE)
                == 0,
            MemoryBindingOperation::Allocate => self.bits & MEM_BIND_MIGRATE == 0,
            MemoryBindingOperation::Bind => true,
        }
    }
}

impl Default for MemoryBindingFlags {
    fn default() -> (r: Self)
        ensures
            r@ == 0,
    {
        MemoryBindingFlags { bits: 0 }
    }
}

/// How memory is placed on the nodes of a binding.
#[derive(Clone, Copy, Debug, PartialEq, Eq, Hash, Structural)]
pub enum MemoryBindingPolicy {
    /// Allocate each page on the node of the processing unit that first
    /// touches it (`HWLOC_MEMBIND_FIRSTTOUCH`).
    FirstTouch,
    /// Allocate on the given nodes (`HWLOC_MEMBIND_BIND`).
    Bind,
    /// Spread pages over the given nodes (`HWLOC_MEMBIND_INTERLEAVE`).
    Interleave,
    /// Move each page to the node of the next processing unit that touches
    /// it (`HWLOC_MEMBIND_NEXTTOUCH`).
    NextTouch,
}

impl MemoryBindingPolicy {
    /// The native value of the policy.
    pub open spec fn spec_raw(self) -> i32 {
        match self {
            MemoryBindingPolicy::FirstTouch => 1,
            MemoryBindingPolicy::Bind => 2,
            MemoryBindingPolicy::Interleave => 3,
            MemoryBindingPolicy::NextTouch => 4,
        }
    }

    /// The native value of the policy.
    pub fn to_raw(self) -> (r: i32)
        ensures
            r == self.spec_raw(),
    {
        match self {
            MemoryBindingPolicy::FirstTouch => 1,
            MemoryBindingPolicy::Bind => 2,
            MemoryBindingPolicy::Interleave => 3,
            MemoryBindingPolicy::NextTouch => 4,
        }
    }

    /// The policy with native value `raw`, if there is one.
    pub fn from_raw(raw: i32) -> (r: Option<Self>)
        ensures
            r matches Some(p) ==> p.spec_raw() == raw,
            r is None ==> forall|p: MemoryBindingPolicy| p.spec_raw() != raw,
    {
        match raw {
            1 => Some(MemoryBindingPolicy::FirstTouch),
            2 => Some(MemoryBindingPolicy::Bind),
            3 => Some(MemoryBindingPolicy::Interleave),
            4 => Some(MemoryBindingPolicy::NextTouch),
            _ => None,
        }
    }
}

impl Default for MemoryBindingPolicy {
    fn default() -> (r: Self)
        ensures
            r == MemoryBindingPolicy::Bind,
    {
        MemoryBindingPolicy::Bind
    }
}

/// Errors of the functions that bind, unbind or allocate memory.
#[derive(Clone, Copy, Debug, PartialEq, Eq, Hash, Structural)]
pub enum MemoryBindingSetupError {
    /// The action is not supported (`ENOSYS`).
    Unsupported,
    /// The binding cannot be enforced (`EXDEV`).
    BadSet,
    /// Memory could not be allocated (`ENOMEM`).
    AllocationFailed,
    /// The call failed with an error number that has no meaning here.
    UnexpectedErrno(i32),
    /// The call returned a result other than -1 or a non-negative value,
    /// with this error number.
    UnexpectedResult(i32, i32),
}

impl MemoryBindingSetupError {
    /// The error that a failure with error number `errno` stands for.
    pub open spec fn for_errno(errno: i32, numbers: ErrorNumbers) -> Self {
        if errno == numbers.not_implemented {
            MemoryBindingSetupError::Unsupported
        } else if errno == numbers.cross_device {
            MemoryBindingSetupError::BadSet
        } else if errno == numbers.out_of_memory {
            MemoryBindingSetupError::AllocationFailed
        } else {
            MemoryBindingSetupError::UnexpectedErrno(errno)
        }
    }

    /// The error that a failure with error number `errno` stands for.
    pub fn from_errno_value(errno: i32, numbers: ErrorNumbers) -> (r: Self)
        ensures
            r == Self::for_errno(errno, numbers),
    {
        if errno == numbers.not_implemented {
            MemoryBindingSetupError::Unsupported
        } else if errno == numbers.cross_device {
            MemoryBindingSetupError::BadSet
        } else if errno == numbers.out_of_memory {
            MemoryBindingSetupError::AllocationFailed
        } else {
            MemoryBindingSetupError::UnexpectedErrno(errno)
        }
    }

    /// The error that the calling thread's last error number stands for.
    pub fn from_errno() -> (r: Self)
        ensures
            exists|errno: i32, numbers: ErrorNumbers| r == Self::for_errno(errno, numbers),
    {
        let errno = last_errno();
        let numbers = platform_error_numbers();
        Self::from_errno_value(errno, numbers)
    }
}

/// What a bind, unbind or allocate call that returned `result`, with `errno`
/// as the error number, comes to: success for a result of zero or more, the
/// error of the error number for -1, and `UnexpectedResult` for any other
/// result.
pub open spec fn setup_outcome(result: i32, errno: i32, numbers: ErrorNumbers) -> Result<
    (),
    MemoryBindingSetupError,
> {
    if result >= 0 {
        Ok(())
    } else if result == -1 {
        Err(MemoryBindingSetupError::for_errno(errno, numbers))
    } else {
        Err(MemoryBindingSetupError::UnexpectedResult(result, errno))
    }
}

/// Interprets the result of a bind, unbind or allocate call, given the error
/// number read right after it.
pub fn setup_result_with_errno(result: i32, errno: i32, numbers: ErrorNumbers) -> (r: Result<
    (),
    MemoryBindingSetupError,
>)
    ensures
        r == setup_outcome(result, errno, numbers),
{
    if result >= 0 {
        Ok(())
    } else if result == -1 {
        Err(MemoryBindingSetupError::from_errno_value(errno, numbers))
    } else {
        Err(MemoryBindingSetupError::UnexpectedResult(result, errno))
    }
}

/// Interprets the result of a bind, unbind or allocate call that just
/// returned, reading the error number only where the call failed.
pub fn setup_result(result: i32) -> (r: Result<(), MemoryBindingSetupError>)
    ensures
        exists|errno: i32, numbers: ErrorNumbers| r == setup_outcome(result, errno, numbers),
{
    if result >= 0 {
        let r = Ok(());
        assert(r == setup_outcome(result, 0, arbitrary::<ErrorNumbers>()));
        return r;
    }
    let errno = last_errno();
    let numbers = platform_error_numbers();
    setup_result_with_errno(result, errno, numbers)
}

/// Errors of the functions that query a memory binding or location.
#[derive(Clone, Copy, Debug, PartialEq, Eq, Hash, Structural)]
pub enum MemoryBindingQueryError {
    /// `process` and `strict` were asked, and the threads of the process do
    /// not all have the same answer (`EXDEV`).
    MixedResults,
    /// The request is invalid (`EINVAL`).
    InvalidRequest,
    /// The call failed with an error number that has no meaning here.
    UnexpectedErrno(i32),
    /// The call returned a result other than -1 or a non-negative value,
    /// with this error number.
    UnexpectedResult(i32, i32),
}

/// What a query call that returned `result`, with `errno` as the error number,
/// comes to: success for a result of zero or more; for -1, `MixedResults` on
/// `EXDEV`, `InvalidRequest` on `EINVAL` and `UnexpectedErrno` otherwise; and
/// `UnexpectedResult` for any other result.
pub open spec fn query_outcome(result: i32, errno: i32, numbers: ErrorNumbers) -> Result<
    (),
    MemoryBindingQueryError,
> {
    if result >= 0 {
        Ok(())
    } else if result == -1 {
        if errno == numbers.cross_device {
            Err(MemoryBindingQueryError::MixedResults)
        } else if errno == numbers.invalid_argument {
            Err(MemoryBindingQueryError::InvalidRequest)
        } else {
            Err(MemoryBindingQueryError::UnexpectedErrno(errno))
        }
    } else {
        Err(MemoryBindingQueryError::UnexpectedResult(result, errno))
    }
}

/// Interprets the result of a query call, given the error number read right
/// after it.
pub fn query_result_with_errno(result: i32, errno: i32, numbers: ErrorNumbers) -> (r: Result<
    (),
    MemoryBindingQueryError,
>)
    ensures
        r == query_outcome(result, errno, numbers),
{
    if result >= 0 {
        Ok(())
    } else if result == -1 {
        if errno == numbers.cross_device {
            Err(MemoryBindingQueryError::MixedResults)
        } else if errno == numbers.invalid_argument {
            Err(MemoryBindingQueryError::InvalidRequest)
        } else {
            Err(MemoryBindingQueryError::UnexpectedErrno(errno))
        }
    } else {
        Err(MemoryBindingQueryError::UnexpectedResult(result, errno))
    }
}

/// Interprets the result of a query call that just returned: on success the
/// answer is made by `ok`; on failure the error number is read and `ok` is not
/// called.
pub fn query_result_lazy<T, F: FnOnce() -> T>(result: i32, ok: F) -> (r: Result<
    T,
    MemoryBindingQueryError,
>)
    requires
        result >= 0 ==> ok.requires(()),
    ensures
        result >= 0 ==> (r matches Ok(v) && ok.ensures((), v)),
        result < 0 ==> exists|errno: i32, numbers: ErrorNumbers|
            (#[trigger] query_outcome(result, errno, numbers) matches Err(e) && r == Err::<T, _>(e)),
{
    if result >= 0 {
        return Ok(ok());
    }
    let errno = last_errno();
    let numbers = platform_error_numbers();
    match query_result_with_errno(result, errno, numbers) {
        Ok(()) => {
            assert(false);
            Err(MemoryBindingQueryError::UnexpectedResult(result, errno))
        },
        Err(e) => Err(e),
    }
}

/// Memory that the native allocator of a topology handed out: `len` bytes at
/// address `address`, which is never null.
///
/// The value borrows the topology that made it, so it cannot outlive it. It
/// is neither `Clone` nor `Copy`: [`Bytes::into_raw_parts`] consumes it and
/// hands back, once, what the native release call takes.
#[derive(Debug)]
pub struct Bytes<'topology, Topology> {
    topology: &'topology Topology,
    address: usize,
    len: usize,
}

impl<'topology, Topology> Bytes<'topology, Topology> {
    #[verifier::type_invariant]
    spec fn inv(self) -> bool {
        self.address != 0
    }

    /// Address of the first byte.
    pub closed spec fn spec_address(self) -> usize {
        self.address
    }

    /// Number of bytes.
    pub closed spec fn spec_len(self) -> usize {
        self.len
    }

    /// The topology whose allocator made the memory.
    pub closed spec fn spec_topology(self) -> &'topology Topology {
        self.topology
    }

    /// Takes charge of what the native allocator of `topology` returned: no
    /// value for a null address, else `len` bytes at `address`.
    pub fn wrap(topology: &'topology Topology, address: usize, len: usize) -> (r: Option<Self>)
        ensures
            address == 0 <==> r is None,
            r matches Some(b) ==> b.spec_address() == address && b.spec_len() == len
                && b.spec_topology() == topology,
    {
        if address == 0 {
            return None;
        }
        Some(Bytes { topology, address, len })
    }

    /// Address of the first byte, never null.
    pub fn address(&self) -> (r: usize)
        ensures
            r == self.spec_address(),
            r != 0,
    {
        proof {
            use_type_invariant(self);
        }
        self.address
    }

    /// Number of bytes.
    pub fn len(&self) -> (r: usize)
        ensures
            r == self.spec_len(),
    {
        self.len
    }

    /// Whether there is no byte.
    pub fn is_empty(&self) -> (r: bool)
        ensures
            r == (self.spec_len() == 0),
    {
        self.len == 0
    }

    /// The topology whose allocator made the memory.
    pub fn topology(&self) -> (r: &'topology Topology)
        ensures
            r == self.spec_topology(),
    {
        self.topology
    }

    /// Gives up the memory: the topology, address and length that the native
    /// release call takes, exactly as they were wrapped.
    pub fn into_raw_parts(self) -> (r: (&'topology Topology, usize, usize))
        ensures
            r == (self.spec_topology(), self.spec_address(), self.spec_len()),
            r.1 != 0,
    {
        proof {
            use_type_invariant(&self);
        }
        (self.topology, self.address, self.len)
    }
}

/// `process` and `thread` together are rejected for every target and every
/// operation.
pub proof fn lemma_process_thread_exclusive(
    flags: MemoryBindingFlags,
    target: MemoryBindingTarget,
    operation: MemoryBindingOperation,
)
    requires
        flags.has_any(MEM_BIND_PROCESS),
        flags.has_any(MEM_BIND_THREAD),
    ensures
        !flags.accepts(target, operation),
{
}

/// Querying the last location rejects `migrate`, whatever the target.
pub proof fn lemma_last_location_rejects_migrate(
    flags: MemoryBindingFlags,
    target: MemoryBindingTarget,
)
    requires
        flags.has_any(MEM_BIND_MIGRATE),
    ensures
        !flags.accepts(target, MemoryBindingOperation::GetLastLocation),
{
    let x = flags@;
    assert(x & (1i32 << 3) != 0 ==> x & ((1i32 << 2) | (1i32 << 3) | (1i32 << 4)) != 0)
        by (bit_vector);
}

/// How the error number of a failed memory binding call (result -1) is read:
/// `ENOSYS` means `Unsupported` and `EXDEV` means `BadSet` for a setup
/// call, `EXDEV` means `MixedResults` for a query, and an error number that
/// neither kind recognizes is reported in `UnexpectedErrno` as it came.
pub proof fn lemma_memory_errno_meaning(errno: i32, numbers: ErrorNumbers)
    requires
        numbers.distinct(),
    ensures
        setup_outcome(-1i32, numbers.not_implemented, numbers) == Err::<(), _>(
            MemoryBindingSetupError::Unsupported,
        ),
        setup_outcome(-1i32, numbers.cross_device, numbers) == Err::<(), _>(
            MemoryBindingSetupError::BadSet,
        ),
        setup_outcome(-1i32, numbers.out_of_memory, numbers) == Err::<(), _>(
            MemoryBindingSetupError::AllocationFailed,
        ),
        query_outcome(-1i32, numbers.cross_device, numbers) == Err::<(), _>(
            MemoryBindingQueryError::MixedResults,
        ),
        query_outcome(-1i32, numbers.invalid_argument, numbers) == Err::<(), _>(
            MemoryBindingQueryError::InvalidRequest,
        ),
        errno != numbers.not_implemented && errno != numbers.cross_device && errno
            != numbers.out_of_memory ==> setup_outcome(-1i32, errno, numbers) == Err::<(), _>(
            MemoryBindingSetupError::UnexpectedErrno(errno),
        ),
        errno != numbers.cross_device && errno != numbers.invalid_argument ==> query_outcome(
            -1i32,
            errno,
            numbers,
        ) == Err::<(), _>(MemoryBindingQueryError::UnexpectedErrno(errno)),
{
}

} // verus!
