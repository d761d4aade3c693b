use hwlocality::bitmap::CpuSet;
use hwlocality::cpu_binding::{
    bind_cpu_impl, call_hwloc, cpu_binding_impl, cpu_call_result, get_cpuset,
    last_cpu_location_impl, CpuBindingError, CpuBindingFlags, CpuBindingOperation,
    CpuBoundObject,
};
use hwlocality::errors::{ErrorNumbers, FlagsError, HybridError, RawHwlocError};
use std::cell::Cell;

const OPERATIONS: [CpuBindingOperation; 3] = [
    CpuBindingOperation::GetBinding,
    CpuBindingOperation::SetBinding,
    CpuBindingOperation::GetLastLocation,
];

fn numbers() -> ErrorNumbers {
    ErrorNumbers {
        not_implemented: libc::ENOSYS,
        cross_device: libc::EXDEV,
        out_of_memory: libc::ENOMEM,
        invalid_argument: libc::EINVAL,
    }
}

fn set_of(indices: &[u32]) -> CpuSet {
    let mut set = CpuSet::new();
    for &i in indices {
        set.insert(i);
    }
    set
}

fn selector_combinations() -> Vec<(CpuBindingFlags, usize)> {
    let selectors = [
        CpuBindingFlags::assume_single_thread(),
        CpuBindingFlags::thread(),
        CpuBindingFlags::process(),
    ];
    let mut out = Vec::new();
    for mask in 0..8u32 {
        let mut flags = CpuBindingFlags::empty();
        let mut count = 0;
        for (i, s) in selectors.iter().enumerate() {
            if mask & (1 << i) != 0 {
                flags = flags.union(*s);
                count += 1;
            }
        }
        out.push((flags, count));
    }
    out
}

#[test]
fn this_program_accepts_exactly_one_target_flag() {
    for op in OPERATIONS {
        for (flags, count) in selector_combinations() {
            for platform in [false, true] {
                let r = flags.validate(CpuBoundObject::ThisProgram, op, platform);
                assert_eq!(r.is_some(), count == 1, "{flags:?} {op:?}");
            }
        }
    }
}

#[test]
fn assume_single_thread_is_stripped() {
    let r = CpuBindingFlags::assume_single_thread().validate(
        CpuBoundObject::ThisProgram,
        CpuBindingOperation::SetBinding,
        false,
    );
    let n = r.expect("a single selector is accepted");
    assert!(!n.contains(CpuBindingFlags::assume_single_thread()));
    assert_eq!(n, CpuBindingFlags::empty());
    assert_eq!(n.native_bits(), 0);
}

#[test]
fn normalized_flags_never_hold_assume_single_thread() {
    let extras = [
        CpuBindingFlags::empty(),
        CpuBindingFlags::strict(),
        CpuBindingFlags::no_memory_binding(),
    ];
    for op in OPERATIONS {
        for (flags, _) in selector_combinations() {
            for extra in extras {
                let flags = flags.union(extra);
                for target in [
                    CpuBoundObject::ThisProgram,
                    CpuBoundObject::ProcessOrThread,
                    CpuBoundObject::Thread,
                ] {
                    if let Some(n) = flags.validate(target, op, true) {
                        assert!(!n.intersects(CpuBindingFlags::assume_single_thread()));
                        assert_eq!(
                            n.bits(),
                            flags.bits() & !CpuBindingFlags::assume_single_thread().bits()
                        );
                    }
                }
            }
        }
    }
}

#[test]
fn thread_for_process_only_where_thread_ids_are_process_ids() {
    let flags = CpuBindingFlags::thread();
    let on_linux = flags.validate(
        CpuBoundObject::ProcessOrThread,
        CpuBindingOperation::SetBinding,
        true,
    );
    assert_eq!(on_linux, Some(CpuBindingFlags::thread()));
    let elsewhere = flags.validate(
        CpuBoundObject::ProcessOrThread,
        CpuBindingOperation::SetBinding,
        false,
    );
    assert_eq!(elsewhere, None);
    let two = CpuBindingFlags::thread().union(CpuBindingFlags::process());
    assert_eq!(
        two.validate(CpuBoundObject::ProcessOrThread, CpuBindingOperation::SetBinding, true),
        None
    );
}

#[test]
fn other_targets_take_no_target_flag() {
    for target in [CpuBoundObject::ProcessOrThread, CpuBoundObject::Thread] {
        assert_eq!(
            CpuBindingFlags::empty().validate(target, CpuBindingOperation::SetBinding, false),
            Some(CpuBindingFlags::empty())
        );
        assert_eq!(
            CpuBindingFlags::process().validate(target, CpuBindingOperation::SetBinding, true),
            None
        );
        assert_eq!(
            CpuBindingFlags::assume_single_thread().validate(
                target,
                CpuBindingOperation::GetBinding,
                true
            ),
            None
        );
    }
    assert_eq!(
        CpuBindingFlags::thread().validate(
            CpuBoundObject::Thread,
            CpuBindingOperation::SetBinding,
            true
        ),
        None
    );
}

#[test]
fn operation_rules() {
    let process = CpuBindingFlags::process();
    let strict = process.union(CpuBindingFlags::strict());
    let no_mem = process.union(CpuBindingFlags::no_memory_binding());
    let this = CpuBoundObject::ThisProgram;
    assert_eq!(strict.validate(this, CpuBindingOperation::GetLastLocation, false), None);
    assert_eq!(no_mem.validate(this, CpuBindingOperation::GetLastLocation, false), None);
    assert_eq!(
        process.validate(this, CpuBindingOperation::GetLastLocation, false),
        Some(process)
    );
    assert_eq!(no_mem.validate(this, CpuBindingOperation::GetBinding, false), None);
    assert_eq!(strict.validate(this, CpuBindingOperation::GetBinding, false), Some(strict));
    assert_eq!(
        CpuBindingFlags::strict().validate(
            CpuBoundObject::Thread,
            CpuBindingOperation::GetBinding,
            false
        ),
        None
    );
    assert_eq!(
        CpuBindingFlags::strict().validate(
            CpuBoundObject::Thread,
            CpuBindingOperation::SetBinding,
            false
        ),
        Some(CpuBindingFlags::strict())
    );
    assert_eq!(no_mem.validate(this, CpuBindingOperation::SetBinding, false), Some(no_mem));
}

#[test]
fn process_strict_request_is_forwarded_unchanged() {
    let flags = CpuBindingFlags::process().union(CpuBindingFlags::strict());
    let r = flags.validate(
        CpuBoundObject::ThisProgram,
        CpuBindingOperation::SetBinding,
        false,
    );
    assert_eq!(r, Some(flags));
    assert_eq!(r.unwrap().native_bits(), 0b101);
}

#[test]
fn process_thread_request_gives_bad_flags_without_native_call() {
    let flags = CpuBindingFlags::process().union(CpuBindingFlags::thread());
    assert_eq!(
        flags.validate(CpuBoundObject::ThisProgram, CpuBindingOperation::SetBinding, true),
        None
    );
    let called = Cell::new(false);
    let set = set_of(&[0, 1]);
    let r = bind_cpu_impl(
        &set,
        flags,
        CpuBoundObject::ThisProgram,
        "hwloc_set_cpubind",
        true,
        |_, _| {
            called.set(true);
            0
        },
    );
    assert_eq!(r, Err(HybridError::Rust(CpuBindingError::BadFlags(FlagsError(flags)))));
    assert_eq!(r, Err(HybridError::Rust(CpuBindingError::from(flags))));
    assert!(!called.get());
}

#[test]
fn flag_set_operations() {
    let f = CpuBindingFlags::process().union(CpuBindingFlags::strict());
    assert_eq!(f.bits(), 0b101);
    assert!(f.contains(CpuBindingFlags::process()));
    assert!(!f.contains(CpuBindingFlags::thread()));
    assert!(f.intersects(CpuBindingFlags::strict().union(CpuBindingFlags::thread())));
    assert!(!f.intersects(CpuBindingFlags::thread()));
    assert!(CpuBindingFlags::empty().is_empty());
    assert!(!f.is_empty());
    assert_eq!(CpuBindingFlags::from_bits_truncate(0xffff_ffff).bits(), 0x8000_000f);
    assert_eq!(CpuBindingFlags::thread().bits(), 0b10);
    assert_eq!(CpuBindingFlags::no_memory_binding().bits(), 0b1000);
    assert_eq!(CpuBindingFlags::assume_single_thread().bits(), 1 << 31);
}

#[test]
fn cpu_result_interpretation() {
    let n = numbers();
    let set = set_of(&[2, 7]);
    let api = "hwloc_set_cpubind";
    assert_eq!(
        cpu_call_result(api, CpuBoundObject::ThisProgram, Some(&set), 0, 0, n),
        Ok(())
    );
    assert_eq!(
        cpu_call_result(api, CpuBoundObject::Thread, Some(&set), 3, libc::ENOSYS, n),
        Ok(())
    );
    assert_eq!(
        cpu_call_result(api, CpuBoundObject::Thread, Some(&set), -1, libc::ENOSYS, n),
        Err(HybridError::Rust(CpuBindingError::BadObject(CpuBoundObject::Thread)))
    );
    assert_eq!(
        cpu_call_result(api, CpuBoundObject::ProcessOrThread, None, -1, libc::ENOSYS, n),
        Err(HybridError::Rust(CpuBindingError::BadObject(
            CpuBoundObject::ProcessOrThread
        )))
    );
    assert_eq!(
        cpu_call_result(api, CpuBoundObject::ThisProgram, Some(&set), -1, libc::EXDEV, n),
        Err(HybridError::Rust(CpuBindingError::BadCpuSet(
            CpuBoundObject::ThisProgram,
            set_of(&[7, 2])
        )))
    );
    assert_eq!(
        cpu_call_result(api, CpuBoundObject::ThisProgram, None, -1, libc::EXDEV, n),
        Err(HybridError::Hwloc(RawHwlocError {
            api,
            result: -1,
            errno: libc::EXDEV
        }))
    );
    assert_eq!(
        cpu_call_result(api, CpuBoundObject::ThisProgram, Some(&set), -1, libc::EPERM, n),
        Err(HybridError::Hwloc(RawHwlocError {
            api,
            result: -1,
            errno: libc::EPERM
        }))
    );
    assert_eq!(
        cpu_call_result(api, CpuBoundObject::ThisProgram, Some(&set), -2, libc::ENOSYS, n),
        Err(HybridError::Hwloc(RawHwlocError {
            api,
            result: -2,
            errno: libc::ENOSYS
        }))
    );
}

#[test]
fn call_hwloc_reads_the_error_number() {
    let r = call_hwloc("hwloc_get_cpubind", CpuBoundObject::ThisProgram, None, || {
        errno::set_errno(errno::Errno(libc::ENOSYS));
        -1
    });
    assert_eq!(
        r,
        Err(HybridError::Rust(CpuBindingError::BadObject(CpuBoundObject::ThisProgram)))
    );
    let set = set_of(&[4]);
    let r = call_hwloc(
        "hwloc_set_cpubind",
        CpuBoundObject::ThisProgram,
        Some(&set),
        || {
            errno::set_errno(errno::Errno(libc::EXDEV));
            -1
        },
    );
    assert_eq!(
        r,
        Err(HybridError::Rust(CpuBindingError::BadCpuSet(
            CpuBoundObject::ThisProgram,
            set_of(&[4])
        )))
    );
    let r = call_hwloc("hwloc_set_cpubind", CpuBoundObject::Thread, None, || {
        errno::set_errno(errno::Errno(libc::EACCES));
        -1
    });
    assert_eq!(
        r,
        Err(HybridError::Hwloc(RawHwlocError {
            api: "hwloc_set_cpubind",
            result: -1,
            errno: libc::EACCES
        }))
    );
    let r = call_hwloc("hwloc_set_cpubind", CpuBoundObject::Thread, None, || 0);
    assert_eq!(r, Ok(()));
}

#[test]
fn bind_forwards_set_and_native_flags() {
    let set = set_of(&[1, 3]);
    let seen = Cell::new(None);
    let flags = CpuBindingFlags::assume_single_thread().union(CpuBindingFlags::strict());
    let r = bind_cpu_impl(
        &set,
        flags,
        CpuBoundObject::ThisProgram,
        "hwloc_set_cpubind",
        false,
        |s, bits| {
            seen.set(Some((s.indices().to_vec(), bits)));
            0
        },
    );
    assert_eq!(r, Ok(()));
    assert_eq!(seen.take(), Some((vec![1, 3], 0b100)));
    let r = bind_cpu_impl(
        &set,
        CpuBindingFlags::process(),
        CpuBoundObject::ThisProgram,
        "hwloc_set_cpubind",
        false,
        |_, _| {
            errno::set_errno(errno::Errno(libc::EXDEV));
            -1
        },
    );
    assert_eq!(
        r,
        Err(HybridError::Rust(CpuBindingError::BadCpuSet(
            CpuBoundObject::ThisProgram,
            set_of(&[1, 3])
        )))
    );
}

#[test]
fn queries_return_the_filled_set() {
    let r = cpu_binding_impl(
        CpuBindingFlags::thread(),
        CpuBoundObject::ThisProgram,
        "hwloc_get_cpubind",
        false,
        |mut s, bits| {
            assert_eq!(s.len(), 0);
            assert_eq!(bits, 0b10);
            s.insert(5);
            s.insert(0);
            (0, s)
        },
    );
    assert_eq!(r, Ok(set_of(&[0, 5])));
    let r = last_cpu_location_impl(
        CpuBindingFlags::process(),
        CpuBoundObject::ThisProgram,
        "hwloc_get_last_cpu_location",
        false,
        |s, _| {
            errno::set_errno(errno::Errno(libc::ENOSYS));
            (-1, s)
        },
    );
    assert_eq!(
        r,
        Err(HybridError::Rust(CpuBindingError::BadObject(CpuBoundObject::ThisProgram)))
    );
    let r = get_cpuset(
        CpuBindingFlags::process().union(CpuBindingFlags::strict()),
        CpuBoundObject::ThisProgram,
        CpuBindingOperation::GetLastLocation,
        "hwloc_get_last_cpu_location",
        false,
        |s, _| -> (i32, CpuSet) { panic!("no native call expected, got {:?}", s) },
    );
    assert_eq!(
        r,
        Err(HybridError::Rust(CpuBindingError::BadFlags(FlagsError(
            CpuBindingFlags::process().union(CpuBindingFlags::strict())
        ))))
    );
}

#[test]
fn query_with_exdev_is_an_unexpected_failure() {
    let r = get_cpuset(
        CpuBindingFlags::empty(),
        CpuBoundObject::ProcessOrThread,
        CpuBindingOperation::GetBinding,
        "hwloc_get_proc_cpubind",
        true,
        |s, _| {
            errno::set_errno(errno::Errno(libc::EXDEV));
            (-1, s)
        },
    );
    assert_eq!(
        r,
        Err(HybridError::Hwloc(RawHwlocError {
            api: "hwloc_get_proc_cpubind",
            result: -1,
            errno: libc::EXDEV
        }))
    );
}

#[test]
fn bound_object_descriptions() {
    assert_eq!(
        CpuBoundObject::ProcessOrThread.description(),
        "the target process/thread"
    );
    assert_eq!(CpuBoundObject::Thread.description(), "the target thread");
    assert_eq!(
        CpuBoundObject::ThisProgram.description(),
        "the current process/thread"
    );
}
