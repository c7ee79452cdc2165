use std::cell::Cell;

use efilib::allocator::EfiAllocator;
use efilib::console::{fill_stack_buffer, SimpleTextInputProtocol, SimpleTextOutputProtocol, STACK_BUF_SIZE};
use efilib::tables::{BootServices, EfiSystemTable, EfiTableHeader};
use efilib::types::{code_result, efi_try, EfiInputKey, EfiMemoryType, EfiStatus};
use efilib::{init_efilib, EfiLib};

fn ready_lib() -> EfiLib {
    let mut lib = EfiLib::new();
    let hdr = EfiTableHeader { signature: 0, revision: 0, header_size: 0, crc32: 0, reserved: 0 };
    let root = EfiSystemTable {
        hdr,
        firmware_vendor: 0,
        firmware_revision: 0,
        console_in_handle: 0,
        con_in: 0,
        console_out_handle: 0,
        con_out: 0,
        standard_error_handle: 0,
        std_err: 0,
        runtime_services: 0x3000,
        boot_services: 0x2000,
        number_of_table_entries: 0,
        configuration_table: 0,
    };
    assert_eq!(init_efilib(&mut lib, 0x1000, |_| root), Ok(()));
    lib
}

#[test]
fn status_codes_round_trip() {
    for code in [0usize, 1, 2, 3, 4, 5, 6, 7, 19, 20, 21, 100, usize::MAX] {
        assert_eq!(EfiStatus::from_code(code).code(), code);
    }
    assert_eq!(EfiStatus::from_code(0), EfiStatus::EfiSuccess);
    assert_eq!(EfiStatus::from_code(1), EfiStatus::EfiLoadError);
    assert_eq!(EfiStatus::from_code(2), EfiStatus::EfiInvalidParameter);
    assert_eq!(EfiStatus::from_code(3), EfiStatus::EfiUnsupported);
    assert_eq!(EfiStatus::from_code(4), EfiStatus::EfiBadBufferSize);
    assert_eq!(EfiStatus::from_code(5), EfiStatus::EfiBufferTooSmall);
    assert_eq!(EfiStatus::from_code(20), EfiStatus::EfiAlreadyStarted);
    assert_eq!(EfiStatus::from_code(14), EfiStatus::EfiOther(14));
    assert_eq!(EfiStatus::EfiAlreadyStarted.code(), 20);
}

#[test]
fn success_is_ok_and_failures_keep_their_code() {
    assert!(EfiStatus::EfiSuccess.is_success());
    assert!(!EfiStatus::EfiUnsupported.is_success());
    assert_eq!(efi_try(EfiStatus::EfiSuccess), Ok(()));
    assert_eq!(efi_try(EfiStatus::EfiUnsupported), Err(EfiStatus::EfiUnsupported));
    assert_eq!(code_result(0), Ok(()));
    assert_eq!(code_result(2), Err(EfiStatus::EfiInvalidParameter));
    let e = code_result(0x8000_0000_0000_000e).unwrap_err();
    assert_eq!(e.code(), 0x8000_0000_0000_000e);
}

#[test]
fn pool_success_with_null_buffer_is_buffer_too_small() {
    let bs = BootServices::new(0x2000);
    let r = bs.allocate_pool(EfiMemoryType::EfiLoaderData, 16, |_, _, _| (0usize, 0usize));
    assert_eq!(r, Err(EfiStatus::EfiBufferTooSmall));
    assert_eq!(BootServices::pool_result(0, 0), Err(EfiStatus::EfiBufferTooSmall));
}

#[test]
fn pool_allocation_forwards_arguments_and_returns_buffer() {
    let bs = BootServices::new(0x2000);
    let r = bs.allocate_pool(EfiMemoryType::EfiBootServicesData, 64, |t, ty, n| {
        assert_eq!(t, 0x2000);
        assert_eq!(ty, EfiMemoryType::EfiBootServicesData);
        assert_eq!(n, 64);
        (0usize, 0x8000usize)
    });
    assert_eq!(r, Ok(0x8000));
}

#[test]
fn pool_failure_keeps_exact_code() {
    let bs = BootServices::new(0x2000);
    assert_eq!(bs.allocate_pool(EfiMemoryType::EfiLoaderData, 8, |_, _, _| (9usize, 0x8000usize)), Err(EfiStatus::EfiOther(9)));
    assert_eq!(bs.allocate_pool(EfiMemoryType::EfiLoaderData, 8, |_, _, _| (3usize, 0usize)), Err(EfiStatus::EfiUnsupported));
    assert_eq!(bs.free_pool(0x8000, |_, _| 2usize), Err(EfiStatus::EfiInvalidParameter));
    assert_eq!(bs.free_pool(0x8000, |t, p| { assert_eq!((t, p), (0x2000, 0x8000)); 0usize }), Ok(()));
}

#[test]
fn allocator_returns_null_on_null_success() {
    let lib = ready_lib();
    let a = EfiAllocator::new();
    assert_eq!(a.allocate(&lib, 32, 8, |_, _, _| (0usize, 0usize)), 0);
    assert_eq!(a.allocate(&lib, 32, 8, |_, _, _| (5usize, 0x8000usize)), 0);
    assert_eq!(a.allocate(&lib, 32, 8, |_, _, _| (0usize, 0x8000usize)), 0x8000);
}

#[test]
fn allocator_widens_size_to_alignment() {
    let lib = ready_lib();
    let a = EfiAllocator::new();
    let asked = Cell::new(0usize);
    let p = a.allocate(&lib, 0, 1, |t, ty, n| {
        assert_eq!(t, 0x2000);
        assert_eq!(ty, EfiMemoryType::EfiLoaderData);
        asked.set(n);
        (0usize, 0x8000usize)
    });
    assert_eq!(p, 0x8000);
    assert_eq!(asked.get(), 1);
    a.allocate(&lib, 3, 16, |_, _, n| { asked.set(n); (0usize, 0x8000usize) });
    assert_eq!(asked.get(), 16);
    a.allocate(&lib, 100, 8, |_, _, n| { asked.set(n); (0usize, 0x8000usize) });
    assert_eq!(asked.get(), 100);
    assert_eq!(EfiAllocator::request_size(0, 1), 1);
}

#[test]
fn allocator_before_init_returns_null() {
    let lib = EfiLib::new();
    let a = EfiAllocator::new();
    let p = a.allocate(&lib, 32, 8, |_, _, _| -> (usize, usize) { panic!("firmware called before init") });
    assert_eq!(p, 0);
}

#[test]
fn dealloc_null_or_uninitialized_calls_nothing() {
    let a = EfiAllocator::new();
    let lib = EfiLib::new();
    assert!(!a.dealloc(&lib, 0x8000, |_, _| -> usize { panic!("freed before init") }));
    let lib = ready_lib();
    assert!(!a.dealloc(&lib, 0, |_, _| -> usize { panic!("freed a null pointer") }));
    let freed = Cell::new(0usize);
    assert!(a.dealloc(&lib, 0x8000, |t, p| { assert_eq!(t, 0x2000); freed.set(p); 2usize }));
    assert_eq!(freed.get(), 0x8000);
}

#[test]
fn alloc_zeroed_zeroes_only_on_success() {
    let lib = ready_lib();
    let a = EfiAllocator::new();
    let zeroed = Cell::new((0usize, 0usize));
    let p = a.alloc_zeroed(&lib, 24, 8, |_, _, _| (0usize, 0x8000usize), |p, n| zeroed.set((p, n)));
    assert_eq!(p, 0x8000);
    assert_eq!(zeroed.get(), (0x8000, 24));
    let p = a.alloc_zeroed(&lib, 24, 8, |_, _, _| (0usize, 0usize), |_, _| panic!("zeroed a null buffer"));
    assert_eq!(p, 0);
}

#[test]
fn stack_buffer_holds_string_and_terminator() {
    let b = fill_stack_buffer("Hi!").unwrap();
    assert_eq!(&b[..4], &[0x48, 0x69, 0x21, 0]);
    assert!(b.iter().skip(3).all(|&u| u == 0));
    let b = fill_stack_buffer("").unwrap();
    assert!(b.iter().all(|&u| u == 0));
    let b = fill_stack_buffer("é😀").unwrap();
    assert_eq!(&b[..4], &[0x00e9, 0xd83d, 0xde00, 0]);
}

#[test]
fn stack_buffer_at_capacity_minus_terminator_fits() {
    let s = "a".repeat(STACK_BUF_SIZE - 1);
    let b = fill_stack_buffer(&s).unwrap();
    assert_eq!(b[STACK_BUF_SIZE - 2], 0x61);
    assert_eq!(b[STACK_BUF_SIZE - 1], 0);
}

#[test]
fn stack_buffer_overflow_is_invalid_parameter() {
    let s = "a".repeat(STACK_BUF_SIZE);
    assert_eq!(fill_stack_buffer(&s), Err(EfiStatus::EfiInvalidParameter));
    let s = "a".repeat(1000);
    assert_eq!(fill_stack_buffer(&s), Err(EfiStatus::EfiInvalidParameter));
    // 127 surrogate pairs take 254 units and fit; one more pair does not.
    let s = "😀".repeat(127);
    assert!(fill_stack_buffer(&s).is_ok());
    let s = "😀".repeat(128);
    assert_eq!(fill_stack_buffer(&s), Err(EfiStatus::EfiInvalidParameter));
    let s = format!("{}😀", "a".repeat(254));
    assert_eq!(fill_stack_buffer(&s), Err(EfiStatus::EfiInvalidParameter));
}

#[test]
fn output_string_too_long_calls_nothing() {
    let out = SimpleTextOutputProtocol::new(0x9400);
    let s = "x".repeat(STACK_BUF_SIZE);
    let r = out.output_string(&s, |_, _| -> usize { panic!("oversized string sent") });
    assert_eq!(r, Err(EfiStatus::EfiInvalidParameter));
    let r = out.test_string(&s, |_, _| -> usize { panic!("oversized string tested") });
    assert_eq!(r, Err(EfiStatus::EfiInvalidParameter));
}

#[test]
fn output_string_sends_terminated_buffer() {
    let out = SimpleTextOutputProtocol::new(0x9400);
    let r = out.output_string("ok", |p, buf| {
        assert_eq!(p, 0x9400);
        assert_eq!(&buf[..3], &[0x6f, 0x6b, 0]);
        0usize
    });
    assert_eq!(r, Ok(()));
    assert_eq!(out.test_string("ok", |_, _| 3usize), Err(EfiStatus::EfiUnsupported));
    assert_eq!(out.output_string("ok", |_, _| 0x8000_0000_0000_0007usize).unwrap_err().code(), 0x8000_0000_0000_0007);
}

#[test]
fn console_calls_report_exact_status() {
    let input = SimpleTextInputProtocol::new(0x9200);
    assert_eq!(input.as_ptr(), 0x9200);
    assert_eq!(input.reset(1, |p, e| { assert_eq!((p, e), (0x9200, 1)); 0usize }), Ok(()));
    assert_eq!(input.reset(0, |_, _| 7usize), Err(EfiStatus::EfiOther(7)));
    let key = EfiInputKey { scan_code: 0x17, unicode_char: 0x41 };
    assert_eq!(input.read_key_stroke(|_| (0usize, key)), Ok(key));
    assert_eq!(input.read_key_stroke(|_| (6usize, key)), Err(EfiStatus::EfiOther(6)));
    let out = SimpleTextOutputProtocol::new(0x9400);
    assert_eq!(out.reset(0, |_, _| 1usize), Err(EfiStatus::EfiLoadError));
    assert_eq!(out.reset(0, |_, _| 0usize), Ok(()));
}

#[test]
fn success_follows_the_code() {
    assert!(EfiStatus::EfiOther(0).is_success());
    assert_eq!(efi_try(EfiStatus::EfiOther(0)), Ok(()));
    assert!(!EfiStatus::EfiOther(7).is_success());
}

#[test]
fn dealloc_forwards_pointer_whatever_the_status() {
    let lib = ready_lib();
    let a = EfiAllocator::new();
    for status in [0usize, 2, 9] {
        let calls = Cell::new(0u32);
        let forwarded = a.dealloc(&lib, 0x8100, |t, p| {
            assert_eq!((t, p), (0x2000, 0x8100));
            calls.set(calls.get() + 1);
            status
        });
        assert!(forwarded);
        assert_eq!(calls.get(), 1);
    }
}

#[test]
fn alloc_zeroed_before_init_returns_null() {
    let lib = EfiLib::new();
    let a = EfiAllocator::new();
    let p = a.alloc_zeroed(
        &lib,
        24,
        8,
        |_, _, _| -> (usize, usize) { panic!("firmware called before init") },
        |_, _| panic!("zeroed before init"),
    );
    assert_eq!(p, 0);
}
