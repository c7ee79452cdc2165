use vstd::prelude::*;

use crate::tables::{pool_outcome, BootServices};
use crate::types::{EfiAddress, EfiMemoryType, UINTN};
use crate::EfiLib;

verus! {

/// The size asked of the firmware pool for a request of `size` bytes aligned
/// to `align`: the pool takes no alignment, so the size is widened to at least
/// the alignment.
pub open spec fn pool_size(size: usize, align: usize) -> usize {
    if size >= align {
        size
    } else {
        align
    }
}

/// The address an allocation hands back, given the firmware's reply: the
/// buffer on success, null on any failure.
pub open spec fn alloc_outcome(code: usize, buffer: EfiAddress) -> EfiAddress {
    match pool_outcome(code, buffer) {
        Ok(p) => p,
        Err(_) => 0,
    }
}

/// The memory type that every allocation asks for.
pub open spec fn alloc_pool_type() -> EfiMemoryType {
    EfiMemoryType::EfiLoaderData
}

/// An allocator that forwards to the firmware pool once the boot services
/// are published.
pub struct EfiAllocator;

impl EfiAllocator {
    pub fn new() -> (r: Self) {
        EfiAllocator
    }

    /// The size forwarded to the pool for a request of `size` bytes aligned
    /// to `align`.
    pub fn request_size(size: usize, align: usize) -> (r: UINTN)
        ensures
            r == pool_size(size, align),
            r >= size,
            r >= align,
    {
        if size >= align {
            size
        } else {
            align
        }
    }

    /// Allocates through the firmware pool; returns the buffer's address, or
    /// null when the boot services are not published yet or the firmware
    /// fails. `allocate_pool` makes the firmware call (see
    /// `BootServices::allocate_pool`); it is not called before initialization.
    pub fn allocate<F: FnOnce(EfiAddress, EfiMemoryType, UINTN) -> (usize, EfiAddress)>(
        &self,
        lib: &EfiLib,
        size: usize,
        align: usize,
        allocate_pool: F,
    ) -> (r: EfiAddress)
        requires
            lib.wf(),
            lib@.initialized ==> allocate_pool.requires(
                (lib@.boot_services->0, alloc_pool_type(), pool_size(size, align)),
            ),
        ensures
            !lib@.initialized ==> r == 0,
            lib@.initialized ==> (exists|code: usize, buffer: EfiAddress|
                allocate_pool.ensures(
                    (lib@.boot_services->0, alloc_pool_type(), pool_size(size, align)),
                    (code, buffer),
                ) && r == alloc_outcome(code, buffer)),
    {
        let bs = match lib.try_boot_services() {
            Some(bs) => bs,
            None => return 0,
        };
        let n = EfiAllocator::request_size(size, align);
        let ghost args = (bs.addr(), alloc_pool_type(), n);
        let res = bs.allocate_pool(EfiMemoryType::EfiLoaderData, n, allocate_pool);
        let r = match res {
            Ok(p) => p,
            Err(_) => 0,
        };
        proof {
            let (code, buffer) = choose|code: usize, buffer: EfiAddress|
                #[trigger] allocate_pool.ensures(args, (code, buffer)) && res == pool_outcome(
                    code,
                    buffer,
                );
            assert(allocate_pool.ensures(args, (code, buffer)) && r == alloc_outcome(code, buffer));
        }
        r
    }

    /// Frees through the firmware pool: once the boot services are published
    /// and `ptr` is non-null, `free_pool` is called with the boot services
    /// table and `ptr`. Otherwise nothing is called, and nothing fails:
    /// `free_pool` need not even be callable then. Returns whether the free was
    /// forwarded; the firmware's status is dropped, as a free must not fail.
    pub fn dealloc<F: FnOnce(EfiAddress, EfiAddress) -> usize>(
        &self,
        lib: &EfiLib,
        ptr: EfiAddress,
        free_pool: F,
    ) -> (r: bool)
        requires
            lib.wf(),
            lib@.initialized && ptr != 0 ==> free_pool.requires((lib@.boot_services->0, ptr)),
        ensures
            r == (lib@.initialized && ptr != 0),
            lib@.initialized && ptr != 0 ==> exists|code: usize|
                free_pool.ensures((lib@.boot_services->0, ptr), code),
    {
        match lib.try_boot_services() {
            Some(bs) => {
                if ptr != 0 {
                    let _ = bs.free_pool(ptr, free_pool);
                    true
                } else {
                    false
                }
            },
            None => false,
        }
    }

    /// Allocates as `allocate` does, then has `zero` clear the first `size`
    /// bytes of the buffer it got. After a failure null is returned and `zero`
    /// is not called: it need only be callable on a buffer that the allocation
    /// can return.
    pub fn alloc_zeroed<
        F: FnOnce(EfiAddress, EfiMemoryType, UINTN) -> (usize, EfiAddress),
        Z: FnOnce(EfiAddress, usize),
    >(&self, lib: &EfiLib, size: usize, align: usize, allocate_pool: F, zero: Z) -> (r: EfiAddress)
        requires
            lib.wf(),
            lib@.initialized ==> allocate_pool.requires(
                (lib@.boot_services->0, alloc_pool_type(), pool_size(size, align)),
            ),
            forall|code: usize, buffer: EfiAddress|
                lib@.initialized && #[trigger] allocate_pool.ensures(
                    (lib@.boot_services->0, alloc_pool_type(), pool_size(size, align)),
                    (code, buffer),
                ) && alloc_outcome(code, buffer) != 0 ==> zero.requires(
                    (alloc_outcome(code, buffer), size),
                ),
        ensures
            !lib@.initialized ==> r == 0,
            lib@.initialized ==> (exists|code: usize, buffer: EfiAddress|
                allocate_pool.ensures(
                    (lib@.boot_services->0, alloc_pool_type(), pool_size(size, align)),
                    (code, buffer),
                ) && r == alloc_outcome(code, buffer)),
            r != 0 ==> zero.ensures((r, size), ()),
    {
        let p = self.allocate(lib, size, align, allocate_pool);
        if p != 0 {
            zero(p, size);
        }
        p
    }
}

/// The pool is never asked for zero bytes: whatever the requested size, the
/// forwarded size is at least the alignment, which is at least one.
pub proof fn lemma_no_zero_size_forward(size: usize, align: usize)
    requires
        align >= 1,
    ensures
        pool_size(size, align) >= 1,
        pool_size(size, align) >= size,
        pool_size(size, align) >= align,
{
}

/// A reply of success with a null buffer is a failure: the pool view reports
/// `EfiBufferTooSmall`, and an allocation returns null.
pub proof fn lemma_null_success_fails(code: usize, buffer: EfiAddress)
    requires
        code == 0,
        buffer == 0,
    ensures
        pool_outcome(code, buffer) == Err::<EfiAddress, crate::types::EfiStatus>(
            crate::types::EfiStatus::EfiBufferTooSmall,
        ),
        alloc_outcome(code, buffer) == 0,
{
}

} // verus!
