use vstd::prelude::*;

use crate::console::{
    EfiSimpleTextInputProtocol, EfiSimpleTextOutputProtocol, SimpleTextInputProtocol,
    SimpleTextOutputProtocol,
};
use crate::global::EfiGlobal;
use crate::safeptr::ThreadSafePtr;
use crate::console_step;
use crate::types::{
    code_result, status_result, EfiAddress, EfiGuid, EfiHandle, EfiMemoryType, EfiStatus, UINT32,
    UINT64, UINTN,
};

verus! {

pub const EFI_SYSTEM_TABLE_SIGNATURE: UINT64 = 0x5453_5953_2049_4249;

pub const EFI_2_100_SYSTEM_TABLE_REVISION: UINT32 = (2 << 16) | 100;
pub const EFI_2_90_SYSTEM_TABLE_REVISION: UINT32 = (2 << 16) | 90;
pub const EFI_2_80_SYSTEM_TABLE_REVISION: UINT32 = (2 << 16) | 80;
pub const EFI_2_70_SYSTEM_TABLE_REVISION: UINT32 = (2 << 16) | 70;
pub const EFI_2_60_SYSTEM_TABLE_REVISION: UINT32 = (2 << 16) | 60;
pub const EFI_2_50_SYSTEM_TABLE_REVISION: UINT32 = (2 << 16) | 50;
pub const EFI_2_40_SYSTEM_TABLE_REVISION: UINT32 = (2 << 16) | 40;
pub const EFI_2_31_SYSTEM_TABLE_REVISION: UINT32 = (2 << 16) | 31;
pub const EFI_2_30_SYSTEM_TABLE_REVISION: UINT32 = (2 << 16) | 30;
pub const EFI_2_20_SYSTEM_TABLE_REVISION: UINT32 = (2 << 16) | 20;
pub const EFI_2_10_SYSTEM_TABLE_REVISION: UINT32 = (2 << 16) | 10;
pub const EFI_2_00_SYSTEM_TABLE_REVISION: UINT32 = 2 << 16;
pub const EFI_1_10_SYSTEM_TABLE_REVISION: UINT32 = (1 << 16) | 10;
pub const EFI_1_02_SYSTEM_TABLE_REVISION: UINT32 = (1 << 16) | 2;

pub const EFI_SYSTEM_TABLE_REVISION: UINT32 = EFI_2_100_SYSTEM_TABLE_REVISION;
pub const EFI_SPECIFICATION_VERSION: UINT32 = EFI_SYSTEM_TABLE_REVISION;

/// The header that starts every firmware table.
#[derive(Debug, Copy, Clone, PartialEq, Eq, Structural)]
pub struct EfiTableHeader {
    pub signature: UINT64,
    pub revision: UINT32,
    pub header_size: UINT32,
    pub crc32: UINT32,
    pub reserved: UINT32,
}

/// The root table the firmware hands over, with every pointer held as an
/// address (zero for null).
#[derive(Debug, Copy, Clone, PartialEq, Eq, Structural)]
pub struct EfiSystemTable {
    pub hdr: EfiTableHeader,
    pub firmware_vendor: EfiAddress,
    pub firmware_revision: UINT32,
    pub console_in_handle: EfiHandle,
    pub con_in: EfiAddress,
    pub console_out_handle: EfiHandle,
    pub con_out: EfiAddress,
    pub standard_error_handle: EfiHandle,
    pub std_err: EfiAddress,
    pub runtime_services: EfiAddress,
    pub boot_services: EfiAddress,
    pub number_of_table_entries: UINTN,
    pub configuration_table: EfiAddress,
}

/// One entry of the vendor configuration table list.
#[derive(Debug, Copy, Clone)]
pub struct EfiConfigurationTable {
    pub vendor_guid: EfiGuid,
    pub vendor_table: EfiAddress,
}

/// The boot services table; each service slot holds the address of its entry
/// point.
#[derive(Debug, Copy, Clone, PartialEq, Eq, Structural)]
pub struct EfiBootServices {
    pub hdr: EfiTableHeader,
    pub raise_tpl: EfiAddress,
    pub restore_tpl: EfiAddress,
    pub allocate_pages: EfiAddress,
    pub free_pages: EfiAddress,
    pub get_memory_map: EfiAddress,
    pub allocate_pool: EfiAddress,
    pub free_pool: EfiAddress,
}

/// The run-time services table; each service slot holds the address of its
/// entry point.
#[derive(Debug, Copy, Clone, PartialEq, Eq, Structural)]
pub struct EfiRuntimeServices {
    pub hdr: EfiTableHeader,
    pub get_time: EfiAddress,
    pub set_time: EfiAddress,
    pub set_virtual_address_map: EfiAddress,
    pub convert_pointer: EfiAddress,
    pub get_variable: EfiAddress,
    pub get_next_variable_name: EfiAddress,
    pub set_variable: EfiAddress,
    pub get_next_high_monotonic_count: EfiAddress,
    pub reset_system: EfiAddress,
    pub update_capsule: EfiAddress,
    pub query_capsule_capabilities: EfiAddress,
    pub query_variable_info: EfiAddress,
}

/// What a pool allocation comes to, given the status code and the buffer
/// address the firmware reported: a success with a null buffer is no success.
pub open spec fn pool_outcome(code: usize, buffer: EfiAddress) -> Result<EfiAddress, EfiStatus> {
    if code == 0 {
        if buffer != 0 {
            Ok(buffer)
        } else {
            Err(EfiStatus::EfiBufferTooSmall)
        }
    } else {
        Err(EfiStatus::spec_from_code(code))
    }
}

/// View over the boot services table.
pub struct BootServices {
    pub services: ThreadSafePtr<EfiBootServices>,
}

impl BootServices {
    /// The address of the boot services table.
    pub open spec fn addr(&self) -> EfiAddress {
        self.services.addr()
    }

    pub fn new(services: EfiAddress) -> (r: Self)
        ensures
            r.addr() == services,
    {
        BootServices { services: ThreadSafePtr::new(services) }
    }

    /// Judges what the firmware reported for a pool allocation.
    pub fn pool_result(code: usize, buffer: EfiAddress) -> (r: Result<EfiAddress, EfiStatus>)
        ensures
            r == pool_outcome(code, buffer),
    {
        let status = EfiStatus::from_code(code);
        if status.is_success() {
            if buffer != 0 {
                Ok(buffer)
            } else {
                Err(EfiStatus::EfiBufferTooSmall)
            }
        } else {
            Err(status)
        }
    }

    /// Allocates `size` bytes of `pool_type` memory through the table's
    /// `allocate_pool` slot. `call` makes the firmware call with the table's
    /// address and returns the status code and the buffer address it wrote.
    pub fn allocate_pool<F: FnOnce(EfiAddress, EfiMemoryType, UINTN) -> (usize, EfiAddress)>(
        &self,
        pool_type: EfiMemoryType,
        size: UINTN,
        call: F,
    ) -> (r: Result<EfiAddress, EfiStatus>)
        requires
            call.requires((self.addr(), pool_type, size)),
        ensures
            exists|code: usize, buffer: EfiAddress|
                call.ensures((self.addr(), pool_type, size), (code, buffer)) && r == pool_outcome(
                    code,
                    buffer,
                ),
            r matches Ok(p) ==> p != 0,
    {
        let (code, buffer) = call(self.services.as_ptr(), pool_type, size);
        BootServices::pool_result(code, buffer)
    }

    /// Returns a buffer to the pool through the table's `free_pool` slot.
    pub fn free_pool<F: FnOnce(EfiAddress, EfiAddress) -> usize>(
        &self,
        buffer: EfiAddress,
        call: F,
    ) -> (r: Result<(), EfiStatus>)
        requires
            buffer != 0,
            call.requires((self.addr(), buffer)),
        ensures
            exists|code: usize|
                call.ensures((self.addr(), buffer), code) && r == status_result(
                    EfiStatus::spec_from_code(code),
                ),
    {
        let code = call(self.services.as_ptr(), buffer);
        code_result(code)
    }
}

/// View over the run-time services table.
pub struct RuntimeServices {
    services: ThreadSafePtr<EfiRuntimeServices>,
}

impl RuntimeServices {
    /// The address of the run-time services table.
    pub closed spec fn addr(&self) -> EfiAddress {
        self.services.addr()
    }

    pub fn new(services: EfiAddress) -> (r: Option<Self>)
        ensures
            r matches Some(v) && v.addr() == services,
    {
        Some(RuntimeServices { services: ThreadSafePtr::new(services) })
    }

    pub fn as_ptr(&self) -> (r: EfiAddress)
        ensures
            r == self.addr(),
    {
        self.services.as_ptr()
    }
}

/// View over the root table, with the console protocols resolved lazily, each
/// at most once.
pub struct SystemTable {
    pub table: ThreadSafePtr<EfiSystemTable>,
    pub con_in: EfiGlobal,
    pub con_out: EfiGlobal,
}

impl SystemTable {
    /// The address of the root table.
    pub open spec fn addr(&self) -> EfiAddress {
        self.table.addr()
    }

    /// A view over the root table at `table` with neither console resolved.
    pub fn new(table: EfiAddress) -> (r: Self)
        ensures
            r.addr() == table,
            r.con_in@ is None,
            r.con_out@ is None,
    {
        SystemTable { table: ThreadSafePtr::new(table), con_in: EfiGlobal::new(), con_out: EfiGlobal::new() }
    }

    /// The console input protocol. On first access `resolve` reads the
    /// protocol's address out of the root table (it is given the root table's
    /// address); the address is kept, and later accesses neither call `resolve`
    /// nor change anything. A null address is kept too, and gives `None`.
    pub fn con_in<F: FnOnce(EfiAddress) -> EfiAddress>(&mut self, resolve: F) -> (r: Option<
        SimpleTextInputProtocol,
    >)
        requires
            old(self).con_in@ is None ==> resolve.requires((old(self).addr(),)),
        ensures
            old(self).con_in@ is Some ==> *final(self) == *old(self),
            old(self).con_in@ is None ==> (exists|p: EfiAddress|
                resolve.ensures((old(self).addr(),), p) && final(self).con_in@ == console_step(
                    old(self).con_in@,
                    p,
                )),
            final(self).table == old(self).table,
            final(self).con_out == old(self).con_out,
            final(self).con_in@ matches Some(p) && (p == 0 ==> r is None) && (p != 0 ==> (
            r matches Some(v) && v.addr() == p)),
    {
        let p = match self.con_in.get() {
            Some(p) => p,
            None => {
                let ghost before = self.con_in@;
                let raw = resolve(self.table.as_ptr());
                let p = self.con_in.init(raw);
                assert(self.con_in@ == console_step(before, raw));
                p
            },
        };
        if p == 0 {
            None
        } else {
            Some(SimpleTextInputProtocol::new(p))
        }
    }

    /// The console output protocol, resolved as `con_in` is.
    pub fn con_out<F: FnOnce(EfiAddress) -> EfiAddress>(&mut self, resolve: F) -> (r: Option<
        SimpleTextOutputProtocol,
    >)
        requires
            old(self).con_out@ is None ==> resolve.requires((old(self).addr(),)),
        ensures
            old(self).con_out@ is Some ==> *final(self) == *old(self),
            old(self).con_out@ is None ==> (exists|p: EfiAddress|
                resolve.ensures((old(self).addr(),), p) && final(self).con_out@ == console_step(
                    old(self).con_out@,
                    p,
                )),
            final(self).table == old(self).table,
            final(self).con_in == old(self).con_in,
            final(self).con_out@ matches Some(p) && (p == 0 ==> r is None) && (p != 0 ==> (
            r matches Some(v) && v.addr() == p)),
    {
        let p = match self.con_out.get() {
            Some(p) => p,
            None => {
                let ghost before = self.con_out@;
                let raw = resolve(self.table.as_ptr());
                let p = self.con_out.init(raw);
                assert(self.con_out@ == console_step(before, raw));
                p
            },
        };
        if p == 0 {
            None
        } else {
            Some(SimpleTextOutputProtocol::new(p))
        }
    }
}

} // verus!
