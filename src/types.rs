use vstd::prelude::*;

verus! {

pub type BOOLEAN = u8;
pub type INTN = isize;
pub type UINTN = usize;
pub type INT8 = i8;
pub type UINT8 = u8;
pub type INT16 = i16;
pub type UINT16 = u16;
pub type INT32 = i32;
pub type UINT32 = u32;
pub type INT64 = i64;
pub type UINT64 = u64;
pub type CHAR8 = u8;
pub type CHAR16 = u16;

/// An address in the firmware's memory; zero is the null address.
pub type EfiAddress = usize;

pub type EfiHandle = EfiAddress;
pub type EfiEvent = EfiAddress;
pub type EfiLba = UINT64;
pub type EfiTpl = UINTN;
pub type EfiPhysicalAddress = UINT64;
pub type EfiVirtualAddress = UINT64;

pub const FALSE: BOOLEAN = 0;
pub const TRUE: BOOLEAN = 1;

pub const EFI_TIME_ADJUST_DAYLIGHT: UINT8 = 0x01;
pub const EFI_TIME_IN_DAYLIGHT: UINT8 = 0x02;
pub const EFI_UNSPECIFIED_TIMEZONE: INT16 = 0x07FF;

pub const CAPSULE_FLAGS_PERSIST_ACROSS_RESET: UINT32 = 0x00010000;
pub const CAPSULE_FLAGS_POPULATE_SYSTEM_TABLE: UINT32 = 0x00020000;
pub const CAPSULE_FLAGS_INITIATE_RESET: UINT32 = 0x00040000;

#[derive(Debug, Copy, Clone)]
pub struct EfiGuid {
    pub data1: u32,
    pub data2: u16,
    pub data3: u16,
    pub data4: [u8; 8],
}

#[derive(Debug, Copy, Clone)]
pub struct EfiMacAddress {
    pub addr: [u8; 32],
}

#[derive(Debug, Copy, Clone)]
pub struct EfiIpv4Address {
    pub addr: [u8; 4],
}

#[derive(Debug, Copy, Clone)]
pub struct EfiIpv6Address {
    pub addr: [u8; 16],
}

#[derive(Debug, Copy, Clone)]
pub struct EfiIpAddress {
    pub addr: [u8; 16],
}

#[derive(Debug, Copy, Clone, PartialEq, Eq, Structural)]
pub struct EfiInputKey {
    pub scan_code: UINT16,
    pub unicode_char: CHAR16,
}

#[derive(Debug, Copy, Clone, PartialEq, Eq, Structural)]
pub struct EfiTime {
    pub year: UINT16,
    pub month: UINT8,
    pub day: UINT8,
    pub hour: UINT8,
    pub minute: UINT8,
    pub second: UINT8,
    pub pad1: UINT8,
    pub nanosecond: UINT32,
    pub time_zone: INT16,
    pub daylight: UINT8,
    pub pad2: UINT8,
}

#[derive(Debug, Copy, Clone, PartialEq, Eq, Structural)]
pub struct EfiTimeCapabilities {
    pub resolution: UINT32,
    pub accuracy: UINT32,
    pub sets_to_zero: BOOLEAN,
}

#[derive(Debug, Copy, Clone, PartialEq, Eq, Structural)]
pub struct EfiMemoryDescriptor {
    pub mem_type: UINT32,
    pub physical_start: EfiPhysicalAddress,
    pub virtual_start: EfiVirtualAddress,
    pub number_of_pages: UINT64,
    pub attribute: UINT64,
}

#[derive(Debug, Copy, Clone, PartialEq, Eq, Structural)]
pub enum EfiResetType {
    EfiResetCold,
    EfiResetWarm,
    EfiResetShutdown,
    EfiResetPlatformSpecific,
}

#[derive(Debug, Copy, Clone)]
pub struct EfiCapsuleHeader {
    pub capsule_guid: EfiGuid,
    pub header_size: UINT32,
    pub flags: UINT32,
    pub capsule_image_size: UINT32,
}

#[derive(Debug, Copy, Clone, PartialEq, Eq, Structural)]
pub enum EfiMemoryType {
    EfiReservedMemoryType,
    EfiLoaderCode,
    EfiLoaderData,
    EfiBootServicesCode,
    EfiBootServicesData,
    EfiRuntimeServicesCode,
    EfiRuntimeServicesData,
    EfiConventionalMemory,
    EfiUnusableMemory,
    EfiACPIReclaimMemory,
    EfiACPIMemoryNVS,
    EfiMemoryMappedIO,
    EfiMemoryMappedIOPortSpace,
    EfiPalCode,
    EfiPersistentMemory,
    EfiUnacceptedMemoryType,
    EfiMaxMemoryType,
}

#[derive(Debug, Copy, Clone, PartialEq, Eq, Structural)]
pub enum EfiAllocateType {
    AllocateAnyPages,
    AllocateMaxAddress,
    AllocateAddress,
    MaxAllocateType,
}

/// A firmware status code. Zero is success; the codes that have a name get
/// their own variant, and every other code is carried verbatim in `EfiOther`.
#[derive(Debug, Copy, Clone, PartialEq, Eq, Structural)]
pub enum EfiStatus {
    EfiSuccess,
    EfiLoadError,
    EfiInvalidParameter,
    EfiUnsupported,
    EfiBadBufferSize,
    EfiBufferTooSmall,
    EfiAlreadyStarted,
    EfiOther(usize),
}

/// The codes that have a variant of their own.
pub open spec fn is_named_code(code: usize) -> bool {
    code == 0 || code == 1 || code == 2 || code == 3 || code == 4 || code == 5 || code == 20
}

impl EfiStatus {
    /// A status is well formed when `EfiOther` carries no code that has a name.
    pub open spec fn wf(self) -> bool {
        match self {
            EfiStatus::EfiOther(c) => !is_named_code(c),
            _ => true,
        }
    }

    /// The numeric code of a status.
    pub open spec fn spec_code(self) -> usize {
        match self {
            EfiStatus::EfiSuccess => 0,
            EfiStatus::EfiLoadError => 1,
            EfiStatus::EfiInvalidParameter => 2,
            EfiStatus::EfiUnsupported => 3,
            EfiStatus::EfiBadBufferSize => 4,
            EfiStatus::EfiBufferTooSmall => 5,
            EfiStatus::EfiAlreadyStarted => 20,
            EfiStatus::EfiOther(c) => c,
        }
    }

    /// The status that a numeric code stands for.
    pub open spec fn spec_from_code(code: usize) -> EfiStatus {
        if code == 0 {
            EfiStatus::EfiSuccess
        } else if code == 1 {
            EfiStatus::EfiLoadError
        } else if code == 2 {
            EfiStatus::EfiInvalidParameter
        } else if code == 3 {
            EfiStatus::EfiUnsupported
        } else if code == 4 {
            EfiStatus::EfiBadBufferSize
        } else if code == 5 {
            EfiStatus::EfiBufferTooSmall
        } else if code == 20 {
            EfiStatus::EfiAlreadyStarted
        } else {
            EfiStatus::EfiOther(code)
        }
    }

    pub fn from_code(code: usize) -> (r: EfiStatus)
        ensures
            r == EfiStatus::spec_from_code(code),
            r.wf(),
    {
        match code {
            0 => EfiStatus::EfiSuccess,
            1 => EfiStatus::EfiLoadError,
            2 => EfiStatus::EfiInvalidParameter,
            3 => EfiStatus::EfiUnsupported,
            4 => EfiStatus::EfiBadBufferSize,
            5 => EfiStatus::EfiBufferTooSmall,
            20 => EfiStatus::EfiAlreadyStarted,
            c => EfiStatus::EfiOther(c),
        }
    }

    pub fn code(&self) -> (r: usize)
        ensures
            r == self.spec_code(),
    {
        match self {
            EfiStatus::EfiSuccess => 0,
            EfiStatus::EfiLoadError => 1,
            EfiStatus::EfiInvalidParameter => 2,
            EfiStatus::EfiUnsupported => 3,
            EfiStatus::EfiBadBufferSize => 4,
            EfiStatus::EfiBufferTooSmall => 5,
            EfiStatus::EfiAlreadyStarted => 20,
            EfiStatus::EfiOther(c) => *c,
        }
    }

    /// Success is the code zero, whichever variant carries it.
    pub fn is_success(&self) -> (r: bool)
        ensures
            r == (self.spec_code() == 0),
    {
        self.code() == 0
    }
}

/// What a call that reports only a status returns: `Ok` when its code is
/// zero, else the status itself.
pub open spec fn status_result(status: EfiStatus) -> Result<(), EfiStatus> {
    if status.spec_code() == 0 {
        Ok(())
    } else {
        Err(status)
    }
}

/// Turns a status into a result, keeping every failing status as it is.
pub fn efi_try(status: EfiStatus) -> (r: Result<(), EfiStatus>)
    ensures
        r == status_result(status),
{
    if status.is_success() {
        Ok(())
    } else {
        Err(status)
    }
}

/// Turns the raw code that a firmware call returned into a result.
pub fn code_result(code: usize) -> (r: Result<(), EfiStatus>)
    ensures
        r == status_result(EfiStatus::spec_from_code(code)),
        code == 0 <==> r is Ok,
        r matches Err(s) ==> (s.spec_code() == code && s.wf()),
{
    efi_try(EfiStatus::from_code(code))
}

/// Every code survives the trip into a status and back.
pub proof fn lemma_code_round_trip(code: usize)
    ensures
        EfiStatus::spec_from_code(code).spec_code() == code,
        EfiStatus::spec_from_code(code).wf(),
{
}

/// Every well-formed status survives the trip into a code and back.
pub proof fn lemma_status_round_trip(status: EfiStatus)
    requires
        status.wf(),
    ensures
        EfiStatus::spec_from_code(status.spec_code()) == status,
{
}

/// A call that returns a non-zero code fails with exactly that code.
pub proof fn lemma_failure_keeps_code(code: usize)
    requires
        code != 0,
    ensures
        (status_result(EfiStatus::spec_from_code(code)) matches Err(s) && s.spec_code() == code),
{
}

#[derive(Debug, Copy, Clone, PartialEq, Eq, Structural)]
pub struct SimpleTextOutputMode {
    pub max_mode: INT32,
    pub mode: INT32,
    pub attribute: INT32,
    pub cursor_column: INT32,
    pub cursor_row: INT32,
    pub cursor_visible: BOOLEAN,
}

} // verus!
