//! Control codes of the device and the input of the mapping request.

use vstd::prelude::*;

verus! {

pub const FILE_ANY_ACCESS: u32 = 0;

pub const FILE_DEVICE_UNKNOWN: u32 = 34;

pub const METHOD_BUFFERED: u32 = 0;

/// A control code: the device type from bit 16, the access from bit 14, the
/// function from bit 2 and the transfer method in the two lowest bits.
pub open spec fn ctl_code(device_type: u32, function: u32, method: u32, access: u32) -> u32 {
    (device_type << 16) | (access << 14) | (function << 2) | method
}

pub fn _ctl_code(device_type: u32, function: u32, method: u32, access: u32) -> (code: u32)
    ensures
        code == ctl_code(device_type, function, method, access),
{
    (device_type << 16) | (access << 14) | (function << 2) | method
}

/// Asks the device to map a section and to signal an event on new data.
pub const IOCTL_MEMORY_INITIALIZE: u32 = 0x0022_2000;

/// Asks the device to let go of its mapping.
pub const IOCTL_MEMORY_CLEANUP: u32 = 0x0022_2004;

/// The two control codes are function 0x800 and 0x801 of an unknown device
/// type with buffered transfer and any access.
pub proof fn lemma_control_codes()
    ensures
        IOCTL_MEMORY_INITIALIZE == ctl_code(
            FILE_DEVICE_UNKNOWN,
            0x800,
            METHOD_BUFFERED,
            FILE_ANY_ACCESS,
        ),
        IOCTL_MEMORY_CLEANUP == ctl_code(
            FILE_DEVICE_UNKNOWN,
            0x801,
            METHOD_BUFFERED,
            FILE_ANY_ACCESS,
        ),
{
    assert(0x0022_2000u32 == (34u32 << 16) | (0u32 << 14) | (0x800u32 << 2) | 0u32)
        by (bit_vector);
    assert(0x0022_2004u32 == (34u32 << 16) | (0u32 << 14) | (0x801u32 << 2) | 0u32)
        by (bit_vector);
}

/// Input of the mapping request: the caller's handles of a section and of an
/// event, and the number of bytes of the section to map.
#[derive(Debug, Clone, Copy, PartialEq, Eq, Structural)]
pub struct MemoryInitialize {
    pub section: usize,
    pub event: usize,
    pub view_size: u64,
}

} // verus!
