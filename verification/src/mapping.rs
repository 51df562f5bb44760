//! What is asked of the kernel and what it answers, as plain values.

use vstd::prelude::*;

verus! {

/// Pages may be read.
pub const PROT_READ: i32 = 0x1;

/// Pages may be written.
pub const PROT_WRITE: i32 = 0x2;

/// Writes are shared with every process that maps the same object.
pub const MAP_SHARED: i32 = 0x0001;

/// Writes stay private to this mapping.
pub const MAP_PRIVATE: i32 = 0x0002;

/// The mapping is backed by no file and starts out as zeroes.
pub const MAP_ANONYMOUS: i32 = 0x0020;

/// All pages are faulted in while the call runs.
pub const MAP_POPULATE: i32 = 0x8000;

/// The mapping is backed by huge pages.
pub const MAP_HUGETLB: i32 = 0x4_0000;

/// The bit at which the six-bit page-size exponent starts in the flags.
pub const MAP_HUGE_SHIFT: u32 = 26;

/// The mask of the page-size exponent, once shifted down.
pub const MAP_HUGE_MASK: u32 = 0x3f;

/// The address that stands for a failed mapping: all bits set.
pub const MAP_FAILED: usize = usize::MAX;

/// The flag bits that ask for huge pages of `2^exponent` bytes: the exponent,
/// moved up to `MAP_HUGE_SHIFT`, read as a signed 32-bit number.
pub open spec fn huge_flag_bits(exponent: u32) -> i32 {
    (exponent << MAP_HUGE_SHIFT) as i32
}

/// A range of addresses: `len` bytes from `base` on.
pub struct Region {
    pub base: int,
    pub len: int,
}

impl Region {
    /// The first address behind the range.
    pub open spec fn end(self) -> int {
        self.base + self.len
    }

    /// Whether `addr` lies in the range.
    pub open spec fn contains(self, addr: int) -> bool {
        self.base <= addr < self.end()
    }
}

/// The arguments of one `mmap` call. The address hint is always null.
#[derive(Debug, Clone, Copy)]
pub struct MapRequest {
    /// Bytes to map.
    pub len: usize,
    /// Protection bits.
    pub prot: i32,
    /// Mapping flags.
    pub flags: i32,
    /// File descriptor; -1 for none.
    pub fd: i32,
    /// Offset into the file.
    pub offset: i64,
}

/// What one `mmap` call gave: the address it returned and the error number
/// read right after it. The error number counts only where the address is
/// `MAP_FAILED`.
#[derive(Debug, Clone, Copy)]
pub struct MapReply {
    pub addr: usize,
    pub os_error: i32,
}

/// The arguments of one `munmap` call.
#[derive(Debug, Clone, Copy)]
pub struct UnmapRequest {
    pub addr: usize,
    pub len: usize,
}

/// What one `munmap` call gave: its return code and the error number read
/// right after it. The error number counts only where the code is not zero.
#[derive(Debug, Clone, Copy)]
pub struct UnmapReply {
    pub code: i32,
    pub os_error: i32,
}

impl MapReply {
    /// Whether the kernel refused the mapping.
    pub open spec fn failed(self) -> bool {
        self.addr == MAP_FAILED
    }
}

impl UnmapReply {
    /// Whether the kernel refused to unmap.
    pub open spec fn failed(self) -> bool {
        self.code != 0
    }
}

} // verus!
