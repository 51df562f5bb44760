//! Anonymous shared regions of any length.

use crate::mapping::{
    MapReply, MapRequest, Region, UnmapReply, UnmapRequest, MAP_ANONYMOUS, MAP_FAILED,
    MAP_POPULATE, MAP_SHARED, PROT_READ, PROT_WRITE,
};
use crate::sys;
use vstd::prelude::*;

verus! {

/// Why an anonymous region could not be made or released. Each case carries
/// the error number that the kernel left.
#[derive(Debug)]
pub enum AnonymousMmapError {
    /// The kernel refused the mapping: there is no region.
    MmapFailed(i32),
    /// The kernel refused to unmap: the region is still mapped and comes back.
    MunmapFailed(AnonymousMmap, i32),
}

impl AnonymousMmapError {
    /// The error number that the kernel left.
    pub fn os_error(&self) -> (r: i32)
        ensures
            r == match *self {
                AnonymousMmapError::MmapFailed(e) => e,
                AnonymousMmapError::MunmapFailed(_, e) => e,
            },
    {
        match self {
            AnonymousMmapError::MmapFailed(e) => *e,
            AnonymousMmapError::MunmapFailed(_, e) => *e,
        }
    }
}

/// One live anonymous mapping: page-aligned, zero-filled, backed by no file.
/// Who holds it is the only one to release it.
#[derive(Debug)]
pub struct AnonymousMmap {
    addr: usize,
    len: usize,
}

/// The addresses that the region covers.
impl View for AnonymousMmap {
    type V = Region;

    closed spec fn view(&self) -> Region {
        Region { base: self.addr as int, len: self.len as int }
    }
}

impl AnonymousMmap {
    #[verifier::type_invariant]
    spec fn live_address(self) -> bool {
        self.addr != 0 && self.addr != MAP_FAILED
    }

    /// The flags of an anonymous request: anonymous, shared, populated at once.
    pub open spec fn request_flags() -> i32 {
        MAP_ANONYMOUS | MAP_SHARED | MAP_POPULATE
    }

    /// What to ask of the kernel for a region of `len` bytes. The length goes
    /// out as it is: rounding to pages is the kernel's business.
    pub fn map_request(len: usize) -> (r: MapRequest)
        ensures
            r.len == len,
            r.prot == PROT_READ | PROT_WRITE,
            r.flags == Self::request_flags(),
            r.fd == -1,
            r.offset == 0,
    {
        MapRequest {
            len,
            prot: sys::prot_read() | sys::prot_write(),
            flags: sys::map_anonymous() | sys::map_shared() | sys::map_populate(),
            fd: -1,
            offset: 0,
        }
    }

    /// Makes the region from the kernel's answer to `map_request(len)`. A
    /// mapping that succeeded never starts at the null address.
    pub fn new(len: usize, reply: MapReply) -> (r: Result<Self, AnonymousMmapError>)
        requires
            reply.addr != 0,
        ensures
            match r {
                Ok(h) => !reply.failed() && h@ == (Region {
                    base: reply.addr as int,
                    len: len as int,
                }),
                Err(AnonymousMmapError::MmapFailed(e)) => reply.failed() && e == reply.os_error,
                Err(AnonymousMmapError::MunmapFailed(_, _)) => false,
            },
    {
        if reply.addr == sys::map_failed() {
            return Err(AnonymousMmapError::MmapFailed(reply.os_error));
        }
        Ok(Self { addr: reply.addr, len })
    }

    /// The address at which the region starts, for writing.
    pub fn as_ptr_mut(&self) -> (r: usize)
        ensures
            r == self@.base,
            r != 0,
            r != MAP_FAILED,
    {
        proof {
            use_type_invariant(self);
        }
        self.addr
    }

    /// The address at which the region starts, for reading.
    pub fn as_ptr(&self) -> (r: usize)
        ensures
            r == self@.base,
            r != 0,
            r != MAP_FAILED,
    {
        proof {
            use_type_invariant(self);
        }
        self.addr
    }

    /// The address `offset` bytes behind the start, for reading. The offset is
    /// not held against the region's length: that it stays inside is for the
    /// caller to know.
    pub fn offset_unchecked_as_ptr(&self, offset: u32) -> (r: usize)
        requires
            self@.base + offset <= usize::MAX,
        ensures
            r == self@.base + offset,
            self@.contains(r as int) <==> offset < self@.len,
    {
        self.as_ptr() + offset as usize
    }

    /// The address `offset` bytes behind the start, for writing. The offset is
    /// not held against the region's length: that it stays inside is for the
    /// caller to know.
    pub fn offset_unchecked_as_ptr_mut(&self, offset: u32) -> (r: usize)
        requires
            self@.base + offset <= usize::MAX,
        ensures
            r == self@.base + offset,
            self@.contains(r as int) <==> offset < self@.len,
    {
        self.as_ptr_mut() + offset as usize
    }

    /// What to ask of the kernel to release the region.
    pub fn unmap_request(&self) -> (r: UnmapRequest)
        ensures
            r.addr == self@.base,
            r.len == self@.len,
    {
        UnmapRequest { addr: self.addr, len: self.len }
    }

    /// Ends the region's life on the kernel's answer to `unmap_request()`.
    /// Where the kernel refused, the region comes back unchanged inside the
    /// error, to be released again or given up.
    pub fn try_drop(self, reply: UnmapReply) -> (r: Result<(), AnonymousMmapError>)
        ensures
            match r {
                Ok(_) => !reply.failed(),
                Err(AnonymousMmapError::MunmapFailed(h, e)) => reply.failed() && h == self && e
                    == reply.os_error,
                Err(AnonymousMmapError::MmapFailed(_)) => false,
            },
    {
        if reply.code != 0 {
            return Err(AnonymousMmapError::MunmapFailed(self, reply.os_error));
        }
        Ok(())
    }
}

/// The flags of an anonymous request as one number, and the protection of
/// every request: reading and writing.
pub proof fn lemma_request_bits()
    ensures
        AnonymousMmap::request_flags() == 0x8021,
        PROT_READ | PROT_WRITE == 3,
{
    assert(0x0020i32 | 0x0001i32 | 0x8000i32 == 0x8021i32) by (bit_vector);
    assert(0x1i32 | 0x2i32 == 3i32) by (bit_vector);
}

} // verus!
