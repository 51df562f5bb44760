//! Regions backed by huge pages, in one of twelve sizes.

use crate::mapping::{
    huge_flag_bits, MapReply, MapRequest, Region, UnmapReply, UnmapRequest, MAP_ANONYMOUS,
    MAP_FAILED, MAP_HUGETLB, MAP_HUGE_MASK, MAP_HUGE_SHIFT, MAP_POPULATE, MAP_PRIVATE,
    PROT_READ, PROT_WRITE,
};
use crate::sys;
use vstd::arithmetic::power2::{lemma2_to64, lemma2_to64_rest, pow2};
use vstd::prelude::*;

verus! {

/// The huge-page sizes that Linux knows. Which of them the running kernel has
/// configured is for the caller to find out.
#[derive(Copy, Clone, Debug, PartialEq, Eq, Structural)]
#[allow(non_camel_case_types)]
pub enum HugePageChoice {
    HUGE_64KB,
    HUGE_512KB,
    HUGE_1MB,
    HUGE_2MB,
    HUGE_8MB,
    HUGE_16MB,
    HUGE_32MB,
    HUGE_256MB,
    HUGE_512MB,
    HUGE_1GB,
    HUGE_2GB,
    HUGE_16GB,
}

impl HugePageChoice {
    /// The base-2 logarithm of the page size. Both the length of the mapping
    /// and the flag that selects the page size derive from it.
    pub open spec fn size_exponent(self) -> u32 {
        match self {
            Self::HUGE_64KB => 16,
            Self::HUGE_512KB => 19,
            Self::HUGE_1MB => 20,
            Self::HUGE_2MB => 21,
            Self::HUGE_8MB => 23,
            Self::HUGE_16MB => 24,
            Self::HUGE_32MB => 25,
            Self::HUGE_256MB => 28,
            Self::HUGE_512MB => 29,
            Self::HUGE_1GB => 30,
            Self::HUGE_2GB => 31,
            Self::HUGE_16GB => 34,
        }
    }

    /// The page size in bytes.
    pub open spec fn magnitude(self) -> nat {
        pow2(self.size_exponent() as nat)
    }

    /// The flag bits that select this page size.
    pub open spec fn flag(self) -> i32 {
        huge_flag_bits(self.size_exponent())
    }

    /// Whether a mapping of this page size fits the machine's address space.
    /// Only the largest class can fail this, where addresses have 32 bits.
    pub fn is_addressable(&self) -> (r: bool)
        ensures
            r == (self.magnitude() <= usize::MAX),
    {
        proof {
            lemma2_to64();
            lemma2_to64_rest();
        }
        match self {
            Self::HUGE_16GB => usize::MAX as u64 >= 17_179_869_184u64,
            _ => true,
        }
    }

    /// The flag bits that tell the kernel which page size is meant.
    pub fn as_libc_flag(&self) -> (r: i32)
        ensures
            r == self.flag(),
    {
        match self {
            Self::HUGE_64KB => sys::map_huge_64kb(),
            Self::HUGE_512KB => sys::map_huge_512kb(),
            Self::HUGE_1MB => sys::map_huge_1mb(),
            Self::HUGE_2MB => sys::map_huge_2mb(),
            Self::HUGE_8MB => sys::map_huge_8mb(),
            Self::HUGE_16MB => sys::map_huge_16mb(),
            Self::HUGE_32MB => sys::map_huge_32mb(),
            Self::HUGE_256MB => sys::map_huge_256mb(),
            Self::HUGE_512MB => sys::map_huge_512mb(),
            Self::HUGE_1GB => sys::map_huge_1gb(),
            Self::HUGE_2GB => sys::map_huge_2gb(),
            Self::HUGE_16GB => sys::map_huge_16gb(),
        }
    }

    /// The page size in bytes, which is also the length of the mapping.
    pub fn as_libc_usize(&self) -> (r: usize)
        requires
            self.magnitude() <= usize::MAX,
        ensures
            r == self.magnitude(),
    {
        proof {
            lemma2_to64();
            lemma2_to64_rest();
        }
        match self {
            Self::HUGE_64KB => 65_536,
            Self::HUGE_512KB => 524_288,
            Self::HUGE_1MB => 1_048_576,
            Self::HUGE_2MB => 2_097_152,
            Self::HUGE_8MB => 8_388_608,
            Self::HUGE_16MB => 16_777_216,
            Self::HUGE_32MB => 33_554_432,
            Self::HUGE_256MB => 268_435_456,
            Self::HUGE_512MB => 536_870_912,
            Self::HUGE_1GB => 1_073_741_824,
            Self::HUGE_2GB => 2_147_483_648,
            Self::HUGE_16GB => 16 * 1_073_741_824,
        }
    }
}

/// Why a huge-page region could not be made or released. Each case carries the
/// error number that the kernel left.
#[derive(Debug)]
pub enum HugePageBytesError {
    /// The kernel refused the mapping: there is no region.
    MmapFailed(i32),
    /// The kernel refused to unmap: the region is still mapped and comes back.
    MunmapFailed(HugePageBytes, i32),
}

impl HugePageBytesError {
    /// The error number that the kernel left.
    pub fn os_error(&self) -> (r: i32)
        ensures
            r == match *self {
                HugePageBytesError::MmapFailed(e) => e,
                HugePageBytesError::MunmapFailed(_, e) => e,
            },
    {
        match self {
            HugePageBytesError::MmapFailed(e) => *e,
            HugePageBytesError::MunmapFailed(_, e) => *e,
        }
    }
}

/// One live huge-page mapping. Who holds it is the only one to release it.
#[derive(Debug)]
pub struct HugePageBytes {
    addr: usize,
    tlb_choice: HugePageChoice,
}

/// The addresses that the region covers.
impl View for HugePageBytes {
    type V = Region;

    closed spec fn view(&self) -> Region {
        Region { base: self.addr as int, len: self.tlb_choice.magnitude() as int }
    }
}

impl HugePageBytes {
    #[verifier::type_invariant]
    spec fn live_and_fitting(self) -> bool {
        &&& self.addr != 0
        &&& self.addr != MAP_FAILED
        &&& self.tlb_choice.magnitude() <= usize::MAX
    }

    /// The size class that the region was made with.
    pub closed spec fn choice(&self) -> HugePageChoice {
        self.tlb_choice
    }

    /// The flags of a huge-page request: private, anonymous, huge pages,
    /// populated at once, and the bits that select the page size.
    pub open spec fn request_flags(tlb_choice: HugePageChoice) -> i32 {
        MAP_PRIVATE | MAP_ANONYMOUS | MAP_HUGETLB | MAP_POPULATE | tlb_choice.flag()
    }

    /// What to ask of the kernel for a region of the given size class.
    pub fn map_request(tlb_choice: HugePageChoice) -> (r: MapRequest)
        requires
            tlb_choice.magnitude() <= usize::MAX,
        ensures
            r.len == tlb_choice.magnitude(),
            r.prot == PROT_READ | PROT_WRITE,
            r.flags == Self::request_flags(tlb_choice),
            r.fd == -1,
            r.offset == 0,
    {
        MapRequest {
            len: tlb_choice.as_libc_usize(),
            prot: sys::prot_read() | sys::prot_write(),
            flags: sys::map_private() | sys::map_anonymous() | sys::map_hugetlb()
                | sys::map_populate() | tlb_choice.as_libc_flag(),
            fd: -1,
            offset: 0,
        }
    }

    /// Makes the region from the kernel's answer to `map_request(tlb_choice)`.
    /// Whether the kernel has the size class configured is not looked at: if
    /// it has not, the answer is a failure and so is the result. A mapping
    /// that succeeded never starts at the null address.
    pub fn new(tlb_choice: HugePageChoice, reply: MapReply) -> (r: Result<Self, HugePageBytesError>)
        requires
            tlb_choice.magnitude() <= usize::MAX,
            reply.addr != 0,
        ensures
            match r {
                Ok(h) => !reply.failed() && h.choice() == tlb_choice && h@ == (Region {
                    base: reply.addr as int,
                    len: tlb_choice.magnitude() as int,
                }),
                Err(HugePageBytesError::MmapFailed(e)) => reply.failed() && e == reply.os_error,
                Err(HugePageBytesError::MunmapFailed(_, _)) => false,
            },
    {
        if reply.addr == sys::map_failed() {
            return Err(HugePageBytesError::MmapFailed(reply.os_error));
        }
        Ok(Self { addr: reply.addr, tlb_choice })
    }

    /// The length of the region in bytes: the page size of its class.
    pub fn capacity(&self) -> (r: usize)
        ensures
            r == self.choice().magnitude(),
            r == self@.len,
    {
        proof {
            use_type_invariant(self);
        }
        self.tlb_choice.as_libc_usize()
    }

    /// The address at which the region starts.
    pub fn as_mut_ptr(&self) -> (r: usize)
        ensures
            r == self@.base,
            r != 0,
            r != MAP_FAILED,
    {
        proof {
            use_type_invariant(self);
        }
        self.addr
    }

    /// What to ask of the kernel to release the region.
    pub fn unmap_request(&self) -> (r: UnmapRequest)
        ensures
            r.addr == self@.base,
            r.len == self@.len,
    {
        UnmapRequest { addr: self.addr, len: self.capacity() }
    }

    /// Ends the region's life on the kernel's answer to `unmap_request()`.
    /// Where the kernel refused, the region comes back unchanged inside the
    /// error, to be released again or given up.
    pub fn try_drop(self, reply: UnmapReply) -> (r: Result<(), HugePageBytesError>)
        ensures
            match r {
                Ok(_) => !reply.failed(),
                Err(HugePageBytesError::MunmapFailed(h, e)) => reply.failed() && h == self && e
                    == reply.os_error,
                Err(HugePageBytesError::MmapFailed(_)) => false,
            },
    {
        if reply.code != 0 {
            return Err(HugePageBytesError::MunmapFailed(self, reply.os_error));
        }
        Ok(())
    }
}

/// The twelve page sizes in bytes.
pub proof fn lemma_magnitudes()
    ensures
        HugePageChoice::HUGE_64KB.magnitude() == 65_536,
        HugePageChoice::HUGE_512KB.magnitude() == 524_288,
        HugePageChoice::HUGE_1MB.magnitude() == 1_048_576,
        HugePageChoice::HUGE_2MB.magnitude() == 2_097_152,
        HugePageChoice::HUGE_8MB.magnitude() == 8_388_608,
        HugePageChoice::HUGE_16MB.magnitude() == 16_777_216,
        HugePageChoice::HUGE_32MB.magnitude() == 33_554_432,
        HugePageChoice::HUGE_256MB.magnitude() == 268_435_456,
        HugePageChoice::HUGE_512MB.magnitude() == 536_870_912,
        HugePageChoice::HUGE_1GB.magnitude() == 1_073_741_824,
        HugePageChoice::HUGE_2GB.magnitude() == 2_147_483_648,
        HugePageChoice::HUGE_16GB.magnitude() == 17_179_869_184,
{
    lemma2_to64();
    lemma2_to64_rest();
}

/// The twelve flags as numbers. The largest class sets the top bit, which
/// makes its flag negative.
pub proof fn lemma_flags()
    ensures
        HugePageChoice::HUGE_64KB.flag() == 1_073_741_824,
        HugePageChoice::HUGE_512KB.flag() == 1_275_068_416,
        HugePageChoice::HUGE_1MB.flag() == 1_342_177_280,
        HugePageChoice::HUGE_2MB.flag() == 1_409_286_144,
        HugePageChoice::HUGE_8MB.flag() == 1_543_503_872,
        HugePageChoice::HUGE_16MB.flag() == 1_610_612_736,
        HugePageChoice::HUGE_32MB.flag() == 1_677_721_600,
        HugePageChoice::HUGE_256MB.flag() == 1_879_048_192,
        HugePageChoice::HUGE_512MB.flag() == 1_946_157_056,
        HugePageChoice::HUGE_1GB.flag() == 2_013_265_920,
        HugePageChoice::HUGE_2GB.flag() == 2_080_374_784,
        HugePageChoice::HUGE_16GB.flag() == -2_013_265_920,
{
    assert(((16u32 << 26u32) as i32) == 1_073_741_824i32) by (bit_vector);
    assert(((19u32 << 26u32) as i32) == 1_275_068_416i32) by (bit_vector);
    assert(((20u32 << 26u32) as i32) == 1_342_177_280i32) by (bit_vector);
    assert(((21u32 << 26u32) as i32) == 1_409_286_144i32) by (bit_vector);
    assert(((23u32 << 26u32) as i32) == 1_543_503_872i32) by (bit_vector);
    assert(((24u32 << 26u32) as i32) == 1_610_612_736i32) by (bit_vector);
    assert(((25u32 << 26u32) as i32) == 1_677_721_600i32) by (bit_vector);
    assert(((28u32 << 26u32) as i32) == 1_879_048_192i32) by (bit_vector);
    assert(((29u32 << 26u32) as i32) == 1_946_157_056i32) by (bit_vector);
    assert(((30u32 << 26u32) as i32) == 2_013_265_920i32) by (bit_vector);
    assert(((31u32 << 26u32) as i32) == 2_080_374_784i32) by (bit_vector);
    assert(((34u32 << 26u32) as i32) == -2_013_265_920i32) by (bit_vector);
}

/// A region covers exactly the page size of the class it was made with.
pub proof fn lemma_region_length(h: HugePageBytes, c: HugePageChoice)
    requires
        h.choice() == c,
    ensures
        h@.len == c.magnitude(),
        h@.len == pow2(c.size_exponent() as nat),
{
}

/// No two size classes share a page size or a flag.
pub proof fn lemma_classes_distinct(a: HugePageChoice, b: HugePageChoice)
    requires
        a != b,
    ensures
        a.magnitude() != b.magnitude(),
        a.flag() != b.flag(),
{
    lemma2_to64();
    lemma2_to64_rest();
    lemma_flag_matches_magnitude(a);
    lemma_flag_matches_magnitude(b);
}

/// A whole request is a matched pair too: the other flags leave the six bits
/// of the page size alone, so the page size that the kernel reads from the
/// flags is the length that the request asks for. Below those bits the flags
/// say: private, anonymous, huge pages, populated at once.
pub proof fn lemma_request_is_matched_pair(c: HugePageChoice)
    ensures
        pow2(
            (((HugePageBytes::request_flags(c) as u32) >> MAP_HUGE_SHIFT) & MAP_HUGE_MASK) as nat,
        ) == c.magnitude(),
        (HugePageBytes::request_flags(c) as u32) & 0x03ff_ffff == 0x0004_8022,
{
    let e = c.size_exponent();
    let f = HugePageBytes::request_flags(c) as u32;
    assert(e < 64);
    assert(f == ((0x0002i32 | 0x0020i32 | 0x4_0000i32 | 0x8000i32 | ((e << 26u32) as i32)) as u32));
    assert((((0x0002i32 | 0x0020i32 | 0x4_0000i32 | 0x8000i32 | ((e << 26u32) as i32)) as u32)
        >> 26u32) & 0x3f == e && ((0x0002i32 | 0x0020i32 | 0x4_0000i32 | 0x8000i32 | ((e
        << 26u32) as i32)) as u32) & 0x03ff_ffff == 0x0004_8022) by (bit_vector)
        requires
            e < 64,
    ;
}

/// Flag and length of a size class belong together: the kernel reads the six
/// bits above `MAP_HUGE_SHIFT` as the base-2 logarithm of the page size,
/// and for every class that page size is the length of the mapping. The flag
/// sets no bit below the shift.
pub proof fn lemma_flag_matches_magnitude(c: HugePageChoice)
    ensures
        pow2((((c.flag() as u32) >> MAP_HUGE_SHIFT) & MAP_HUGE_MASK) as nat) == c.magnitude(),
        (c.flag() as u32) & 0x03ff_ffff == 0,
{
    let e = c.size_exponent();
    assert(e < 64);
    assert(((((e << 26u32) as i32) as u32) >> 26u32) & 0x3f == e && (((e << 26u32) as i32)
        as u32) & 0x03ff_ffff == 0) by (bit_vector)
        requires
            e < 64,
    ;
}

} // verus!
