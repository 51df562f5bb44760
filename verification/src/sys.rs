//! The kernel's constants, as the `libc` crate defines them for Linux.
//!
//! Nothing here is proved: each function hands out one constant of `libc`, and
//! its contract states the value that `libc` gives it on x86-64 and on the
//! other targets that share the generic Linux numbering.

use crate::mapping::{
    huge_flag_bits, MAP_ANONYMOUS, MAP_FAILED, MAP_HUGETLB, MAP_POPULATE, MAP_PRIVATE, MAP_SHARED,
    PROT_READ, PROT_WRITE,
};
use vstd::prelude::*;

verus! {

/// `libc::PROT_READ`, which is 1.
#[verifier::external_body]
pub(crate) fn prot_read() -> (r: i32)
    ensures
        r == PROT_READ,
{
    libc::PROT_READ
}

/// `libc::PROT_WRITE`, which is 2.
#[verifier::external_body]
pub(crate) fn prot_write() -> (r: i32)
    ensures
        r == PROT_WRITE,
{
    libc::PROT_WRITE
}

/// `libc::MAP_SHARED`, which is 1.
#[verifier::external_body]
pub(crate) fn map_shared() -> (r: i32)
    ensures
        r == MAP_SHARED,
{
    libc::MAP_SHARED
}

/// `libc::MAP_PRIVATE`, which is 2.
#[verifier::external_body]
pub(crate) fn map_private() -> (r: i32)
    ensures
        r == MAP_PRIVATE,
{
    libc::MAP_PRIVATE
}

/// `libc::MAP_ANONYMOUS`, which is 0x20 on the generic Linux numbering.
#[verifier::external_body]
pub(crate) fn map_anonymous() -> (r: i32)
    ensures
        r == MAP_ANONYMOUS,
{
    libc::MAP_ANONYMOUS
}

/// `libc::MAP_POPULATE`, which is 0x8000 on the generic Linux numbering.
#[verifier::external_body]
pub(crate) fn map_populate() -> (r: i32)
    ensures
        r == MAP_POPULATE,
{
    libc::MAP_POPULATE
}

/// `libc::MAP_HUGETLB`, which is 0x40000 on the generic Linux numbering.
#[verifier::external_body]
pub(crate) fn map_hugetlb() -> (r: i32)
    ensures
        r == MAP_HUGETLB,
{
    libc::MAP_HUGETLB
}

/// `libc::MAP_FAILED`, the pointer with all bits set, as an address.
#[verifier::external_body]
pub(crate) fn map_failed() -> (r: usize)
    ensures
        r == MAP_FAILED,
{
    libc::MAP_FAILED as usize
}

/// `libc::MAP_HUGE_64KB`, which `libc` defines as `16 << 26`.
#[verifier::external_body]
pub(crate) fn map_huge_64kb() -> (r: i32)
    ensures
        r == huge_flag_bits(16),
{
    libc::MAP_HUGE_64KB
}

/// `libc::MAP_HUGE_512KB`, which `libc` defines as `19 << 26`.
#[verifier::external_body]
pub(crate) fn map_huge_512kb() -> (r: i32)
    ensures
        r == huge_flag_bits(19),
{
    libc::MAP_HUGE_512KB
}

/// `libc::MAP_HUGE_1MB`, which `libc` defines as `20 << 26`.
#[verifier::external_body]
pub(crate) fn map_huge_1mb() -> (r: i32)
    ensures
        r == huge_flag_bits(20),
{
    libc::MAP_HUGE_1MB
}

/// `libc::MAP_HUGE_2MB`, which `libc` defines as `21 << 26`.
#[verifier::external_body]
pub(crate) fn map_huge_2mb() -> (r: i32)
    ensures
        r == huge_flag_bits(21),
{
    libc::MAP_HUGE_2MB
}

/// `libc::MAP_HUGE_8MB`, which `libc` defines as `23 << 26`.
#[verifier::external_body]
pub(crate) fn map_huge_8mb() -> (r: i32)
    ensures
        r == huge_flag_bits(23),
{
    libc::MAP_HUGE_8MB
}

/// `libc::MAP_HUGE_16MB`, which `libc` defines as `24 << 26`.
#[verifier::external_body]
pub(crate) fn map_huge_16mb() -> (r: i32)
    ensures
        r == huge_flag_bits(24),
{
    libc::MAP_HUGE_16MB
}

/// `libc::MAP_HUGE_32MB`, which `libc` defines as `25 << 26`.
#[verifier::external_body]
pub(crate) fn map_huge_32mb() -> (r: i32)
    ensures
        r == huge_flag_bits(25),
{
    libc::MAP_HUGE_32MB
}

/// `libc::MAP_HUGE_256MB`, which `libc` defines as `28 << 26`.
#[verifier::external_body]
pub(crate) fn map_huge_256mb() -> (r: i32)
    ensures
        r == huge_flag_bits(28),
{
    libc::MAP_HUGE_256MB
}

/// `libc::MAP_HUGE_512MB`, which `libc` defines as `29 << 26`.
#[verifier::external_body]
pub(crate) fn map_huge_512mb() -> (r: i32)
    ensures
        r == huge_flag_bits(29),
{
    libc::MAP_HUGE_512MB
}

/// `libc::MAP_HUGE_1GB`, which `libc` defines as `30 << 26`.
#[verifier::external_body]
pub(crate) fn map_huge_1gb() -> (r: i32)
    ensures
        r == huge_flag_bits(30),
{
    libc::MAP_HUGE_1GB
}

/// `libc::MAP_HUGE_2GB`, which `libc` defines as `31 << 26`.
#[verifier::external_body]
pub(crate) fn map_huge_2gb() -> (r: i32)
    ensures
        r == huge_flag_bits(31),
{
    libc::MAP_HUGE_2GB
}

/// `libc::MAP_HUGE_16GB`, which `libc` defines as `34 << 26`; in 32 bits the
/// top bit of the exponent falls on the sign.
#[verifier::external_body]
pub(crate) fn map_huge_16gb() -> (r: i32)
    ensures
        r == huge_flag_bits(34),
{
    libc::MAP_HUGE_16GB
}

} // verus!
