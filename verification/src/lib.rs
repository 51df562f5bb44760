//! Page-aligned, zero-filled regions of memory taken straight from the Linux
//! kernel, and their release, which may fail and then hands the region back.
//!
//! The library decides what is asked of the kernel and what the kernel's answer
//! means. The two system calls themselves are made by the caller, who passes the
//! request on and brings the reply back.

pub mod anonymous_mmap;
pub mod hugepage;
pub mod mapping;
mod sys;

pub use anonymous_mmap::{AnonymousMmap, AnonymousMmapError};
pub use hugepage::{HugePageBytes, HugePageBytesError, HugePageChoice};
pub use mapping::{MapReply, MapRequest, Region, UnmapReply, UnmapRequest};
