//! Page-granular snapshots of memory and the views mapped over them.
//!
//! This crate holds the decisions of the snapshot subsystem, each proved
//! against its contract: how sizes are rounded to whole pages and how much
//! address space a mapping takes, which mapping a view asks for, what a
//! restore must remap and when its result is accepted, which byte ranges may
//! be protected, and how an access set becomes a native page protection.
//! The operating-system calls that carry those decisions out stand outside it.
use vstd::prelude::*;

pub mod access;
pub mod geometry;
pub mod layout;
pub mod region;
pub mod view;

verus! {

/// Relies on `page_size::get`: the operating system's page size in bytes.
/// Nothing is promised of the value: on Unix it is what `sysconf` reported,
/// cast to `usize`.
#[verifier::external_body]
fn query_page_size() -> (r: usize) {
    page_size::get()
}

/// Returns the system page size in bytes: the granularity at which memory
/// is mapped and protected. Callers check the value before they rely on it:
/// the layouts of this crate refuse a page size of zero.
pub fn page_size() -> (r: usize) {
    query_page_size()
}

} // verus!
