//! The constants of the system's `mmap` interface, as the `libc` crate gives them.
use vstd::prelude::*;

verus! {

/// Pages may not be accessed.
pub open spec fn spec_prot_none() -> i32 {
    0
}

/// Pages may be read.
pub open spec fn spec_prot_read() -> i32 {
    1
}

/// Pages may be read and written.
pub open spec fn spec_prot_read_write() -> i32 {
    3
}

/// A shared mapping that replaces what was at its address.
pub open spec fn spec_map_shared_fixed() -> i32 {
    0x11
}

/// The invalid-argument error number.
pub open spec fn spec_einval() -> i32 {
    22
}

/// `MAP_ANONYMOUS` has one of two values on Linux: MIPS has the second, the others the first.
pub open spec fn is_map_anonymous(bits: i32) -> bool {
    bits == 0x20 || bits == 0x800
}

/// A private mapping.
pub open spec fn spec_map_private() -> i32 {
    0x2
}

/// A mapping that replaces what was at its address.
pub open spec fn spec_map_fixed() -> i32 {
    0x10
}

/// `libc::PROT_NONE`, 0 on Linux.
#[verifier::external_body]
pub(crate) fn prot_none() -> (bits: i32)
    ensures
        bits == spec_prot_none(),
{
    libc::PROT_NONE
}

/// `libc::PROT_READ`, 1 on Linux.
#[verifier::external_body]
pub(crate) fn prot_read() -> (bits: i32)
    ensures
        bits == spec_prot_read(),
{
    libc::PROT_READ
}

/// `libc::PROT_WRITE`, 2 on Linux.
#[verifier::external_body]
pub(crate) fn prot_write() -> (bits: i32)
    ensures
        bits == 2,
{
    libc::PROT_WRITE
}

/// `libc::MAP_SHARED`, 0x1 on Linux.
#[verifier::external_body]
pub(crate) fn map_shared() -> (bits: i32)
    ensures
        bits == 0x1,
{
    libc::MAP_SHARED
}

/// `libc::MAP_PRIVATE`, 0x2 on Linux.
#[verifier::external_body]
pub(crate) fn map_private() -> (bits: i32)
    ensures
        bits == spec_map_private(),
{
    libc::MAP_PRIVATE
}

/// `libc::MAP_FIXED`, 0x10 on Linux.
#[verifier::external_body]
pub(crate) fn map_fixed() -> (bits: i32)
    ensures
        bits == spec_map_fixed(),
{
    libc::MAP_FIXED
}

/// `libc::MAP_ANONYMOUS`, on Linux 0x800 for MIPS and 0x20 for the other architectures. Which of
/// them this system has is left open.
#[verifier::external_body]
pub(crate) fn map_anonymous() -> (bits: i32)
    ensures
        is_map_anonymous(bits),
{
    libc::MAP_ANONYMOUS
}

/// `libc::EINVAL`, 22 on Linux.
#[verifier::external_body]
pub(crate) fn einval() -> (errno: i32)
    ensures
        errno == spec_einval(),
{
    libc::EINVAL
}

} // verus!
