//! The daemon's requests on the DAX window: which are served, and with which `mmap` call.
use crate::region::MmapRegion;
use crate::shmem::{BackendReqHandler, MmapCall, ShmemRequest};
use vstd::prelude::*;

verus! {

/// A region is described exactly if it ends before the end of the address space, and then it tells
/// the address and the size that it was described with.
pub proof fn law_region_is_as_described(
    addr: usize,
    size: usize,
    region: Option<MmapRegion>,
    told_addr: usize,
    told_size: usize,
    offset: usize,
    inner_addr: usize,
)
    requires
        offset <= size,
        call_ensures(MmapRegion::new, (addr, size), region),
        region matches Some(r) ==> {
            &&& call_ensures(MmapRegion::addr, (&r,), told_addr)
            &&& call_ensures(MmapRegion::size, (&r,), told_size)
            &&& call_ensures(MmapRegion::address_at, (&r, offset), inner_addr)
        },
    ensures
        region is Some <==> addr + size <= usize::MAX,
        region is Some ==> told_addr == addr && told_size == size && inner_addr == addr + offset,
{
}

/// A handler works on the window that it was made for, and its flag for mappings without a file is
/// one of the two that Linux has.
pub proof fn law_handler_keeps_its_window(
    window: MmapRegion,
    handler: BackendReqHandler,
    told_window: MmapRegion,
    anonymous: i32,
)
    requires
        call_ensures(BackendReqHandler::new, (window,), handler),
        call_ensures(BackendReqHandler::mapping, (&handler,), told_window),
        call_ensures(BackendReqHandler::anonymous, (&handler,), anonymous),
    ensures
        told_window == window,
        anonymous == 0x20 || anonymous == 0x800,
{
}

/// On a window of `size` bytes at `addr`, a range passes exactly if it ends within the window; it
/// then starts as far behind `addr` as was asked for. Any other range is an invalid argument.
pub proof fn law_bounds_are_those_of_the_window(
    addr: usize,
    size: usize,
    window: MmapRegion,
    handler: BackendReqHandler,
    shm_offset: u64,
    len: u64,
    target: Result<usize, i32>,
)
    requires
        call_ensures(MmapRegion::new, (addr, size), Some(window)),
        call_ensures(BackendReqHandler::new, (window,), handler),
        call_ensures(BackendReqHandler::check_bounds, (&handler, shm_offset, len), target),
    ensures
        target is Ok <==> shm_offset + len <= size,
        target matches Ok(start) ==> start == addr + shm_offset,
        target matches Err(errno) ==> errno == 22,
{
}

/// On a window of `size` bytes at `addr`, a mapping request is served exactly if its range ends
/// within the window, and refused as an invalid argument otherwise.
///
/// The call goes to the requested bytes and to no more of them. It takes the file that came with the
/// request from the position that the request names, as one shared mapping in place of what was
/// there, readable, and writable exactly if the lowest flag asks for that. A position of the
/// upper half of the numbers is negative to `mmap`.
pub proof fn law_map_request_is_served_as_asked(
    addr: usize,
    size: usize,
    window: MmapRegion,
    handler: BackendReqHandler,
    req: ShmemRequest,
    fd: i32,
    result: Result<MmapCall, i32>,
)
    requires
        call_ensures(MmapRegion::new, (addr, size), Some(window)),
        call_ensures(BackendReqHandler::new, (window,), handler),
        call_ensures(BackendReqHandler::shmem_map, (&handler, &req, fd), result),
    ensures
        result is Ok <==> req.shm_offset + req.len <= size,
        result matches Err(errno) ==> errno == 22,
        result matches Ok(call) ==> {
            &&& call.addr - addr == req.shm_offset
            &&& call.len == req.len
            &&& call.fd == fd
            &&& req.fd_offset <= i64::MAX ==> call.offset == req.fd_offset
            &&& req.fd_offset > i64::MAX ==> call.offset < 0 && call.offset + u64::MAX + 1
                == req.fd_offset
            &&& call.flags == 0x11
            &&& req.flags % 2 == 0 ==> call.prot == 1
            &&& req.flags % 2 == 1 ==> call.prot == 3
        },
{
}

/// On a window of `size` bytes at `addr`, an unmapping request is served exactly if its range ends
/// within the window, and refused as an invalid argument otherwise.
///
/// The call goes to the requested bytes and to no more of them. It puts an inaccessible private
/// mapping without a file in place of what was there.
pub proof fn law_unmap_request_is_served_as_asked(
    addr: usize,
    size: usize,
    window: MmapRegion,
    handler: BackendReqHandler,
    anonymous: i32,
    req: ShmemRequest,
    result: Result<MmapCall, i32>,
)
    requires
        call_ensures(MmapRegion::new, (addr, size), Some(window)),
        call_ensures(BackendReqHandler::new, (window,), handler),
        call_ensures(BackendReqHandler::anonymous, (&handler,), anonymous),
        call_ensures(BackendReqHandler::shmem_unmap, (&handler, &req), result),
    ensures
        result is Ok <==> req.shm_offset + req.len <= size,
        result matches Err(errno) ==> errno == 22,
        result matches Ok(call) ==> {
            &&& call.addr - addr == req.shm_offset
            &&& call.len == req.len
            &&& call.prot == 0
            &&& call.flags == anonymous + 0x12
            &&& call.flags == 0x32 || call.flags == 0x812
            &&& call.fd == -1
            &&& call.offset == 0
        },
{
    assert(0x20i32 | 0x2 | 0x10 == 0x32) by (bit_vector);
    assert(0x800i32 | 0x2 | 0x10 == 0x812) by (bit_vector);
}

/// Putting the placeholder back with a flag that is given works as an unmapping request does, with
/// that flag in place of the system's.
pub proof fn law_placeholder_call_is_made_as_asked(
    addr: usize,
    size: usize,
    window: MmapRegion,
    handler: BackendReqHandler,
    req: ShmemRequest,
    anonymous: i32,
    result: Result<MmapCall, i32>,
)
    requires
        call_ensures(MmapRegion::new, (addr, size), Some(window)),
        call_ensures(BackendReqHandler::new, (window,), handler),
        call_ensures(BackendReqHandler::placeholder_call, (&handler, &req, anonymous), result),
    ensures
        result is Ok <==> req.shm_offset + req.len <= size,
        result matches Err(errno) ==> errno == 22,
        result matches Ok(call) ==> {
            &&& call.addr - addr == req.shm_offset
            &&& call.len == req.len
            &&& call.prot == 0
            &&& call.flags == anonymous | 0x12
            &&& call.fd == -1
            &&& call.offset == 0
        },
{
    assert(anonymous | 0x2 | 0x10 == anonymous | 0x12) by (bit_vector);
}

/// Two mapping requests that differ in their region number alone, or in flags other than the
/// lowest, lead to the same call.
pub proof fn law_only_the_write_flag_counts(
    handler: BackendReqHandler,
    first: ShmemRequest,
    second: ShmemRequest,
    fd: i32,
    first_result: Result<MmapCall, i32>,
    second_result: Result<MmapCall, i32>,
)
    requires
        first.fd_offset == second.fd_offset,
        first.shm_offset == second.shm_offset,
        first.len == second.len,
        first.flags % 2 == second.flags % 2,
        call_ensures(BackendReqHandler::shmem_map, (&handler, &first, fd), first_result),
        call_ensures(BackendReqHandler::shmem_map, (&handler, &second, fd), second_result),
    ensures
        first_result == second_result,
{
}

/// A request that names a range moved by `by` bytes, in the window and in the file, leads to the
/// call moved by as many, as long as both are served.
pub proof fn law_moved_requests_lead_to_moved_calls(
    handler: BackendReqHandler,
    first: ShmemRequest,
    second: ShmemRequest,
    by: u64,
    fd: i32,
    first_call: MmapCall,
    second_call: MmapCall,
)
    requires
        second.shm_offset == first.shm_offset + by,
        second.fd_offset == first.fd_offset + by,
        second.fd_offset <= i64::MAX,
        second.len == first.len,
        second.flags == first.flags,
        call_ensures(BackendReqHandler::shmem_map, (&handler, &first, fd), Ok(first_call)),
        call_ensures(BackendReqHandler::shmem_map, (&handler, &second, fd), Ok(second_call)),
    ensures
        second_call.addr - first_call.addr == by,
        second_call.offset - first_call.offset == by,
        second_call.len == first_call.len,
        second_call.prot == first_call.prot,
        second_call.flags == first_call.flags,
        second_call.fd == first_call.fd,
{
}

/// The daemon is told zero exactly if `mmap` did not fail, and else the error number.
pub proof fn law_reply_tells_how_mmap_went(failure: Option<i32>, reply: Result<u64, i32>)
    requires
        call_ensures(crate::shmem::mmap_reply, (failure,), reply),
    ensures
        reply is Ok <==> failure is None,
        reply matches Ok(value) ==> value == 0,
        reply matches Err(errno) ==> failure == Some(errno),
{
}

} // verus!
