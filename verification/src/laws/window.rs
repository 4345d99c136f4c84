//! What a guest finds in the DAX window after the daemon's requests were served.
//!
//! An address lies on the pages of a range if it is not below the start and less than the length,
//! rounded up to whole pages, above it. Ranges start where a page starts: `mmap` refuses any other.
use crate::region::MmapRegion;
use crate::shmem::{BackendReqHandler, MmapCall, ShmemRequest};
use crate::window::{after_call, whole_pages, Backing, Contents};
use vstd::prelude::*;

verus! {

/// `len` is rounded up to the next multiple of `page`.
pub proof fn law_whole_pages_round_up(len: int, page: int)
    requires
        page > 0,
        len >= 0,
    ensures
        whole_pages(len, page) == (len + page - 1) / page * page,
        whole_pages(len, page) % page == 0,
        len <= whole_pages(len, page) < len + page,
{
    let q = len / page;
    let r = len % page;
    vstd::arithmetic::div_mod::lemma_fundamental_div_mod(len, page);
    assert(0 <= r < page) by (nonlinear_arith)
        requires
            page > 0,
            r == len % page,
    ;
    if r == 0 {
        assert((len + page - 1) / page == q) by (nonlinear_arith)
            requires
                page > 0,
                len == page * q,
        ;
        assert(q * page == len) by (nonlinear_arith)
            requires
                len == page * q,
        ;
    } else {
        assert((len + page - 1) / page == q + 1) by (nonlinear_arith)
            requires
                page > 0,
                0 < r < page,
                len == page * q + r,
        ;
        assert((q + 1) * page == len - r + page) by (nonlinear_arith)
            requires
                len == page * q + r,
        ;
    }
    vstd::arithmetic::div_mod::lemma_mod_multiples_basic((len + page - 1) / page, page);
}

/// A served mapping request shows the file in the window: byte `i` of the requested range is byte
/// `fd_offset + i` of the file that came with the request, and it can be written exactly if the
/// request asked for that. Outside the pages of the requested range everything is as it was.
pub proof fn law_mapping_shows_the_requested_part_of_the_file(
    addr: usize,
    size: usize,
    window: MmapRegion,
    handler: BackendReqHandler,
    anonymous: i32,
    req: ShmemRequest,
    fd: i32,
    call: MmapCall,
    page: int,
    before: Contents,
)
    requires
        page > 0,
        req.fd_offset <= i64::MAX,
        call_ensures(MmapRegion::new, (addr, size), Some(window)),
        call_ensures(BackendReqHandler::new, (window,), handler),
        call_ensures(BackendReqHandler::anonymous, (&handler,), anonymous),
        call_ensures(BackendReqHandler::shmem_map, (&handler, &req, fd), Ok(call)),
    ensures
        ({
            let after = after_call(before, call, page, anonymous);
            let start = addr + req.shm_offset;
            let pages = (req.len + page - 1) / page * page;
            &&& forall|i: int|
                0 <= i < req.len ==> #[trigger] after.dom().contains(start + i) && after[start + i]
                    == (Backing::File {
                    fd,
                    offset: req.fd_offset + i,
                    writable: req.flags % 2 == 1,
                })
            &&& forall|at: int|
                at < start || at >= start + pages ==> (#[trigger] after.dom().contains(at)
                    <==> before.dom().contains(at)) && (before.dom().contains(at) ==> after[at]
                    == before[at])
        }),
{
    law_whole_pages_round_up(req.len as int, page);
    assert(0x20i32 | 0x2 | 0x10 == 0x32) by (bit_vector);
    assert(0x800i32 | 0x2 | 0x10 == 0x812) by (bit_vector);
}

/// A served unmapping request makes every access to the pages of the requested range fault.
/// Outside them everything is as it was: what else is mapped into the window stays.
pub proof fn law_unmapping_clears_the_requested_pages_alone(
    addr: usize,
    size: usize,
    window: MmapRegion,
    handler: BackendReqHandler,
    anonymous: i32,
    req: ShmemRequest,
    call: MmapCall,
    page: int,
    before: Contents,
)
    requires
        page > 0,
        call_ensures(MmapRegion::new, (addr, size), Some(window)),
        call_ensures(BackendReqHandler::new, (window,), handler),
        call_ensures(BackendReqHandler::anonymous, (&handler,), anonymous),
        call_ensures(BackendReqHandler::shmem_unmap, (&handler, &req), Ok(call)),
    ensures
        ({
            let after = after_call(before, call, page, anonymous);
            let start = addr + req.shm_offset;
            let pages = (req.len + page - 1) / page * page;
            &&& forall|at: int|
                start <= at < start + pages ==> #[trigger] after.dom().contains(at) && after[at]
                    == Backing::Placeholder
            &&& forall|at: int|
                at < start || at >= start + pages ==> (#[trigger] after.dom().contains(at)
                    <==> before.dom().contains(at)) && (before.dom().contains(at) ==> after[at]
                    == before[at])
        }),
{
    law_whole_pages_round_up(req.len as int, page);
}

/// Two mapping requests with disjoint pages do not disturb each other: after both, each range shows
/// its part of its file, whichever was served first.
pub proof fn law_neighbours_stay_mapped(
    handler: BackendReqHandler,
    anonymous: i32,
    first: ShmemRequest,
    second: ShmemRequest,
    first_fd: i32,
    second_fd: i32,
    first_call: MmapCall,
    second_call: MmapCall,
    page: int,
    before: Contents,
)
    requires
        page > 0,
        first.fd_offset <= i64::MAX,
        second.fd_offset <= i64::MAX,
        first.shm_offset + (first.len + page - 1) / page * page <= second.shm_offset,
        call_ensures(BackendReqHandler::anonymous, (&handler,), anonymous),
        call_ensures(BackendReqHandler::shmem_map, (&handler, &first, first_fd), Ok(first_call)),
        call_ensures(BackendReqHandler::shmem_map, (&handler, &second, second_fd), Ok(second_call)),
    ensures
        ({
            let second_last = after_call(
                after_call(before, first_call, page, anonymous),
                second_call,
                page,
                anonymous,
            );
            let first_last = after_call(
                after_call(before, second_call, page, anonymous),
                first_call,
                page,
                anonymous,
            );
            let start = first_call.addr - first.shm_offset;
            &&& second_last == first_last
            &&& forall|i: int|
                0 <= i < first.len ==> #[trigger] second_last[start + first.shm_offset + i] == (
                Backing::File {
                    fd: first_fd,
                    offset: first.fd_offset + i,
                    writable: first.flags % 2 == 1,
                })
            &&& forall|i: int|
                0 <= i < second.len ==> #[trigger] second_last[start + second.shm_offset + i] == (
                Backing::File {
                    fd: second_fd,
                    offset: second.fd_offset + i,
                    writable: second.flags % 2 == 1,
                })
        }),
{
    law_whole_pages_round_up(first.len as int, page);
    law_whole_pages_round_up(second.len as int, page);
    assert(0x20i32 | 0x2 | 0x10 == 0x32) by (bit_vector);
    assert(0x800i32 | 0x2 | 0x10 == 0x812) by (bit_vector);
    let second_last = after_call(
        after_call(before, first_call, page, anonymous),
        second_call,
        page,
        anonymous,
    );
    let first_last = after_call(
        after_call(before, second_call, page, anonymous),
        first_call,
        page,
        anonymous,
    );
    assert(second_last =~= first_last);
}

/// Where a mapping request and then an unmapping request for the same range were served, the pages
/// of that range fault, and everything else is as it was before both.
pub proof fn law_unmapping_takes_a_mapping_back(
    addr: usize,
    size: usize,
    window: MmapRegion,
    handler: BackendReqHandler,
    anonymous: i32,
    map_req: ShmemRequest,
    unmap_req: ShmemRequest,
    fd: i32,
    map_call: MmapCall,
    unmap_call: MmapCall,
    page: int,
    before: Contents,
)
    requires
        page > 0,
        map_req.shm_offset == unmap_req.shm_offset,
        map_req.len == unmap_req.len,
        call_ensures(MmapRegion::new, (addr, size), Some(window)),
        call_ensures(BackendReqHandler::new, (window,), handler),
        call_ensures(BackendReqHandler::anonymous, (&handler,), anonymous),
        call_ensures(BackendReqHandler::shmem_map, (&handler, &map_req, fd), Ok(map_call)),
        call_ensures(BackendReqHandler::shmem_unmap, (&handler, &unmap_req), Ok(unmap_call)),
    ensures
        ({
            let after = after_call(
                after_call(before, map_call, page, anonymous),
                unmap_call,
                page,
                anonymous,
            );
            let start = addr + map_req.shm_offset;
            let pages = (map_req.len + page - 1) / page * page;
            &&& forall|at: int| #[trigger]
                after.dom().contains(at) <==> before.dom().contains(at) || start <= at < start + pages
            &&& forall|at: int| #[trigger]
                after.dom().contains(at) ==> after[at] == if start <= at < start + pages {
                    Backing::Placeholder
                } else {
                    before[at]
                }
        }),
{
    law_whole_pages_round_up(map_req.len as int, page);
}

} // verus!
