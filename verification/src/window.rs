//! What the daemon's requests do to the DAX window.
//!
//! The contents of the window are modelled address by address. An `mmap` call at a fixed address
//! replaces what was mapped on every page that it touches, and nothing else.
use crate::region::MmapRegion;
use crate::shmem::{MmapCall, ShmemRequest};
use vstd::prelude::*;

verus! {

/// What an access to an address of the window meets.
pub enum Backing {
    /// An inaccessible page: the access faults.
    Placeholder,
    /// The byte at position `offset` of the file `fd`.
    File { fd: i32, offset: int, writable: bool },
    /// Neither of the two.
    Other,
}

/// The contents of a window: what lies behind each of its addresses.
pub type Contents = Map<int, Backing>;

/// `len` rounded up to whole pages.
pub open spec fn whole_pages(len: int, page: int) -> int {
    if len % page == 0 {
        len
    } else {
        len - len % page + page
    }
}

/// The call maps the page that holds `addr`.
pub open spec fn covers(call: MmapCall, page: int, addr: int) -> bool {
    call.addr <= addr < call.addr + whole_pages(call.len as int, page)
}

/// The call asks for a private mapping without a file, in place of what was there.
pub open spec fn is_anonymous(call: MmapCall, anonymous: i32) -> bool {
    &&& call.flags == anonymous | crate::sys_consts::spec_map_private()
        | crate::sys_consts::spec_map_fixed()
    &&& call.fd == -1
}

/// What the call puts behind `addr`, on a system where `anonymous` is the flag for a mapping
/// without a file. Only the two kinds of call that serve requests are told apart.
pub open spec fn mapped_by(call: MmapCall, addr: int, anonymous: i32) -> Backing {
    if is_anonymous(call, anonymous) && call.prot == crate::sys_consts::spec_prot_none() {
        Backing::Placeholder
    } else if call.flags == crate::sys_consts::spec_map_shared_fixed() && (call.prot
        == crate::sys_consts::spec_prot_read() || call.prot
        == crate::sys_consts::spec_prot_read_write()) {
        Backing::File {
            fd: call.fd,
            offset: call.offset + (addr - call.addr),
            writable: call.prot == crate::sys_consts::spec_prot_read_write(),
        }
    } else {
        Backing::Other
    }
}

/// The contents after a successful call at a fixed address.
pub open spec fn after_call(
    before: Contents,
    call: MmapCall,
    page: int,
    anonymous: i32,
) -> Contents {
    Map::new(
        |addr: int| before.dom().contains(addr) || covers(call, page, addr),
        |addr: int|
            if covers(call, page, addr) {
                mapped_by(call, addr, anonymous)
            } else {
                before[addr]
            },
    )
}

proof fn lemma_whole_pages_fit(offset: int, len: int, size: int, page: int)
    requires
        page > 0,
        offset >= 0,
        len >= 0,
        offset % page == 0,
        offset + len <= size,
    ensures
        len <= whole_pages(len, page),
        offset + whole_pages(len, page) <= whole_pages(size, page),
{
    let q_off = offset / page;
    let q_len = len / page;
    let q_size = size / page;
    vstd::arithmetic::div_mod::lemma_fundamental_div_mod(offset, page);
    vstd::arithmetic::div_mod::lemma_fundamental_div_mod(len, page);
    vstd::arithmetic::div_mod::lemma_fundamental_div_mod(size, page);
    assert(0 <= len % page < page && 0 <= size % page < page) by (nonlinear_arith)
        requires
            page > 0,
    ;
    let pages_len = if len % page == 0 {
        q_len
    } else {
        q_len + 1
    };
    let pages_size = if size % page == 0 {
        q_size
    } else {
        q_size + 1
    };
    assert(whole_pages(len, page) == page * pages_len) by (nonlinear_arith)
        requires
            len == page * q_len + len % page,
            pages_len == if len % page == 0 {
                q_len
            } else {
                q_len + 1
            },
    ;
    assert(whole_pages(size, page) == page * pages_size) by (nonlinear_arith)
        requires
            size == page * q_size + size % page,
            pages_size == if size % page == 0 {
                q_size
            } else {
                q_size + 1
            },
    ;
    assert(page * (q_off + pages_len - 1) < page * pages_size) by (nonlinear_arith)
        requires
            page > 0,
            offset == page * q_off,
            offset + len <= size,
            size <= page * pages_size,
            len > page * pages_len - page,
    ;
    assert(q_off + pages_len <= pages_size) by (nonlinear_arith)
        requires
            page > 0,
            page * (q_off + pages_len - 1) < page * pages_size,
    ;
    assert(offset + page * pages_len <= page * pages_size) by (nonlinear_arith)
        requires
            page > 0,
            offset == page * q_off,
            q_off + pages_len <= pages_size,
    ;
}

/// `addr` lies on one of the pages of the window.
pub open spec fn on_window_pages(window: MmapRegion, page: int, addr: int) -> bool {
    window.spec_addr() <= addr < window.spec_addr() + whole_pages(window.spec_size() as int, page)
}

/// The bytes that a served request names lie inside the window.
pub proof fn law_requested_bytes_lie_inside_the_window(
    window: MmapRegion,
    req: ShmemRequest,
    fd: i32,
    call: MmapCall,
    anonymous: i32,
)
    requires
        crate::shmem::in_window(window, req.shm_offset, req.len),
        crate::shmem::is_map_call(call, window, req, fd) || crate::shmem::is_unmap_call(
            call,
            window,
            req,
            anonymous,
        ),
    ensures
        window.spec_addr() <= call.addr,
        call.addr + call.len <= window.spec_addr() + window.spec_size(),
{
}

/// A request that is served changes nothing outside the pages of the window, at an offset where a
/// page starts (`mmap` refuses any other).
pub proof fn law_calls_stay_inside_the_window(
    window: MmapRegion,
    req: ShmemRequest,
    fd: i32,
    call: MmapCall,
    page: int,
    anonymous: i32,
    before: Contents,
)
    requires
        page > 0,
        req.shm_offset as int % page == 0,
        crate::shmem::in_window(window, req.shm_offset, req.len),
        crate::shmem::is_map_call(call, window, req, fd) || crate::shmem::is_unmap_call(
            call,
            window,
            req,
            anonymous,
        ),
    ensures
        forall|addr: int|
            covers(call, page, addr) ==> on_window_pages(window, page, addr),
        forall|addr: int|
            !on_window_pages(window, page, addr) ==> (before.dom().contains(addr)
                <==> after_call(before, call, page, anonymous).dom().contains(addr)) && (before.dom().contains(
                addr,
            ) ==> #[trigger] after_call(before, call, page, anonymous)[addr] == before[addr]),
{
    lemma_whole_pages_fit(
        req.shm_offset as int,
        req.len as int,
        window.spec_size() as int,
        page,
    );
}

/// After a mapping request the requested bytes of the window are those of the file, from the
/// requested position on, and they can be written exactly if the request asked for that.
pub proof fn law_map_shows_the_file(
    window: MmapRegion,
    req: ShmemRequest,
    fd: i32,
    call: MmapCall,
    page: int,
    anonymous: i32,
    before: Contents,
)
    requires
        page > 0,
        crate::shmem::is_map_call(call, window, req, fd),
    ensures
        forall|i: int|
            0 <= i < req.len ==> #[trigger] after_call(before, call, page, anonymous)[window.spec_addr()
                + req.shm_offset + i] == (Backing::File {
                fd,
                offset: crate::shmem::file_position(req.fd_offset) + i,
                writable: req.writable(),
            }),
{
    assert(0 <= req.len as int % page < page) by (nonlinear_arith)
        requires
            page > 0,
    ;
    assert forall|i: int| 0 <= i < req.len implies #[trigger] after_call(before, call, page, anonymous)[
    window.spec_addr() + req.shm_offset + i] == (Backing::File {
        fd,
        offset: crate::shmem::file_position(req.fd_offset) + i,
        writable: req.writable(),
    }) by {
        assert(covers(call, page, window.spec_addr() + req.shm_offset + i));
    }
}

/// An unmapping request undoes a mapping request on the same bytes: they fault again, and every
/// other address is as it was before the mapping. Where the placeholder was mapped over, the
/// window is back to what it was.
pub proof fn law_unmap_undoes_map(
    window: MmapRegion,
    map_req: ShmemRequest,
    unmap_req: ShmemRequest,
    fd: i32,
    map_call: MmapCall,
    unmap_call: MmapCall,
    page: int,
    anonymous: i32,
    before: Contents,
)
    requires
        page > 0,
        map_req.shm_offset == unmap_req.shm_offset,
        map_req.len == unmap_req.len,
        crate::shmem::is_map_call(map_call, window, map_req, fd),
        crate::shmem::is_unmap_call(unmap_call, window, unmap_req, anonymous),
    ensures
        ({
            let after = after_call(
                after_call(before, map_call, page, anonymous),
                unmap_call,
                page,
                anonymous,
            );
            &&& forall|addr: int|
                covers(map_call, page, addr) ==> #[trigger] after[addr] == Backing::Placeholder
            &&& forall|addr: int|
                !covers(map_call, page, addr) && before.dom().contains(addr)
                    ==> #[trigger] after[addr] == before[addr]
            &&& (forall|addr: int|
                #[trigger]
                covers(map_call, page, addr) ==> before.dom().contains(addr) && before[addr]
                    == Backing::Placeholder) ==> after == before
        }),
{
    let after = after_call(
                after_call(before, map_call, page, anonymous),
                unmap_call,
                page,
                anonymous,
            );
    assert forall|addr: int| covers(map_call, page, addr) == covers(unmap_call, page, addr) by {}
    if forall|addr: int|
        #[trigger]
        covers(map_call, page, addr) ==> before.dom().contains(addr) && before[addr]
            == Backing::Placeholder {
        assert forall|addr: int|
            #[trigger]
            after.dom().contains(addr) == before.dom().contains(addr) && (before.dom().contains(
                addr,
            ) ==> after[addr] == before[addr]) by {
            assert(covers(map_call, page, addr) ==> before.dom().contains(addr));
        }
        assert(after =~= before);
    }
}

/// The contents after several calls, one after the other.
pub open spec fn after_calls(
    before: Contents,
    calls: Seq<MmapCall>,
    page: int,
    anonymous: i32,
) -> Contents
    decreases calls.len(),
{
    if calls.len() == 0 {
        before
    } else {
        after_call(
            after_calls(before, calls.drop_last(), page, anonymous),
            calls.last(),
            page,
            anonymous,
        )
    }
}

/// `call` serves `req` on `window`: it maps one of `files` or unmaps, at an offset where a page
/// starts.
pub open spec fn serves(
    call: MmapCall,
    req: ShmemRequest,
    window: MmapRegion,
    files: Set<i32>,
    page: int,
    anonymous: i32,
) -> bool {
    &&& req.shm_offset as int % page == 0
    &&& crate::shmem::in_window(window, req.shm_offset, req.len)
    &&& crate::shmem::is_unmap_call(call, window, req, anonymous) || (files.contains(call.fd)
        && crate::shmem::is_map_call(call, window, req, call.fd))
}

/// Whatever requests are served: outside the pages of the window everything stays as it was, and a window
/// that started out as a placeholder shows nothing but the placeholder and files that came with a
/// request.
pub proof fn law_any_requests_keep_to_the_window(
    window: MmapRegion,
    reqs: Seq<ShmemRequest>,
    calls: Seq<MmapCall>,
    files: Set<i32>,
    page: int,
    anonymous: i32,
    before: Contents,
)
    requires
        page > 0,
        calls.len() == reqs.len(),
        forall|i: int|
            0 <= i < calls.len() ==> serves(#[trigger] calls[i], reqs[i], window, files, page, anonymous),
        forall|addr: int|
            #[trigger]
            before.dom().contains(addr) && on_window_pages(window, page, addr)
                ==> before[addr] == Backing::Placeholder,
    ensures
        ({
            let after = after_calls(before, calls, page, anonymous);
            &&& forall|addr: int|
                !on_window_pages(window, page, addr) ==> (#[trigger] after.dom().contains(
                    addr,
                ) <==> before.dom().contains(addr)) && (before.dom().contains(addr) ==> after[addr]
                    == before[addr])
            &&& forall|addr: int|
                #[trigger]
                after.dom().contains(addr) && on_window_pages(window, page, addr)
                    ==> match after[addr] {
                    Backing::Placeholder => true,
                    Backing::File { fd, .. } => files.contains(fd),
                    Backing::Other => false,
                }
        }),
    decreases calls.len(),
{
    if calls.len() > 0 {
        let last = calls.len() - 1;
        let call = calls[last];
        let earlier = after_calls(before, calls.drop_last(), page, anonymous);
        assert forall|i: int| 0 <= i < calls.drop_last().len() implies serves(
            #[trigger] calls.drop_last()[i],
            reqs.drop_last()[i],
            window,
            files,
            page,
            anonymous,
        ) by {
            assert(calls.drop_last()[i] == calls[i]);
            assert(serves(calls[i], reqs[i], window, files, page, anonymous));
        }
        assert(serves(call, reqs[last], window, files, page, anonymous));
        law_any_requests_keep_to_the_window(
            window,
            reqs.drop_last(),
            calls.drop_last(),
            files,
            page,
            anonymous,
            before,
        );
        law_calls_stay_inside_the_window(window, reqs[last], call.fd, call, page, anonymous, earlier);
    }
}

} // verus!
