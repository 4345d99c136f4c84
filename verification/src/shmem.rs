//! The daemon's requests to map files into the DAX window and to unmap them.
use crate::protocol_flags;
use crate::region::MmapRegion;
use crate::sys_consts;
use vstd::prelude::*;

verus! {

/// A request of the daemon on the DAX window: `len` bytes at offset `shm_offset` of the window,
/// and for a mapping the position `fd_offset` in the file and the access `flags`.
#[derive(Debug, Clone, Copy, PartialEq, Eq, Structural)]
pub struct ShmemRequest {
    pub shmid: u8,
    pub fd_offset: u64,
    pub shm_offset: u64,
    pub len: u64,
    pub flags: u64,
}

impl ShmemRequest {
    /// The request asks for write access.
    pub open spec fn writable(self) -> bool {
        self.flags % 2 == 1
    }
}

/// The arguments of one `mmap` call.
#[derive(Debug, Clone, Copy, PartialEq, Eq, Structural)]
pub struct MmapCall {
    pub addr: usize,
    pub len: usize,
    pub prot: i32,
    pub flags: i32,
    pub fd: i32,
    pub offset: i64,
}

/// Serves the daemon's requests on the window `mapping`.
///
/// A mapping request places pages of a file over the placeholder that the window starts out
/// with. An unmapping request puts the placeholder back, so that any access to it faults.
///
/// `anonymous` is the flag by which the system's `mmap` tells a mapping without a file.
#[derive(Debug, Clone, Copy, PartialEq, Eq, Structural)]
pub struct BackendReqHandler {
    mapping: MmapRegion,
    anonymous: i32,
}

/// The `len` bytes at `shm_offset` lie inside the window.
pub open spec fn in_window(window: MmapRegion, shm_offset: u64, len: u64) -> bool {
    shm_offset + len <= window.spec_size()
}

/// The file position as `mmap` takes it: positions of the upper half wrap around to negative.
pub open spec fn file_position(fd_offset: u64) -> int {
    if fd_offset < 0x8000_0000_0000_0000 {
        fd_offset as int
    } else {
        fd_offset - 0x1_0000_0000_0000_0000
    }
}

/// The call that places the file `fd` into the window as `req` asks.
pub open spec fn is_map_call(
    call: MmapCall,
    window: MmapRegion,
    req: ShmemRequest,
    fd: i32,
) -> bool {
    &&& call.addr == window.spec_addr() + req.shm_offset
    &&& call.len == req.len
    &&& call.prot == if req.writable() {
        sys_consts::spec_prot_read_write()
    } else {
        sys_consts::spec_prot_read()
    }
    &&& call.flags == sys_consts::spec_map_shared_fixed()
    &&& call.fd == fd
    &&& call.offset == file_position(req.fd_offset)
}

/// The call that puts the placeholder back where `req` says, on a system where `anonymous` is the
/// flag for a mapping without a file.
pub open spec fn is_unmap_call(
    call: MmapCall,
    window: MmapRegion,
    req: ShmemRequest,
    anonymous: i32,
) -> bool {
    &&& call.addr == window.spec_addr() + req.shm_offset
    &&& call.len == req.len
    &&& call.prot == sys_consts::spec_prot_none()
    &&& call.flags == anonymous | sys_consts::spec_map_private() | sys_consts::spec_map_fixed()
    &&& call.fd == -1
    &&& call.offset == 0
}

impl BackendReqHandler {
    #[verifier::type_invariant]
    spec fn has_a_flag_of_the_system(self) -> bool {
        sys_consts::is_map_anonymous(self.anonymous)
    }

    /// The window.
    pub closed spec fn spec_mapping(self) -> MmapRegion {
        self.mapping
    }

    /// The flag by which the system's `mmap` tells a mapping without a file.
    pub closed spec fn spec_anonymous(self) -> i32 {
        self.anonymous
    }

    /// Serves requests on the window `mapping`, with the flag of this system. Which of the two
    /// values the flag has depends on the architecture and is left open.
    pub fn new(mapping: MmapRegion) -> (handler: BackendReqHandler)
        ensures
            handler.spec_mapping() == mapping,
            sys_consts::is_map_anonymous(handler.spec_anonymous()),
    {
        BackendReqHandler { mapping, anonymous: sys_consts::map_anonymous() }
    }

    /// The window.
    pub fn mapping(&self) -> (mapping: MmapRegion)
        ensures
            mapping == self.spec_mapping(),
    {
        self.mapping
    }

    /// The flag by which the system's `mmap` tells a mapping without a file.
    pub fn anonymous(&self) -> (anonymous: i32)
        ensures
            anonymous == self.spec_anonymous(),
            sys_consts::is_map_anonymous(anonymous),
    {
        proof {
            use_type_invariant(self);
        }
        self.anonymous
    }

    /// The address of `shm_offset`, if the `len` bytes from there lie inside the window; the
    /// invalid-argument error if they do not.
    pub fn check_bounds(&self, shm_offset: u64, len: u64) -> (target: Result<usize, i32>)
        ensures
            in_window(self.spec_mapping(), shm_offset, len) ==> target is Ok && target->Ok_0
                == self.spec_mapping().spec_addr() + shm_offset,
            !in_window(self.spec_mapping(), shm_offset, len) ==> target == Err::<usize, i32>(
                sys_consts::spec_einval(),
            ),
    {
        if shm_offset > usize::MAX as u64 || len > usize::MAX as u64 {
            return Err(sys_consts::einval());
        }
        let off: usize = shm_offset as usize;
        match off.checked_add(len as usize) {
            Some(end) => {
                if end > self.mapping.size() {
                    Err(sys_consts::einval())
                } else {
                    Ok(self.mapping.address_at(off))
                }
            },
            None => Err(sys_consts::einval()),
        }
    }

    /// The `mmap` call that serves a mapping request for the file `fd`, or the error number that
    /// refuses it.
    pub fn shmem_map(&self, req: &ShmemRequest, fd: i32) -> (call: Result<MmapCall, i32>)
        ensures
            in_window(self.spec_mapping(), req.shm_offset, req.len) ==> call is Ok && is_map_call(
                call->Ok_0,
                self.spec_mapping(),
                *req,
                fd,
            ),
            !in_window(self.spec_mapping(), req.shm_offset, req.len) ==> call == Err::<MmapCall, i32>(
                sys_consts::spec_einval(),
            ),
    {
        let target: usize = match self.check_bounds(req.shm_offset, req.len) {
            Ok(target) => target,
            Err(errno) => return Err(errno),
        };
        let flags: u64 = protocol_flags::mmap_flags_from_bits_truncate(req.flags);
        let writable: u64 = protocol_flags::writable();
        let prot: i32 = if flags & writable == writable {
            sys_consts::prot_read() | sys_consts::prot_write()
        } else {
            sys_consts::prot_read()
        };
        let map_flags: i32 = sys_consts::map_shared() | sys_consts::map_fixed();
        let bits: u64 = req.flags;
        let position: u64 = req.fd_offset;
        proof {
            assert((bits & 1) & 1 == 1 <==> bits % 2 == 1) by (bit_vector);
            assert(1i32 | 2i32 == 3i32) by (bit_vector);
            assert(0x1i32 | 0x10i32 == 0x11i32) by (bit_vector);
            assert(position < 0x8000_0000_0000_0000 ==> (position as i64) == position)
                by (bit_vector);
            assert(position >= 0x8000_0000_0000_0000 ==> (position as i64) == position
                - 0x1_0000_0000_0000_0000) by (bit_vector);
        }
        Ok(
            MmapCall {
                addr: target,
                len: req.len as usize,
                prot,
                flags: map_flags,
                fd,
                offset: position as i64,
            },
        )
    }

    /// The `mmap` call that puts the placeholder back where `req` says, on a system where
    /// `anonymous` is the flag for a mapping without a file, or the error number that refuses the
    /// request.
    pub fn placeholder_call(&self, req: &ShmemRequest, anonymous: i32) -> (call: Result<
        MmapCall,
        i32,
    >)
        ensures
            in_window(self.spec_mapping(), req.shm_offset, req.len) ==> call is Ok && is_unmap_call(
                call->Ok_0,
                self.spec_mapping(),
                *req,
                anonymous,
            ),
            !in_window(self.spec_mapping(), req.shm_offset, req.len) ==> call == Err::<MmapCall, i32>(
                sys_consts::spec_einval(),
            ),
    {
        let target: usize = match self.check_bounds(req.shm_offset, req.len) {
            Ok(target) => target,
            Err(errno) => return Err(errno),
        };
        Ok(
            MmapCall {
                addr: target,
                len: req.len as usize,
                prot: sys_consts::prot_none(),
                flags: anonymous | sys_consts::map_private() | sys_consts::map_fixed(),
                fd: -1,
                offset: 0,
            },
        )
    }

    /// The `mmap` call that serves an unmapping request, or the error number that refuses it. Only
    /// the range of the request matters.
    pub fn shmem_unmap(&self, req: &ShmemRequest) -> (call: Result<MmapCall, i32>)
        ensures
            sys_consts::is_map_anonymous(self.spec_anonymous()),
            in_window(self.spec_mapping(), req.shm_offset, req.len) ==> call is Ok && is_unmap_call(
                call->Ok_0,
                self.spec_mapping(),
                *req,
                self.spec_anonymous(),
            ),
            !in_window(self.spec_mapping(), req.shm_offset, req.len) ==> call == Err::<MmapCall, i32>(
                sys_consts::spec_einval(),
            ),
    {
        self.placeholder_call(req, self.anonymous())
    }
}

/// An unmapping request is served by its range alone: its flags and its position in a file have
/// no influence on the call.
pub proof fn law_unmap_goes_by_the_range(
    window: MmapRegion,
    first: ShmemRequest,
    second: ShmemRequest,
    first_call: MmapCall,
    second_call: MmapCall,
    anonymous: i32,
)
    requires
        first.shm_offset == second.shm_offset,
        first.len == second.len,
        is_unmap_call(first_call, window, first, anonymous),
        is_unmap_call(second_call, window, second, anonymous),
    ensures
        first_call == second_call,
{
}

/// What the daemon is told once the `mmap` call was made: zero, or the error number with which
/// the call failed.
pub fn mmap_reply(failure: Option<i32>) -> (reply: Result<u64, i32>)
    ensures
        failure is None ==> reply == Ok::<u64, i32>(0),
        failure matches Some(errno) ==> reply == Err::<u64, i32>(errno),
{
    match failure {
        Some(errno) => Err(errno),
        None => Ok(0),
    }
}

} // verus!
