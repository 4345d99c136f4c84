use vhost_user_fs::region::MmapRegion;
use vhost_user_fs::shmem::{mmap_reply, BackendReqHandler, MmapCall, ShmemRequest};

const EINVAL: i32 = 22;

fn handler() -> BackendReqHandler {
    BackendReqHandler::new(MmapRegion::new(0x7000_0000, 0x4000).unwrap())
}

fn request(shm_offset: u64, len: u64, flags: u64) -> ShmemRequest {
    ShmemRequest {
        shmid: 0,
        fd_offset: 0x3000,
        shm_offset,
        len,
        flags,
    }
}

#[test]
fn region_must_fit_the_address_space() {
    let region = MmapRegion::new(1, usize::MAX - 1).unwrap();
    assert_eq!(region.addr(), 1);
    assert_eq!(region.size(), usize::MAX - 1);
    assert_eq!(region.address_at(usize::MAX - 1), usize::MAX);
    assert_eq!(MmapRegion::new(2, usize::MAX - 1), None);
}

#[test]
fn bounds_inside_the_window() {
    assert_eq!(handler().check_bounds(0, 0x4000), Ok(0x7000_0000));
    assert_eq!(handler().check_bounds(0x1000, 0x3000), Ok(0x7000_1000));
    assert_eq!(handler().check_bounds(0x4000, 0), Ok(0x7000_4000));
}

#[test]
fn bounds_outside_the_window() {
    assert_eq!(handler().check_bounds(0, 0x4001), Err(EINVAL));
    assert_eq!(handler().check_bounds(0x4001, 0), Err(EINVAL));
    assert_eq!(handler().check_bounds(0x1000, 0x3001), Err(EINVAL));
}

#[test]
fn bounds_that_overflow() {
    assert_eq!(handler().check_bounds(u64::MAX, 1), Err(EINVAL));
    assert_eq!(handler().check_bounds(1, u64::MAX), Err(EINVAL));
    assert_eq!(handler().check_bounds(u64::MAX, u64::MAX), Err(EINVAL));
}

#[test]
fn map_read_only() {
    assert_eq!(
        handler().shmem_map(&request(0x1000, 0x2000, 0), 7),
        Ok(MmapCall {
            addr: 0x7000_1000,
            len: 0x2000,
            prot: libc::PROT_READ,
            flags: libc::MAP_SHARED | libc::MAP_FIXED,
            fd: 7,
            offset: 0x3000,
        })
    );
}

#[test]
fn map_writable() {
    let call = handler().shmem_map(&request(0, 0x1000, 1), 7).unwrap();
    assert_eq!(call.prot, libc::PROT_READ | libc::PROT_WRITE);
}

#[test]
fn map_ignores_unknown_flags() {
    let call = handler().shmem_map(&request(0, 0x1000, 0xfffe), 7).unwrap();
    assert_eq!(call.prot, libc::PROT_READ);
    let call = handler().shmem_map(&request(0, 0x1000, 0xffff), 7).unwrap();
    assert_eq!(call.prot, libc::PROT_READ | libc::PROT_WRITE);
}

#[test]
fn map_wraps_large_file_positions() {
    let mut req = request(0, 0x1000, 0);
    req.fd_offset = 0x7fff_ffff_ffff_f000;
    assert_eq!(
        handler().shmem_map(&req, 7).unwrap().offset,
        0x7fff_ffff_ffff_f000
    );
    req.fd_offset = 0xffff_ffff_ffff_f000;
    assert_eq!(handler().shmem_map(&req, 7).unwrap().offset, -0x1000);
}

#[test]
fn map_is_refused_outside_the_window() {
    assert_eq!(
        handler().shmem_map(&request(0x2000, 0x2001, 1), 7),
        Err(EINVAL)
    );
}

#[test]
fn unmap_restores_the_placeholder() {
    assert_eq!(
        handler().shmem_unmap(&request(0x1000, 0x2000, 1)),
        Ok(MmapCall {
            addr: 0x7000_1000,
            len: 0x2000,
            prot: libc::PROT_NONE,
            flags: libc::MAP_ANONYMOUS | libc::MAP_PRIVATE | libc::MAP_FIXED,
            fd: -1,
            offset: 0,
        })
    );
}

#[test]
fn unmap_is_refused_outside_the_window() {
    assert_eq!(
        handler().shmem_unmap(&request(0x4000, 1, 0)),
        Err(libc::EINVAL)
    );
}

#[test]
fn map_and_unmap_touch_the_same_bytes() {
    let req = request(0x3000, 0x1000, 1);
    let map = handler().shmem_map(&req, 7).unwrap();
    let unmap = handler().shmem_unmap(&req).unwrap();
    assert_eq!((map.addr, map.len), (unmap.addr, unmap.len));
    assert_eq!((map.addr, map.len), (0x7000_3000, 0x1000));
}

#[test]
fn reply_after_mmap() {
    assert_eq!(mmap_reply(None), Ok(0));
    assert_eq!(mmap_reply(Some(12)), Err(12));
}

#[test]
fn placeholder_call_takes_the_flag_of_the_system() {
    let req = request(0x1000, 0x3000, 1);
    let call = handler().placeholder_call(&req, 0x800).unwrap();
    assert_eq!(call.flags, 0x812);
    let call = handler().placeholder_call(&req, 0x20).unwrap();
    assert_eq!(call.flags, 0x32);
    assert_eq!(
        handler().placeholder_call(&request(0x1000, 0x3001, 1), 0x20),
        Err(EINVAL)
    );
}

#[test]
fn handler_uses_the_flag_of_this_system() {
    assert_eq!(handler().mapping().addr(), 0x7000_0000);
    assert_eq!(handler().anonymous(), libc::MAP_ANONYMOUS);
}

#[test]
fn unmap_goes_by_the_range() {
    let mut first = request(0x1000, 0x3000, 1);
    first.fd_offset = 0x2000;
    let second = request(0x1000, 0x3000, 0);
    assert_eq!(handler().shmem_unmap(&first), handler().shmem_unmap(&second));
    assert_eq!(
        handler().shmem_unmap(&first),
        Ok(MmapCall {
            addr: 0x7000_1000,
            len: 0x3000,
            prot: libc::PROT_NONE,
            flags: libc::MAP_ANONYMOUS | libc::MAP_PRIVATE | libc::MAP_FIXED,
            fd: -1,
            offset: 0,
        })
    );
}
