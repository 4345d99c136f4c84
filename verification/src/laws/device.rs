//! The device between setup and shutdown: what its users put in and get out.
use crate::config::VirtioFsConfig;
use crate::device::{Fs, State};
use crate::error::DeviceError;
use crate::region::{UserspaceMapping, VirtioSharedMemoryList};
use vstd::prelude::*;

verus! {

/// `after` is `before` but perhaps for its window.
pub open spec fn same_but_for_the_window<M>(before: Fs<M>, after: Fs<M>) -> bool {
    &&& after.vu_common == before.vu_common
    &&& after.id == before.id
    &&& after.config == before.config
    &&& after.seccomp_action == before.seccomp_action
    &&& after.guest_memory == before.guest_memory
    &&& after.exit_evt == before.exit_evt
    &&& after.access_platform_enabled == before.access_platform_enabled
}

/// A window that is installed is the one that the device then has, and the one mapping that the
/// guest can reach: at the same slot and guest address, on the same host memory, never merged.
pub proof fn law_installed_window_is_there<M>(
    fs: &mut Fs<M>,
    cache: VirtioSharedMemoryList,
    regions: Option<VirtioSharedMemoryList>,
    mappings: Vec<UserspaceMapping>,
)
    requires
        call_ensures(Fs::<M>::set_cache, (fs, cache), ()),
        call_ensures(Fs::<M>::get_shm_regions, (&*final(fs),), regions),
        call_ensures(Fs::<M>::userspace_mappings, (&*final(fs),), mappings),
    ensures
        regions == Some(cache),
        mappings@.len() == 1,
        mappings@[0].mem_slot == cache.mem_slot,
        mappings@[0].addr == cache.addr,
        mappings@[0].mapping == cache.mapping,
        !mappings@[0].mergeable,
        same_but_for_the_window(*old(fs), *final(fs)),
{
}

/// A device without a window has no mapping that the guest can reach.
pub proof fn law_no_window_no_mapping<M>(
    fs: Fs<M>,
    regions: Option<VirtioSharedMemoryList>,
    mappings: Vec<UserspaceMapping>,
)
    requires
        call_ensures(Fs::<M>::get_shm_regions, (&fs,), regions),
        call_ensures(Fs::<M>::userspace_mappings, (&fs,), mappings),
    ensures
        mappings@.len() == 0 <==> regions is None,
        regions is Some <==> fs.cache is Some,
{
}

/// A window can be replaced exactly if there is one: then the new one is there. Otherwise the
/// device says that it cannot and still has none.
pub proof fn law_window_is_replaced_or_refused<M>(
    fs: &mut Fs<M>,
    regions_before: Option<VirtioSharedMemoryList>,
    new: VirtioSharedMemoryList,
    result: Result<(), DeviceError>,
    regions_after: Option<VirtioSharedMemoryList>,
)
    requires
        call_ensures(Fs::<M>::get_shm_regions, (&*fs,), regions_before),
        call_ensures(Fs::<M>::set_shm_regions, (fs, new), result),
        call_ensures(Fs::<M>::get_shm_regions, (&*final(fs),), regions_after),
    ensures
        result is Ok <==> regions_before is Some,
        result is Ok ==> regions_after == Some(new),
        result matches Err(error) ==> error == DeviceError::SetShmRegionsNotSupported,
        result is Err ==> regions_after is None,
        same_but_for_the_window(*old(fs), *final(fs)),
{
}

/// What the shared parts report is what the device then has; ring positions that they do not report
/// stay as they were, and so does everything else.
pub proof fn law_report_of_the_shared_parts_is_taken_over<M>(
    fs: &mut Fs<M>,
    epoll_thread: bool,
    paused: bool,
    vring_bases: Option<Vec<u64>>,
)
    requires
        call_ensures(Fs::<M>::take_over, (fs, epoll_thread, paused, vring_bases), ()),
    ensures
        ({
            let before = *old(fs);
            let after = *final(fs);
            &&& after.vu_common.epoll_thread == epoll_thread
            &&& after.vu_common.virtio_common.paused == paused
            &&& vring_bases is Some ==> after.vu_common.vring_bases == vring_bases
            &&& vring_bases is None ==> after.vu_common.vring_bases == before.vu_common.vring_bases
            &&& after.vu_common.virtio_common.device_type
                == before.vu_common.virtio_common.device_type
            &&& after.vu_common.virtio_common.avail_features
                == before.vu_common.virtio_common.avail_features
            &&& after.vu_common.virtio_common.acked_features
                == before.vu_common.virtio_common.acked_features
            &&& after.vu_common.virtio_common.queue_sizes
                == before.vu_common.virtio_common.queue_sizes
            &&& after.vu_common.virtio_common.min_queues
                == before.vu_common.virtio_common.min_queues
            &&& after.vu_common.acked_protocol_features == before.vu_common.acked_protocol_features
            &&& after.vu_common.socket_path == before.vu_common.socket_path
            &&& after.vu_common.vu_num_queues == before.vu_common.vu_num_queues
            &&& after.id == before.id
            &&& after.config == before.config
            &&& after.cache == before.cache
            &&& after.seccomp_action == before.seccomp_action
            &&& after.guest_memory == before.guest_memory
            &&& after.exit_evt == before.exit_evt
            &&& after.access_platform_enabled == before.access_platform_enabled
        }),
{
}

/// A snapshot is taken exactly if the shared parts can give their state, and their error is the
/// result otherwise. It keeps the features, the queues of the daemon, the configuration and the
/// ring positions of the device.
pub proof fn law_snapshot_keeps_the_device<M, E>(
    fs: Fs<M>,
    shared: Result<(), E>,
    result: Result<State, E>,
)
    requires
        call_ensures(Fs::<M>::state::<E>, (&fs, shared), result),
    ensures
        result is Ok <==> shared is Ok,
        result is Err ==> result->Err_0 == shared->Err_0,
        result matches Ok(state) ==> {
            &&& state.avail_features == fs.vu_common.virtio_common.avail_features
            &&& state.acked_features == fs.vu_common.virtio_common.acked_features
            &&& state.acked_protocol_features == fs.vu_common.acked_protocol_features
            &&& state.vu_num_queues == fs.vu_common.vu_num_queues
            &&& state.config == fs.config
            &&& state.vring_bases is Some <==> fs.vu_common.vring_bases is Some
            &&& state.vring_bases is Some ==> state.vring_bases->0@
                == fs.vu_common.vring_bases->0@
        },
{
}

/// Ring positions that were reported are in the next snapshot, number by number; so are those of
/// before if none were reported.
pub proof fn law_reported_ring_positions_are_saved<M, E>(
    fs: &mut Fs<M>,
    epoll_thread: bool,
    paused: bool,
    vring_bases: Option<Vec<u64>>,
    state: State,
)
    requires
        call_ensures(Fs::<M>::take_over, (fs, epoll_thread, paused, vring_bases), ()),
        call_ensures(Fs::<M>::state::<E>, (&*final(fs), Ok(())), Ok(state)),
    ensures
        vring_bases matches Some(bases) ==> state.vring_bases is Some && state.vring_bases->0@
            == bases@,
        vring_bases is None ==> {
            &&& state.vring_bases is Some <==> old(fs).vu_common.vring_bases is Some
            &&& state.vring_bases is Some ==> state.vring_bases->0@
                == old(fs).vu_common.vring_bases->0@
        },
{
}

/// What the device tells about itself is what it has.
pub proof fn law_device_tells_what_it_has<M>(
    fs: Fs<M>,
    device_type: u32,
    sizes: &[u16],
    id: String,
)
    requires
        call_ensures(Fs::<M>::device_type, (&fs,), device_type),
        call_ensures(Fs::<M>::queue_max_sizes, (&fs,), sizes),
        call_ensures(Fs::<M>::id, (&fs,), id),
    ensures
        device_type == fs.vu_common.virtio_common.device_type,
        sizes@ == fs.vu_common.virtio_common.queue_sizes@,
        id@ == fs.id@,
{
}

/// A guest that reads within the configuration space gets its bytes from the offset on, for the
/// whole length of the buffer; one that reads past the end gets nothing.
pub proof fn law_guest_reads_the_configuration_space<M>(
    fs: Fs<M>,
    space: Vec<u8>,
    offset: u64,
    data: &mut [u8],
)
    requires
        call_ensures(VirtioFsConfig::as_slice, (&fs.config,), space),
        call_ensures(Fs::<M>::read_config, (&fs, offset, data), ()),
    ensures
        final(data)@.len() == old(data)@.len(),
        offset + old(data)@.len() <= 40 ==> forall|i: int|
            0 <= i < old(data)@.len() ==> #[trigger] final(data)@[i] == space@[offset + i],
        offset + old(data)@.len() > 40 ==> final(data)@ == old(data)@,
{
}

} // verus!
