//! The device as its users see it between setup and shutdown.
use crate::config::{read_config_from_slice, VirtioFsConfig};
use crate::error::DeviceError;
use crate::features::VIRTIO_F_ACCESS_PLATFORM;
use crate::region::{UserspaceMapping, VirtioSharedMemoryList};
use vstd::prelude::*;

verus! {

/// The virtio device number of a file system.
pub const VIRTIO_ID_FS: u32 = 26;

/// What a snapshot keeps of a vhost-user device with the configuration `C`.
#[derive(Debug)]
pub struct VhostUserState<C> {
    pub avail_features: u64,
    pub acked_features: u64,
    pub acked_protocol_features: u64,
    pub vu_num_queues: usize,
    pub config: C,
    pub vring_bases: Option<Vec<u64>>,
}

/// What a snapshot keeps of a virtio-fs device.
pub type State = VhostUserState<VirtioFsConfig>;

/// What every virtio device has. `paused` is set at creation: a restored device starts out paused.
/// From then on whoever pauses and resumes the device reports it (`take_over`).
#[derive(Debug)]
pub struct VirtioCommon {
    pub device_type: u32,
    pub avail_features: u64,
    pub acked_features: u64,
    pub queue_sizes: Vec<u16>,
    pub min_queues: u16,
    pub paused: bool,
}

/// What every vhost-user device has.
///
/// `vring_bases` are the ring positions that the device was restored with, or those reported since
/// by whoever paused the daemon. `epoll_thread` says that an activation has started the device's
/// thread; whoever stops the thread reports that (`take_over`).
#[derive(Debug)]
pub struct VhostUserCommon {
    pub virtio_common: VirtioCommon,
    pub acked_protocol_features: u64,
    pub socket_path: String,
    pub vu_num_queues: usize,
    pub vring_bases: Option<Vec<u64>>,
    pub epoll_thread: bool,
}

/// A virtio-fs device. `M` is the handle on the guest's memory.
#[derive(Debug)]
pub struct Fs<M> {
    pub vu_common: VhostUserCommon,
    pub id: String,
    pub config: VirtioFsConfig,
    /// The DAX window. Files that the daemon maps become visible in it.
    pub cache: Option<VirtioSharedMemoryList>,
    pub seccomp_action: seccompiler::SeccompAction,
    pub guest_memory: Option<M>,
    pub exit_evt: vmm_sys_util::eventfd::EventFd,
    pub access_platform_enabled: bool,
}

/// The contents of the saved ring positions, if there are any.
pub open spec fn vring_bases_view(bases: Option<Vec<u64>>) -> Option<Seq<u64>> {
    match bases {
        Some(v) => Some(v@),
        None => None,
    }
}

/// `state` is what a snapshot of `fs` keeps.
pub open spec fn is_state_of<M>(state: State, fs: Fs<M>) -> bool {
    &&& state.avail_features == fs.vu_common.virtio_common.avail_features
    &&& state.acked_features == fs.vu_common.virtio_common.acked_features
    &&& state.acked_protocol_features == fs.vu_common.acked_protocol_features
    &&& state.vu_num_queues == fs.vu_common.vu_num_queues
    &&& state.config == fs.config
    &&& vring_bases_view(state.vring_bases) == vring_bases_view(fs.vu_common.vring_bases)
}

/// The host mappings that the guest can reach through the window `cache`.
pub open spec fn mappings_of(cache: Option<VirtioSharedMemoryList>) -> Seq<UserspaceMapping> {
    match cache {
        Some(list) => seq![
            UserspaceMapping {
                mem_slot: list.mem_slot,
                addr: list.addr,
                mapping: list.mapping,
                mergeable: false,
            },
        ],
        None => Seq::empty(),
    }
}

impl<M> Fs<M> {
    /// What holds of every device: it is a file system device that needs one queue and has
    /// at least one.
    pub open spec fn wf(self) -> bool {
        &&& self.vu_common.virtio_common.device_type == VIRTIO_ID_FS
        &&& self.vu_common.virtio_common.min_queues == 1
        &&& self.vu_common.virtio_common.queue_sizes@.len() >= 1
    }

    /// Installs the DAX window. To take effect it has to be there before the device is activated.
    pub fn set_cache(&mut self, cache: VirtioSharedMemoryList)
        ensures
            *final(self) == (Fs { cache: Some(cache), ..*old(self) }),
            old(self).wf() ==> final(self).wf(),
    {
        self.cache = Some(cache);
    }

    /// Takes over what the parts that the device shares with others have changed: whether there is
    /// a thread, whether the device is paused, and ring positions if they have stored any.
    pub fn take_over(&mut self, epoll_thread: bool, paused: bool, vring_bases: Option<Vec<u64>>)
        ensures
            *final(self) == (Fs {
                vu_common: VhostUserCommon {
                    virtio_common: VirtioCommon { paused, ..old(self).vu_common.virtio_common },
                    vring_bases: if vring_bases is Some {
                        vring_bases
                    } else {
                        old(self).vu_common.vring_bases
                    },
                    epoll_thread,
                    ..old(self).vu_common
                },
                ..*old(self)
            }),
            old(self).wf() ==> final(self).wf(),
    {
        self.vu_common.epoll_thread = epoll_thread;
        self.vu_common.virtio_common.paused = paused;
        if vring_bases.is_some() {
            self.vu_common.vring_bases = vring_bases;
        }
    }

    /// What a snapshot keeps of the device. `shared` is the word of the parts that the device
    /// shares with others: if they cannot give their state, their error is the result.
    pub fn state<E>(&self, shared: Result<(), E>) -> (state: Result<State, E>)
        ensures
            shared is Ok ==> state is Ok && is_state_of(state->Ok_0, *self),
            shared matches Err(e) ==> state == Err::<State, E>(e),
    {
        match shared {
            Ok(()) => {},
            Err(e) => return Err(e),
        }
        let vring_bases: Option<Vec<u64>> = match &self.vu_common.vring_bases {
            Some(bases) => Some(bases.clone()),
            None => None,
        };
        Ok(
            VhostUserState {
                avail_features: self.vu_common.virtio_common.avail_features,
                acked_features: self.vu_common.virtio_common.acked_features,
                acked_protocol_features: self.vu_common.acked_protocol_features,
                vu_num_queues: self.vu_common.vu_num_queues,
                config: self.config,
                vring_bases,
            },
        )
    }

    /// The virtio device number.
    pub fn device_type(&self) -> (device_type: u32)
        ensures
            device_type == self.vu_common.virtio_common.device_type,
            self.wf() ==> device_type == VIRTIO_ID_FS,
    {
        self.vu_common.virtio_common.device_type
    }

    /// The largest size of each queue.
    pub fn queue_max_sizes(&self) -> (sizes: &[u16])
        ensures
            sizes@ == self.vu_common.virtio_common.queue_sizes@,
    {
        self.vu_common.virtio_common.queue_sizes.as_slice()
    }

    /// The features that the guest is offered.
    pub fn features(&self) -> (features: u64)
        ensures
            features == crate::features::offered_features(
                self.vu_common.virtio_common.avail_features,
                self.access_platform_enabled,
            ),
    {
        let mut features: u64 = self.vu_common.virtio_common.avail_features;
        if self.access_platform_enabled {
            assert(1u64 << 33u32 == 0x2_0000_0000u64) by (bit_vector);
            features = features | (1u64 << VIRTIO_F_ACCESS_PLATFORM);
        }
        features
    }

    /// Takes note of features that the guest acknowledges. Those that the device does not know
    /// are ignored.
    pub fn ack_features(&mut self, value: u64)
        ensures
            final(self).vu_common.virtio_common.acked_features == crate::features::acked_after(
                old(self).vu_common.virtio_common.acked_features,
                old(self).vu_common.virtio_common.avail_features,
                value,
            ),
            *final(self) == (Fs {
                vu_common: VhostUserCommon {
                    virtio_common: VirtioCommon {
                        acked_features: final(self).vu_common.virtio_common.acked_features,
                        ..old(self).vu_common.virtio_common
                    },
                    ..old(self).vu_common
                },
                ..*old(self)
            }),
            old(self).wf() ==> final(self).wf(),
    {
        let known: u64 = value & self.vu_common.virtio_common.avail_features;
        self.vu_common.virtio_common.acked_features = self.vu_common.virtio_common.acked_features
            | known;
    }

    /// Copies the configuration space from `offset` on to `data`. A read that goes past its end
    /// leaves `data` as it is. The number of request queues is in the byte order of the machine.
    pub fn read_config(&self, offset: u64, data: &mut [u8])
        ensures
            final(data)@ == crate::config::read_result(
                crate::config::config_image(self.config),
                offset as int,
                old(data)@,
            ),
    {
        let image: Vec<u8> = self.config.as_slice();
        read_config_from_slice(image.as_slice(), offset, data);
    }

    /// The DAX window, if one is installed.
    pub fn get_shm_regions(&self) -> (regions: Option<VirtioSharedMemoryList>)
        ensures
            regions == self.cache,
    {
        self.cache
    }

    /// Replaces the DAX window. A device that has none cannot be given one this way.
    pub fn set_shm_regions(&mut self, shm_regions: VirtioSharedMemoryList) -> (result: Result<
        (),
        DeviceError,
    >)
        ensures
            old(self).cache is Some ==> result is Ok && *final(self) == (Fs {
                cache: Some(shm_regions),
                ..*old(self)
            }),
            old(self).cache is None ==> result == Err::<(), DeviceError>(
                DeviceError::SetShmRegionsNotSupported,
            ) && *final(self) == *old(self),
            old(self).wf() ==> final(self).wf(),
    {
        if self.cache.is_some() {
            self.cache = Some(shm_regions);
            Ok(())
        } else {
            Err(DeviceError::SetShmRegionsNotSupported)
        }
    }

    /// The host mappings that the guest can reach through the device: the DAX window, if there
    /// is one.
    pub fn userspace_mappings(&self) -> (mappings: Vec<UserspaceMapping>)
        ensures
            mappings@ == mappings_of(self.cache),
    {
        let mut mappings: Vec<UserspaceMapping> = Vec::new();
        if let Some(list) = &self.cache {
            mappings.push(
                UserspaceMapping {
                    mem_slot: list.mem_slot,
                    addr: list.addr,
                    mapping: list.mapping,
                    mergeable: false,
                },
            );
        }
        assert(mappings@ =~= mappings_of(self.cache));
        mappings
    }

    /// The name of the device.
    pub fn id(&self) -> (id: String)
        ensures
            id@ == self.id@,
    {
        self.id.clone()
    }
}

} // verus!
