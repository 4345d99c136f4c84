//! Creating a device: when it succeeds, what the device is like, and what a snapshot gives back.
use crate::creation::BackendAnswers;
use crate::device::{Fs, State};
use crate::error::FsError;
use vstd::prelude::*;

verus! {

/// The arguments of a call of `Fs::new`.
pub struct NewArguments<'a, E> {
    pub id: String,
    pub path: &'a str,
    pub tag: &'a str,
    pub req_num_queues: usize,
    pub queue_size: u16,
    pub dax_enabled: bool,
    pub seccomp_action: seccompiler::SeccompAction,
    pub exit_evt: vmm_sys_util::eventfd::EventFd,
    pub access_platform_enabled: bool,
    pub state: Option<State>,
    pub answers: BackendAnswers<E>,
}

impl<'a, E> NewArguments<'a, E> {
    /// The arguments in their order.
    pub open spec fn in_order(self) -> (
        String,
        &'a str,
        &'a str,
        usize,
        u16,
        bool,
        seccompiler::SeccompAction,
        vmm_sys_util::eventfd::EventFd,
        bool,
        Option<State>,
        BackendAnswers<E>,
    ) {
        (
            self.id,
            self.path,
            self.tag,
            self.req_num_queues,
            self.queue_size,
            self.dax_enabled,
            self.seccomp_action,
            self.exit_evt,
            self.access_platform_enabled,
            self.state,
            self.answers,
        )
    }
}

/// A new device is created exactly if the daemon can be connected to and negotiates, acknowledges
/// shared memory (bit 22) where DAX is wanted, tells of exactly one region where it acknowledged
/// shared memory, tells its number of queues where it acknowledged multiple queues (bit 0), and
/// has one queue more than request queues were asked for. Without multiple queues it has two.
pub proof fn law_new_device_is_created_whenever_the_daemon_suits<M, E>(
    args: NewArguments<'_, E>,
    result: Result<(Fs<M>, Option<u64>), FsError<E>>,
)
    requires
        args.state is None,
        args.req_num_queues < usize::MAX,
        call_ensures(Fs::<M>::new::<E>, args.in_order(), result),
    ensures
        result is Ok <==> {
            &&& args.answers.connect is Ok
            &&& args.answers.negotiate_features matches Ok((_, protocol))
            &&& args.dax_enabled ==> protocol & 0x40_0000 != 0
            &&& protocol & 0x40_0000 != 0 ==> {
                &&& args.answers.get_shmem_config matches Ok(config)
                &&& config.nregions == 1
            }
            &&& if protocol & 0x1 != 0 {
                &&& args.answers.get_queue_num matches Ok(queues)
                &&& 1 + args.req_num_queues <= queues as usize
            } else {
                1 + args.req_num_queues <= 2
            }
        },
{
}

/// A device is restored exactly if the daemon can be connected to and takes the features and the
/// state of the snapshot. Neither DAX nor the number of queues is looked at again.
pub proof fn law_device_is_restored_whenever_the_daemon_takes_the_snapshot<M, E>(
    args: NewArguments<'_, E>,
    result: Result<(Fs<M>, Option<u64>), FsError<E>>,
)
    requires
        args.state is Some,
        args.req_num_queues < usize::MAX,
        call_ensures(Fs::<M>::new::<E>, args.in_order(), result),
    ensures
        result is Ok <==> {
            &&& args.answers.connect is Ok
            &&& args.answers.set_protocol_features is Ok
            &&& args.answers.restore_state is Ok
        },
{
}

/// The error of a restoration that failed is the first one that the daemon answered.
pub proof fn law_restoration_reports_the_first_error<M, E>(
    args: NewArguments<'_, E>,
    error: FsError<E>,
)
    requires
        args.state is Some,
        args.req_num_queues < usize::MAX,
        call_ensures(Fs::<M>::new::<E>, args.in_order(), Err(error)),
    ensures
        error == if args.answers.connect is Err {
            args.answers.connect->Err_0
        } else if args.answers.set_protocol_features is Err {
            args.answers.set_protocol_features->Err_0
        } else {
            args.answers.restore_state->Err_0
        },
{
}

/// The error of a creation that failed names the first thing that went wrong: the connection, the
/// negotiation, missing shared memory for DAX, the question for the regions, a number of regions
/// other than one, the question for the queues, and last too many queues.
pub proof fn law_creation_reports_the_first_error<M, E>(args: NewArguments<'_, E>, error: FsError<E>)
    requires
        args.state is None,
        args.req_num_queues < usize::MAX,
        call_ensures(Fs::<M>::new::<E>, args.in_order(), Err(error)),
    ensures
        ({
            let answers = args.answers;
            let protocol = (answers.negotiate_features->Ok_0).1;
            let shmem = protocol & 0x40_0000 != 0;
            if answers.connect is Err {
                error == answers.connect->Err_0
            } else if answers.negotiate_features is Err {
                error == answers.negotiate_features->Err_0
            } else if args.dax_enabled && !shmem {
                error == FsError::<E>::DaxNotSupported
            } else if shmem && answers.get_shmem_config is Err {
                error == FsError::<E>::VhostUserGetShmemConfig(answers.get_shmem_config->Err_0)
            } else if shmem && answers.get_shmem_config->Ok_0.nregions != 1 {
                error == FsError::<E>::FsUnexpectedShmemRegions(
                    answers.get_shmem_config->Ok_0.nregions,
                )
            } else if protocol & 0x1 != 0 && answers.get_queue_num is Err {
                error == FsError::<E>::VhostUserGetQueueMaxNum(answers.get_queue_num->Err_0)
            } else {
                error == FsError::<E>::BadQueueNum
            }
        }),
{
}

/// Whatever a device is made from, it is what was asked for: a file system device (26) with the
/// given name, socket, exit event and filter action, one queue more than request queues, each of
/// the given size, that needs one queue; and it has no window, no guest memory and no thread yet.
pub proof fn law_device_is_as_asked<M, E>(
    args: NewArguments<'_, E>,
    fs: Fs<M>,
    dax_cache_size: Option<u64>,
)
    requires
        args.req_num_queues < usize::MAX,
        call_ensures(Fs::<M>::new::<E>, args.in_order(), Ok((fs, dax_cache_size))),
    ensures
        fs.vu_common.virtio_common.device_type == 26,
        fs.vu_common.virtio_common.queue_sizes@.len() == 1 + args.req_num_queues,
        forall|i: int|
            0 <= i <= args.req_num_queues
                ==> #[trigger] fs.vu_common.virtio_common.queue_sizes@[i] == args.queue_size,
        fs.vu_common.virtio_common.min_queues == 1,
        fs.vu_common.socket_path@ == args.path@,
        fs.id@ == args.id@,
        fs.seccomp_action == args.seccomp_action,
        fs.exit_evt == args.exit_evt,
        fs.access_platform_enabled == args.access_platform_enabled,
        fs.cache is None,
        fs.guest_memory is None,
        !fs.vu_common.epoll_thread,
{
}

/// A new device knows the features that were negotiated, and counts as acknowledged the one among
/// them that no guest acknowledges (bit 30). It talks to the daemon over all its queues, runs, and
/// has no ring positions. The size of the window is told exactly if shared memory was
/// acknowledged, and is that of the daemon's region.
pub proof fn law_new_device_has_what_was_negotiated<M, E>(
    args: NewArguments<'_, E>,
    fs: Fs<M>,
    dax_cache_size: Option<u64>,
)
    requires
        args.state is None,
        args.req_num_queues < usize::MAX,
        call_ensures(Fs::<M>::new::<E>, args.in_order(), Ok((fs, dax_cache_size))),
    ensures
        ({
            let (features, protocol) = args.answers.negotiate_features->Ok_0;
            &&& fs.vu_common.virtio_common.avail_features == features
            &&& fs.vu_common.virtio_common.acked_features == features & 0x4000_0000
            &&& fs.vu_common.acked_protocol_features == protocol
            &&& fs.vu_common.vu_num_queues == 1 + args.req_num_queues
            &&& !fs.vu_common.virtio_common.paused
            &&& fs.vu_common.vring_bases is None
            &&& dax_cache_size == if protocol & 0x40_0000 != 0 {
                Some(args.answers.get_shmem_config->Ok_0.memory_sizes@[0])
            } else {
                None
            }
        }),
{
}

/// A new device and the daemon agree on the rings: no more of them than the daemon supports, and a
/// device that is told a window size has a daemon that maps files into it.
pub proof fn law_new_device_asks_for_no_more_than_the_daemon_has<M, E>(
    args: NewArguments<'_, E>,
    fs: Fs<M>,
    dax_cache_size: Option<u64>,
)
    requires
        args.state is None,
        args.req_num_queues < usize::MAX,
        call_ensures(Fs::<M>::new::<E>, args.in_order(), Ok((fs, dax_cache_size))),
    ensures
        fs.vu_common.acked_protocol_features & 0x1 != 0
            ==> fs.vu_common.virtio_common.queue_sizes@.len() <= args.answers.get_queue_num->Ok_0,
        fs.vu_common.acked_protocol_features & 0x1 == 0
            ==> fs.vu_common.virtio_common.queue_sizes@.len() <= 2,
        args.dax_enabled ==> dax_cache_size is Some,
        dax_cache_size is Some <==> fs.vu_common.acked_protocol_features & 0x40_0000 != 0,
{
    let queues: u64 = args.answers.get_queue_num->Ok_0;
    assert(queues as usize <= queues) by (bit_vector);
}

/// A restored device has what the snapshot kept, is paused, and comes without the size of a
/// window.
pub proof fn law_restored_device_has_what_the_snapshot_kept<M, E>(
    args: NewArguments<'_, E>,
    state: State,
    fs: Fs<M>,
    dax_cache_size: Option<u64>,
)
    requires
        args.state == Some(state),
        args.req_num_queues < usize::MAX,
        call_ensures(Fs::<M>::new::<E>, args.in_order(), Ok((fs, dax_cache_size))),
    ensures
        fs.vu_common.virtio_common.avail_features == state.avail_features,
        fs.vu_common.virtio_common.acked_features == state.acked_features,
        fs.vu_common.acked_protocol_features == state.acked_protocol_features,
        fs.vu_common.vu_num_queues == state.vu_num_queues,
        fs.config == state.config,
        fs.vu_common.vring_bases == state.vring_bases,
        fs.vu_common.virtio_common.paused,
        dax_cache_size is None,
{
}

/// A device, new or restored, offers platform access (bit 33) to the guest if it was created with
/// it, and no device offers it that neither was created with it nor knows it from the daemon or
/// the snapshot.
pub proof fn law_platform_access_is_offered_as_asked<M, E>(
    args: NewArguments<'_, E>,
    fs: Fs<M>,
    dax_cache_size: Option<u64>,
    offer: u64,
)
    requires
        args.req_num_queues < usize::MAX,
        call_ensures(Fs::<M>::new::<E>, args.in_order(), Ok((fs, dax_cache_size))),
        call_ensures(Fs::<M>::features, (&fs,), offer),
    ensures
        args.access_platform_enabled ==> offer & 0x2_0000_0000 != 0,
        !args.access_platform_enabled ==> offer == match args.state {
            Some(state) => state.avail_features,
            None => (args.answers.negotiate_features->Ok_0).0,
        },
        offer & !0x2_0000_0000u64 == !0x2_0000_0000u64 & match args.state {
            Some(state) => state.avail_features,
            None => (args.answers.negotiate_features->Ok_0).0,
        },
{
    let avail: u64 = fs.vu_common.virtio_common.avail_features;
    assert((avail | 0x2_0000_0000) & 0x2_0000_0000 != 0) by (bit_vector);
    assert((avail | 0x2_0000_0000) & !0x2_0000_0000u64 == !0x2_0000_0000u64 & avail)
        by (bit_vector);
    assert(avail & !0x2_0000_0000u64 == !0x2_0000_0000u64 & avail) by (bit_vector);
}

/// A device that is restored from a snapshot of `original` goes on where `original` stood: same
/// features, same queues of the daemon, same configuration, same ring positions. A snapshot of the
/// restored device is the same snapshot again.
pub proof fn law_restored_device_goes_on_where_the_original_stood<M, N, E, F>(
    original: Fs<N>,
    state: State,
    args: NewArguments<'_, E>,
    fs: Fs<M>,
    dax_cache_size: Option<u64>,
    again: State,
)
    requires
        call_ensures(Fs::<N>::state::<F>, (&original, Ok(())), Ok(state)),
        args.state == Some(state),
        args.req_num_queues < usize::MAX,
        call_ensures(Fs::<M>::new::<E>, args.in_order(), Ok((fs, dax_cache_size))),
        call_ensures(Fs::<M>::state::<F>, (&fs, Ok(())), Ok(again)),
    ensures
        fs.vu_common.virtio_common.avail_features
            == original.vu_common.virtio_common.avail_features,
        fs.vu_common.virtio_common.acked_features
            == original.vu_common.virtio_common.acked_features,
        fs.vu_common.acked_protocol_features == original.vu_common.acked_protocol_features,
        fs.vu_common.vu_num_queues == original.vu_common.vu_num_queues,
        fs.config == original.config,
        fs.vu_common.vring_bases is Some <==> original.vu_common.vring_bases is Some,
        fs.vu_common.vring_bases is Some ==> fs.vu_common.vring_bases->0@
            == original.vu_common.vring_bases->0@,
        fs.vu_common.virtio_common.paused,
        again.avail_features == state.avail_features,
        again.acked_features == state.acked_features,
        again.acked_protocol_features == state.acked_protocol_features,
        again.vu_num_queues == state.vu_num_queues,
        again.config == state.config,
        again.vring_bases is Some <==> state.vring_bases is Some,
        again.vring_bases is Some ==> again.vring_bases->0@ == state.vring_bases->0@,
{
}

/// A guest that reads the configuration space of a new device, at any offset and into a buffer of
/// any length, finds the bytes of the tag (as far as 36 go, then zero bytes) and behind them the
/// number of request queues in the byte order of the machine, and nothing if it reads past them.
pub proof fn law_guest_reads_what_the_device_was_given<M, E>(
    args: NewArguments<'_, E>,
    fs: Fs<M>,
    dax_cache_size: Option<u64>,
    offset: u64,
    data: &mut [u8],
)
    requires
        args.state is None,
        args.req_num_queues < usize::MAX,
        call_ensures(Fs::<M>::new::<E>, args.in_order(), Ok((fs, dax_cache_size))),
        call_ensures(Fs::<M>::read_config, (&fs, offset, data), ()),
    ensures
        ({
            let text = vstd::utf8::encode_utf8(args.tag@);
            let before = old(data)@;
            let after = final(data)@;
            &&& after.len() == before.len()
            &&& offset + before.len() > 40 ==> after == before
            &&& offset + before.len() <= 40 ==> forall|i: int|
                0 <= i < before.len() && offset + i < 36 ==> #[trigger] after[i] == if offset + i
                    < text.len() {
                    text[offset + i]
                } else {
                    0
                }
            &&& offset == 36 && before.len() == 4 ==> super::config::number_of(after)
                == args.req_num_queues as int % 0x1_0000_0000
        }),
{
    let queues: u64 = args.req_num_queues as u64;
    assert(queues as u32 == queues % 0x1_0000_0000) by (bit_vector);
    super::config::lemma_machine_bytes(fs.config.num_request_queues);
    if offset == 36 && data@.len() == 4 {
        assert(crate::config::config_image(fs.config).subrange(36, 40)
            =~= crate::config::machine_bytes(fs.config.num_request_queues));
    }
}

/// A guest that reads the configuration space of a restored device finds the tag and the number of
/// request queues that the snapshot kept.
pub proof fn law_guest_reads_what_the_snapshot_kept<M, E>(
    args: NewArguments<'_, E>,
    state: State,
    fs: Fs<M>,
    dax_cache_size: Option<u64>,
    offset: u64,
    data: &mut [u8],
)
    requires
        args.state == Some(state),
        args.req_num_queues < usize::MAX,
        call_ensures(Fs::<M>::new::<E>, args.in_order(), Ok((fs, dax_cache_size))),
        call_ensures(Fs::<M>::read_config, (&fs, offset, data), ()),
    ensures
        final(data)@.len() == old(data)@.len(),
        offset + old(data)@.len() > 40 ==> final(data)@ == old(data)@,
        offset + old(data)@.len() <= 40 ==> forall|i: int|
            0 <= i < old(data)@.len() && offset + i < 36 ==> #[trigger] final(data)@[i]
                == state.config.tag@[offset + i],
        offset == 36 && old(data)@.len() == 4 ==> super::config::number_of(final(data)@)
            == state.config.num_request_queues,
{
    super::config::lemma_machine_bytes(fs.config.num_request_queues);
    if offset == 36 && data@.len() == 4 {
        assert(crate::config::config_image(fs.config).subrange(36, 40)
            =~= crate::config::machine_bytes(fs.config.num_request_queues));
    }
}

} // verus!
