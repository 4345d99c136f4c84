//! Which calls can be made: no input is left out but what a machine word cannot hold, and answers to
//! questions that were not asked.
use super::creation::NewArguments;
use crate::activation::ActivationEvent;
use crate::config::VirtioFsConfig;
use crate::device::{Fs, State};
use crate::lifecycle::{PauseEvent, ResumeEvent, SnapshotEvent};
use crate::region::{MmapRegion, VirtioSharedMemoryList};
use crate::setup::{FsParams, Setup, SetupReply, SetupRequest};
use crate::shmem::{BackendReqHandler, ShmemRequest};
use vstd::prelude::*;

verus! {

/// Any region can be described, a handler serves any window, and any request can be handed to it.
pub proof fn law_any_request_is_answered(
    addr: usize,
    size: usize,
    window: MmapRegion,
    handler: BackendReqHandler,
    req: ShmemRequest,
    fd: i32,
    anonymous: i32,
    failure: Option<i32>,
)
    ensures
        call_requires(MmapRegion::new, (addr, size)),
        call_requires(BackendReqHandler::new, (window,)),
        call_requires(BackendReqHandler::check_bounds, (&handler, req.shm_offset, req.len)),
        call_requires(BackendReqHandler::shmem_map, (&handler, &req, fd)),
        call_requires(BackendReqHandler::placeholder_call, (&handler, &req, anonymous)),
        call_requires(BackendReqHandler::shmem_unmap, (&handler, &req)),
        call_requires(crate::shmem::mmap_reply, (failure,)),
{
}

/// Any address within a region can be asked for, its end included.
pub proof fn law_any_address_of_a_region_is_told(
    addr: usize,
    size: usize,
    region: MmapRegion,
    offset: usize,
)
    requires
        call_ensures(MmapRegion::new, (addr, size), Some(region)),
        offset <= size,
    ensures
        call_requires(MmapRegion::address_at, (&region, offset)),
{
}

/// A device can be asked for with any number of queues that a machine word can count, whatever the
/// rest of the arguments and the daemon's answers, at once or step by step.
pub proof fn law_any_device_can_be_asked_for<M, E>(
    args: NewArguments<'_, E>,
    params: FsParams,
    state: Option<State>,
)
    requires
        1 + args.req_num_queues <= usize::MAX,
        params.req_num_queues == args.req_num_queues,
    ensures
        call_requires(Fs::<M>::new::<E>, args.in_order()),
        call_requires(Setup::new, (params, state)),
{
}

/// A setup takes any answer to what it asks for.
pub proof fn law_any_answer_to_the_question_is_taken<M, E>(
    setup: Setup,
    request: SetupRequest<'_>,
    reply: SetupReply<E>,
)
    requires
        call_ensures(Setup::request, (&setup,), request),
        match request {
            SetupRequest::Connect { .. } => reply is Connected,
            SetupRequest::SetProtocolFeatures { .. } => reply is ProtocolFeaturesSet,
            SetupRequest::RestoreState { .. } => reply is StateRestored,
            SetupRequest::NegotiateFeatures { .. } => reply is FeaturesNegotiated,
            SetupRequest::GetShmemConfig => reply is ShmemConfig,
            SetupRequest::GetQueueNum => reply is QueueNum,
        },
    ensures
        call_requires(Setup::reply::<M, E>, (setup, reply)),
        call_requires(Setup::request, (&setup,)),
        call_requires(Setup::stage, (&setup,)),
{
}

/// Any device can be asked and told anything.
pub proof fn law_any_device_can_be_used<M, E>(
    fs: Fs<M>,
    changed: &mut Fs<M>,
    config: VirtioFsConfig,
    tag: &str,
    req_num_queues: usize,
    shared: Result<(), E>,
    value: u64,
    offset: u64,
    space: &[u8],
    data: &mut [u8],
    window: VirtioSharedMemoryList,
    epoll_thread: bool,
    paused: bool,
    vring_bases: Option<Vec<u64>>,
)
    ensures
        call_requires(VirtioFsConfig::for_tag, (tag, req_num_queues)),
        call_requires(VirtioFsConfig::as_slice, (&config,)),
        call_requires(crate::config::read_config_from_slice, (space, offset, data)),
        call_requires(Fs::<M>::read_config, (&fs, offset, data)),
        call_requires(Fs::<M>::features, (&fs,)),
        call_requires(Fs::<M>::ack_features, (changed, value)),
        call_requires(Fs::<M>::state::<E>, (&fs, shared)),
        call_requires(Fs::<M>::take_over, (changed, epoll_thread, paused, vring_bases)),
        call_requires(Fs::<M>::set_cache, (changed, window)),
        call_requires(Fs::<M>::set_shm_regions, (changed, window)),
        call_requires(Fs::<M>::get_shm_regions, (&fs,)),
        call_requires(Fs::<M>::userspace_mappings, (&fs,)),
        call_requires(Fs::<M>::device_type, (&fs,)),
        call_requires(Fs::<M>::queue_max_sizes, (&fs,)),
        call_requires(Fs::<M>::id, (&fs,)),
{
}

/// Any device can be activated, paused, resumed and saved, whatever happens on the way.
pub proof fn law_any_event_is_taken<M, S, E>(
    fs: Fs<M>,
    changed: &mut Fs<M>,
    activation: ActivationEvent<M, E>,
    pause: PauseEvent<E>,
    resume: ResumeEvent<E>,
    snapshot: SnapshotEvent<S, E>,
)
    ensures
        call_requires(Fs::<M>::activate::<E>, (changed, activation)),
        call_requires(Fs::<M>::pause::<E>, (&fs, pause)),
        call_requires(Fs::<M>::resume::<E>, (&fs, resume)),
        call_requires(Fs::<M>::snapshot::<S, E>, (&fs, snapshot)),
{
}

} // verus!
