//! Pausing, resuming and saving a device: what each event leads to.
use crate::device::{Fs, State};
use crate::lifecycle::{
    PauseAction, PauseEvent, ResumeAction, ResumeEvent, SnapshotAction, SnapshotEvent,
};
use vstd::prelude::*;

verus! {

/// Pausing pauses the daemon at the start and nowhere else, and the device only once the daemon is
/// paused. It ends with the daemon's error, or with what came of pausing the device.
pub proof fn law_daemon_is_paused_before_the_device<M, E>(
    fs: Fs<M>,
    event: PauseEvent<E>,
    action: PauseAction<E>,
)
    requires
        call_ensures(Fs::<M>::pause::<E>, (&fs, event), action),
    ensures
        action is PauseBackend <==> event is Start,
        action is PauseDevice <==> (event matches PauseEvent::BackendPaused(Ok(_))),
        event matches PauseEvent::BackendPaused(Err(e)) ==> (action matches PauseAction::Finish(
            Err(reported),
        ) && reported == e),
        event matches PauseEvent::DevicePaused(result) ==> (action matches PauseAction::Finish(
            reported,
        ) && reported == result),
{
}

/// Resuming resumes the device at the start and nowhere else. Once it is resumed its thread is woken
/// if it has one, and only then is the daemon resumed; without a thread that follows at once. It
/// ends with the device's error, or with what came of resuming the daemon.
pub proof fn law_device_is_resumed_before_the_daemon<M, E>(
    fs: Fs<M>,
    event: ResumeEvent<E>,
    action: ResumeAction<E>,
)
    requires
        call_ensures(Fs::<M>::resume::<E>, (&fs, event), action),
    ensures
        action is ResumeDevice <==> event is Start,
        action is UnparkThread <==> (event matches ResumeEvent::DeviceResumed(Ok(_))
            && fs.vu_common.epoll_thread),
        action is ResumeBackend <==> event is ThreadUnparked || (
        event matches ResumeEvent::DeviceResumed(Ok(_)) && !fs.vu_common.epoll_thread),
        event matches ResumeEvent::DeviceResumed(Err(e)) ==> (action matches ResumeAction::Finish(
            Err(reported),
        ) && reported == e),
        event matches ResumeEvent::BackendResumed(result) ==> (action matches ResumeAction::Finish(
            reported,
        ) && reported == result),
{
}

/// Taking a snapshot asks the shared parts at the start and nowhere else, and saves only once they
/// are ready. It ends with their error, or with what came of saving. What is saved holds the
/// features, the queues of the daemon, the configuration and the ring positions of the device.
pub proof fn law_device_is_saved_as_it_is<M, S, E>(
    fs: Fs<M>,
    event: SnapshotEvent<S, E>,
    action: SnapshotAction<S, E>,
)
    requires
        call_ensures(Fs::<M>::snapshot::<S, E>, (&fs, event), action),
    ensures
        action is PrepareSharedState <==> event is Start,
        action is Save <==> (event matches SnapshotEvent::SharedStateReady(Ok(_))),
        event matches SnapshotEvent::SharedStateReady(Err(e)) ==> (
        action matches SnapshotAction::Finish(Err(reported)) && reported == e),
        event matches SnapshotEvent::Saved(result) ==> (action matches SnapshotAction::Finish(
            reported,
        ) && reported == result),
        action matches SnapshotAction::Save { state } ==> {
            &&& state.avail_features == fs.vu_common.virtio_common.avail_features
            &&& state.acked_features == fs.vu_common.virtio_common.acked_features
            &&& state.acked_protocol_features == fs.vu_common.acked_protocol_features
            &&& state.vu_num_queues == fs.vu_common.vu_num_queues
            &&& state.config == fs.config
            &&& state.vring_bases is Some <==> fs.vu_common.vring_bases is Some
            &&& state.vring_bases is Some ==> state.vring_bases->0@
                == fs.vu_common.vring_bases->0@
        },
{
}

/// What a snapshot saves and what the state of the device tells are the same.
pub proof fn law_snapshot_saves_the_state<M, S, E>(
    fs: Fs<M>,
    told: State,
    saved: State,
)
    requires
        call_ensures(Fs::<M>::state::<E>, (&fs, Ok(())), Ok(told)),
        call_ensures(
            Fs::<M>::snapshot::<S, E>,
            (&fs, SnapshotEvent::SharedStateReady(Ok(()))),
            SnapshotAction::Save { state: saved },
        ),
    ensures
        saved.avail_features == told.avail_features,
        saved.acked_features == told.acked_features,
        saved.acked_protocol_features == told.acked_protocol_features,
        saved.vu_num_queues == told.vu_num_queues,
        saved.config == told.config,
        saved.vring_bases is Some <==> told.vring_bases is Some,
        saved.vring_bases is Some ==> saved.vring_bases->0@ == told.vring_bases->0@,
{
}

} // verus!
