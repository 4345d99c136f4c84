//! Activating a device: what each event leads to, and what each step is given.
use crate::activation::{ActivationAction, ActivationEvent, Thread};
use crate::device::Fs;
use crate::error::{ActivateError, FsError};
use vstd::prelude::*;

verus! {

/// An activation begins with the queues and does nothing else to the device.
pub proof fn law_queues_are_activated_first<M, E>(
    fs: &mut Fs<M>,
    event: ActivationEvent<M, E>,
    action: ActivationAction<'_, M, E>,
)
    requires
        call_ensures(Fs::<M>::activate::<E>, (fs, event), action),
    ensures
        action is ActivateQueues <==> event is Start,
        event is Start ==> *final(fs) == *old(fs),
{
}

/// A server for the daemon's requests is created exactly once the queues of a device with a window
/// are active. It works on that window, and confirms requests exactly if that was negotiated
/// (bit 3).
pub proof fn law_server_is_created_for_the_window<M, E>(
    fs: &mut Fs<M>,
    event: ActivationEvent<M, E>,
    action: ActivationAction<'_, M, E>,
)
    requires
        call_ensures(Fs::<M>::activate::<E>, (fs, event), action),
    ensures
        action is CreateHandler <==> (event matches ActivationEvent::QueuesActivated(Ok(_))
            && old(fs).cache is Some),
        action matches ActivationAction::CreateHandler { mapping, reply_ack } ==> {
            &&& mapping == old(fs).cache->0.mapping
            &&& reply_ack <==> old(fs).vu_common.acked_protocol_features & 0x8 != 0
        },
{
}

/// The daemon is activated exactly once the queues of a device without a window are active, or once
/// the server was created, and is given that server in the second case only. It is given the guest
/// memory that the device has, the features of both kinds that the device counts as acknowledged,
/// its number of queues and its ring positions.
pub proof fn law_daemon_is_activated_with_the_device<M, E>(
    fs: &mut Fs<M>,
    event: ActivationEvent<M, E>,
    action: ActivationAction<'_, M, E>,
)
    requires
        call_ensures(Fs::<M>::activate::<E>, (fs, event), action),
    ensures
        action is ActivateBackend <==> (event matches ActivationEvent::HandlerCreated(Ok(_))) || (
        event matches ActivationEvent::QueuesActivated(Ok(_)) && old(fs).cache is None),
        action matches ActivationAction::ActivateBackend {
            guest_memory,
            acked_features,
            acked_protocol_features,
            vu_num_queues,
            vring_bases,
            with_handler,
        } ==> {
            &&& *guest_memory == match event {
                ActivationEvent::QueuesActivated(Ok(mem)) => Some(mem),
                _ => old(fs).guest_memory,
            }
            &&& acked_features == old(fs).vu_common.virtio_common.acked_features
            &&& acked_protocol_features == old(fs).vu_common.acked_protocol_features
            &&& vu_num_queues == old(fs).vu_common.vu_num_queues
            &&& *vring_bases == old(fs).vu_common.vring_bases
            &&& with_handler <==> event is HandlerCreated
        },
{
}

/// The device's thread is started exactly once the daemon is active: under the device's name, as a
/// thread of a virtio-fs device, with the device's filter action and exit event.
pub proof fn law_thread_is_started_for_the_device<M, E>(
    fs: &mut Fs<M>,
    event: ActivationEvent<M, E>,
    action: ActivationAction<'_, M, E>,
)
    requires
        call_ensures(Fs::<M>::activate::<E>, (fs, event), action),
    ensures
        action is SpawnThread <==> (event matches ActivationEvent::BackendActivated(Ok(_))),
        action matches ActivationAction::SpawnThread { id, thread, seccomp_action, exit_evt } ==> {
            &&& id@ == old(fs).id@
            &&& thread == Thread::VirtioVhostFs
            &&& *seccomp_action == old(fs).seccomp_action
            &&& *exit_evt == old(fs).exit_evt
        },
{
}

/// The activation is reported exactly once the thread has started, under the device's name, and
/// succeeds exactly once it was reported.
pub proof fn law_active_device_is_reported<M, E>(
    fs: &mut Fs<M>,
    event: ActivationEvent<M, E>,
    action: ActivationAction<'_, M, E>,
)
    requires
        call_ensures(Fs::<M>::activate::<E>, (fs, event), action),
    ensures
        action is SendEvent <==> (event matches ActivationEvent::ThreadSpawned(Ok(_))),
        action matches ActivationAction::SendEvent { source, event: what, key, value } ==> {
            &&& source@ == "virtio-device"@
            &&& what@ == "activated"@
            &&& key@ == "id"@
            &&& value@ == old(fs).id@
        },
        (action matches ActivationAction::Finish(Ok(_))) <==> event is EventSent,
{
}

/// A step that fails ends the activation with its error, and an activation fails in no other way.
pub proof fn law_failed_step_ends_the_activation<M, E>(
    fs: &mut Fs<M>,
    event: ActivationEvent<M, E>,
    action: ActivationAction<'_, M, E>,
)
    requires
        call_ensures(Fs::<M>::activate::<E>, (fs, event), action),
    ensures
        (action matches ActivationAction::Finish(Err(_))) <==> {
            ||| event matches ActivationEvent::QueuesActivated(Err(_))
            ||| event matches ActivationEvent::HandlerCreated(Err(_))
            ||| event matches ActivationEvent::BackendActivated(Err(_))
            ||| event matches ActivationEvent::ThreadSpawned(Err(_))
        },
        action matches ActivationAction::Finish(Err(error)) ==> match event {
            ActivationEvent::QueuesActivated(Err(e)) => error == ActivateError::Common(e),
            ActivationEvent::HandlerCreated(Err(e)) => error == ActivateError::VhostUserFsSetup(
                FsError::<E>::FrontendReqHandlerCreation(e),
            ),
            ActivationEvent::BackendActivated(Err(e)) => error == ActivateError::Common(e),
            ActivationEvent::ThreadSpawned(Err(e)) => error == ActivateError::Common(e),
            _ => false,
        },
{
}

/// An activation makes the device remember the guest memory once its queues are active, and that it
/// has a thread once that has started. Nothing else about the device changes at any step.
pub proof fn law_activation_changes_memory_and_thread_only<M, E>(
    fs: &mut Fs<M>,
    event: ActivationEvent<M, E>,
    action: ActivationAction<'_, M, E>,
)
    requires
        call_ensures(Fs::<M>::activate::<E>, (fs, event), action),
    ensures
        ({
            let before = *old(fs);
            let after = *final(fs);
            &&& after.guest_memory == match event {
                ActivationEvent::QueuesActivated(Ok(mem)) => Some(mem),
                _ => before.guest_memory,
            }
            &&& after.vu_common.epoll_thread == match event {
                ActivationEvent::ThreadSpawned(Ok(_)) => true,
                _ => before.vu_common.epoll_thread,
            }
            &&& after.vu_common.virtio_common == before.vu_common.virtio_common
            &&& after.vu_common.acked_protocol_features == before.vu_common.acked_protocol_features
            &&& after.vu_common.socket_path == before.vu_common.socket_path
            &&& after.vu_common.vu_num_queues == before.vu_common.vu_num_queues
            &&& after.vu_common.vring_bases == before.vu_common.vring_bases
            &&& after.id == before.id
            &&& after.config == before.config
            &&& after.cache == before.cache
            &&& after.seccomp_action == before.seccomp_action
            &&& after.exit_evt == before.exit_evt
            &&& after.access_platform_enabled == before.access_platform_enabled
        }),
{
}

} // verus!
