//! Activating a device: the order of the steps, and what each of them is given.
use crate::device::{Fs, VhostUserCommon};
use crate::error::{ActivateError, FsError};
use crate::protocol_flags;
use crate::region::MmapRegion;
use vstd::prelude::*;

verus! {

/// What happened last. `E` is what the shared parts of the device report as an error.
#[derive(Debug)]
pub enum ActivationEvent<M, E> {
    /// The guest's driver is ready.
    Start,
    /// The queues were activated, on this guest memory, or were not.
    QueuesActivated(Result<M, E>),
    /// The server for the daemon's requests was created or was not.
    HandlerCreated(Result<(), vhost::vhost_user::Error>),
    /// The daemon was activated or was not.
    BackendActivated(Result<(), E>),
    /// The device's thread was started or was not.
    ThreadSpawned(Result<(), E>),
    /// The activation was reported.
    EventSent,
}

/// The kinds of threads, by which their system call filters are picked.
#[derive(Debug, Clone, Copy, PartialEq, Eq, Structural)]
pub enum Thread {
    /// The thread of a virtio-fs device.
    VirtioVhostFs,
}

/// What to do next, with what the device hands to that step.
#[derive(Debug)]
pub enum ActivationAction<'a, M, E> {
    /// Activate the queues.
    ActivateQueues,
    /// Create the server for the daemon's requests on the window `mapping`. With `reply_ack` it
    /// confirms each request, so that the daemon waits until a mapping is in place.
    CreateHandler { mapping: MmapRegion, reply_ack: bool },
    /// Activate the daemon on the guest memory, with the features and queues of the device, from
    /// the saved ring positions if there are any, and with the server if one was created.
    ActivateBackend {
        guest_memory: &'a Option<M>,
        acked_features: u64,
        acked_protocol_features: u64,
        vu_num_queues: usize,
        vring_bases: &'a Option<Vec<u64>>,
        with_handler: bool,
    },
    /// Start the device's thread under the name `id`, with the filter for threads of this kind and
    /// the action `seccomp_action`. Through `exit_evt` it can ask the VMM to exit.
    SpawnThread {
        id: &'a String,
        thread: Thread,
        seccomp_action: &'a seccompiler::SeccompAction,
        exit_evt: &'a vmm_sys_util::eventfd::EventFd,
    },
    /// Report to whoever monitors the machine that `event` happened at `source`, with the
    /// property `key` of the given value.
    SendEvent { source: &'a str, event: &'a str, key: &'a str, value: &'a String },
    /// The activation is over.
    Finish(Result<(), ActivateError<E>>),
}

/// The device after `event`: it remembers the guest memory once its queues are active, and that
/// its thread runs.
pub open spec fn device_after<M, E>(fs: Fs<M>, event: ActivationEvent<M, E>) -> Fs<M> {
    match event {
        ActivationEvent::QueuesActivated(Ok(mem)) => Fs { guest_memory: Some(mem), ..fs },
        ActivationEvent::ThreadSpawned(Ok(_)) => Fs {
            vu_common: VhostUserCommon { epoll_thread: true, ..fs.vu_common },
            ..fs
        },
        _ => fs,
    }
}

/// The step that hands the device to the daemon.
pub open spec fn backend_action<'a, M, E>(fs: &'a Fs<M>, with_handler: bool) -> ActivationAction<
    'a,
    M,
    E,
> {
    ActivationAction::ActivateBackend {
        guest_memory: &fs.guest_memory,
        acked_features: fs.vu_common.virtio_common.acked_features,
        acked_protocol_features: fs.vu_common.acked_protocol_features,
        vu_num_queues: fs.vu_common.vu_num_queues,
        vring_bases: &fs.vu_common.vring_bases,
        with_handler,
    }
}

/// What follows `event` on a device that has taken note of it.
pub open spec fn action_after<'a, M, E>(
    fs: &'a Fs<M>,
    event: ActivationEvent<M, E>,
) -> ActivationAction<'a, M, E> {
    match event {
        ActivationEvent::Start => ActivationAction::ActivateQueues,
        ActivationEvent::QueuesActivated(Ok(_)) => match fs.cache {
            Some(list) => ActivationAction::CreateHandler {
                mapping: list.mapping,
                reply_ack: crate::features::has_any(
                    fs.vu_common.acked_protocol_features,
                    protocol_flags::spec_reply_ack(),
                ),
            },
            None => backend_action(fs, false),
        },
        ActivationEvent::QueuesActivated(Err(e)) => ActivationAction::Finish(
            Err(ActivateError::Common(e)),
        ),
        ActivationEvent::HandlerCreated(Ok(_)) => backend_action(fs, true),
        ActivationEvent::HandlerCreated(Err(e)) => ActivationAction::Finish(
            Err(ActivateError::VhostUserFsSetup(FsError::FrontendReqHandlerCreation(e))),
        ),
        ActivationEvent::BackendActivated(Ok(_)) => ActivationAction::SpawnThread {
            id: &fs.id,
            thread: Thread::VirtioVhostFs,
            seccomp_action: &fs.seccomp_action,
            exit_evt: &fs.exit_evt,
        },
        ActivationEvent::BackendActivated(Err(e)) => ActivationAction::Finish(
            Err(ActivateError::Common(e)),
        ),
        ActivationEvent::ThreadSpawned(Ok(_)) => ActivationAction::SendEvent {
            source: "virtio-device",
            event: "activated",
            key: "id",
            value: &fs.id,
        },
        ActivationEvent::ThreadSpawned(Err(e)) => ActivationAction::Finish(
            Err(ActivateError::Common(e)),
        ),
        ActivationEvent::EventSent => ActivationAction::Finish(Ok(())),
    }
}

impl<M> Fs<M> {
    /// Takes the activation one step further.
    pub fn activate<'a, E>(&'a mut self, event: ActivationEvent<M, E>) -> (action: ActivationAction<
        'a,
        M,
        E,
    >)
        ensures
            *final(self) == device_after(*old(self), event),
            action == action_after(&device_after(*old(self), event), event),
            old(self).wf() ==> final(self).wf(),
    {
        match event {
            ActivationEvent::Start => ActivationAction::ActivateQueues,
            ActivationEvent::QueuesActivated(Ok(mem)) => {
                self.guest_memory = Some(mem);
                match self.cache {
                    Some(list) => ActivationAction::CreateHandler {
                        mapping: list.mapping,
                        reply_ack: self.vu_common.acked_protocol_features
                            & protocol_flags::reply_ack() != 0,
                    },
                    None => self.activate_backend(false),
                }
            },
            ActivationEvent::HandlerCreated(Ok(())) => self.activate_backend(true),
            ActivationEvent::HandlerCreated(Err(e)) => ActivationAction::Finish(
                Err(ActivateError::VhostUserFsSetup(FsError::FrontendReqHandlerCreation(e))),
            ),
            ActivationEvent::BackendActivated(Ok(())) => ActivationAction::SpawnThread {
                id: &self.id,
                thread: Thread::VirtioVhostFs,
                seccomp_action: &self.seccomp_action,
                exit_evt: &self.exit_evt,
            },
            ActivationEvent::ThreadSpawned(Ok(())) => {
                self.vu_common.epoll_thread = true;
                ActivationAction::SendEvent {
                    source: "virtio-device",
                    event: "activated",
                    key: "id",
                    value: &self.id,
                }
            },
            ActivationEvent::EventSent => ActivationAction::Finish(Ok(())),
            ActivationEvent::QueuesActivated(Err(e))
            | ActivationEvent::BackendActivated(Err(e))
            | ActivationEvent::ThreadSpawned(Err(e)) => ActivationAction::Finish(
                Err(ActivateError::Common(e)),
            ),
        }
    }

    /// The step that hands the device to the daemon.
    fn activate_backend<'a, E>(&'a self, with_handler: bool) -> (action: ActivationAction<'a, M, E>)
        ensures
            action == backend_action::<M, E>(self, with_handler),
    {
        ActivationAction::ActivateBackend {
            guest_memory: &self.guest_memory,
            acked_features: self.vu_common.virtio_common.acked_features,
            acked_protocol_features: self.vu_common.acked_protocol_features,
            vu_num_queues: self.vu_common.vu_num_queues,
            vring_bases: &self.vu_common.vring_bases,
            with_handler,
        }
    }
}

/// How the steps of an activation go, if they are taken.
pub struct ActivationOutcomes<M, E> {
    pub queues: Result<M, E>,
    pub handler: Result<(), vhost::vhost_user::Error>,
    pub backend: Result<(), E>,
    pub thread: Result<(), E>,
}

/// What `action` leads to.
pub open spec fn event_of<M, E>(
    outcomes: ActivationOutcomes<M, E>,
    action: ActivationAction<'_, M, E>,
) -> ActivationEvent<M, E> {
    match action {
        ActivationAction::ActivateQueues => ActivationEvent::QueuesActivated(outcomes.queues),
        ActivationAction::CreateHandler { .. } => ActivationEvent::HandlerCreated(outcomes.handler),
        ActivationAction::ActivateBackend { .. } => ActivationEvent::BackendActivated(
            outcomes.backend,
        ),
        ActivationAction::SpawnThread { .. } => ActivationEvent::ThreadSpawned(outcomes.thread),
        _ => ActivationEvent::EventSent,
    }
}

/// The device and the result after the course of events that begins with `event`, and how many
/// threads were started and how many reports were sent on the way. An activation takes at most
/// `steps` events.
pub open spec fn activation_course<M, E>(
    fs: Fs<M>,
    outcomes: ActivationOutcomes<M, E>,
    event: ActivationEvent<M, E>,
    threads: nat,
    reports: nat,
    steps: nat,
) -> Option<(Fs<M>, Result<(), ActivateError<E>>, nat, nat)>
    decreases steps,
{
    let after = device_after(fs, event);
    let threads = if event matches ActivationEvent::ThreadSpawned(Ok(_)) {
        threads + 1
    } else {
        threads
    };
    let reports = if event is EventSent {
        reports + 1
    } else {
        reports
    };
    if steps == 0 {
        None
    } else {
        match action_after(&after, event) {
            ActivationAction::Finish(result) => Some((after, result, threads, reports)),
            action => activation_course(
                after,
                outcomes,
                event_of(outcomes, action),
                threads,
                reports,
                (steps - 1) as nat,
            ),
        }
    }
}

/// The first step that fails ends the activation with its error; a server for the daemon's
/// requests is created exactly for a device with a DAX window. If no step fails, the activation
/// succeeds, one thread was started, and it was reported once that the device is active; an
/// activation that fails is not reported. Guest memory is remembered as soon as the queues are active,
/// also if a later step fails. Nothing else about the device changes.
pub proof fn law_activation_course<M, E>(fs: Fs<M>, outcomes: ActivationOutcomes<M, E>)
    ensures
        ({
            let course = activation_course(fs, outcomes, ActivationEvent::Start, 0, 0, 6);
            &&& course is Some
            &&& ({
                let (after, result, threads, reports) = course->0;
                &&& threads == if result is Ok { 1nat } else { 0nat }
                &&& reports == if result is Ok { 1nat } else { 0nat }
                &&& if outcomes.queues is Err {
                    &&& result == Err::<(), ActivateError<E>>(
                        ActivateError::Common(outcomes.queues->Err_0),
                    )
                    &&& after == fs
                } else {
                    let active = Fs { guest_memory: Some(outcomes.queues->Ok_0), ..fs };
                    if fs.cache is Some && outcomes.handler is Err {
                        &&& result == Err::<(), ActivateError<E>>(
                            ActivateError::VhostUserFsSetup(
                                FsError::FrontendReqHandlerCreation(outcomes.handler->Err_0),
                            ),
                        )
                        &&& after == active
                    } else if outcomes.backend is Err {
                        &&& result == Err::<(), ActivateError<E>>(
                            ActivateError::Common(outcomes.backend->Err_0),
                        )
                        &&& after == active
                    } else if outcomes.thread is Err {
                        &&& result == Err::<(), ActivateError<E>>(
                            ActivateError::Common(outcomes.thread->Err_0),
                        )
                        &&& after == active
                    } else {
                        &&& result == Ok::<(), ActivateError<E>>(())
                        &&& after == (Fs {
                            vu_common: VhostUserCommon { epoll_thread: true, ..fs.vu_common },
                            ..active
                        })
                    }
                }
            })
        }),
{
    reveal_with_fuel(activation_course, 7);
}

/// The report that the device is active, which names the device, follows exactly on the start of
/// the thread, and after it nothing but success follows; there is no other way to success.
pub proof fn law_report_comes_last<M, E>(fs: Fs<M>, event: ActivationEvent<M, E>)
    ensures
        ({
            let action = action_after(&device_after(fs, event), event);
            &&& action is SendEvent <==> (event matches ActivationEvent::ThreadSpawned(Ok(_)))
            &&& action matches ActivationAction::SendEvent { source, event, key, value } ==> {
                &&& source@ == "virtio-device"@
                &&& event@ == "activated"@
                &&& key@ == "id"@
                &&& value == fs.id
            }
            &&& action == ActivationAction::<M, E>::Finish(Ok(())) <==> event is EventSent
        }),
{
}

/// The daemon is given a server for its requests exactly if a DAX window is installed when the
/// queues become active. The server works on that window, and confirms requests exactly if that
/// was negotiated.
pub proof fn law_server_for_the_installed_window<M, E>(fs: Fs<M>, mem: M)
    ensures
        ({
            let event = ActivationEvent::<M, E>::QueuesActivated(Ok(mem));
            let active = device_after(fs, event);
            let action = action_after(&active, event);
            &&& action is CreateHandler <==> fs.cache is Some
            &&& fs.cache is None ==> action is ActivateBackend && !action->with_handler
            &&& fs.cache matches Some(list) ==> {
                &&& action->mapping == list.mapping
                &&& action->reply_ack <==> crate::features::has_any(
                    fs.vu_common.acked_protocol_features,
                    protocol_flags::spec_reply_ack(),
                )
            }
        }),
{
}

/// The daemon is activated on the guest memory on which the queues became active, with or without
/// a window.
pub proof fn law_backend_gets_the_guest_memory<M, E>(fs: Fs<M>, mem: M)
    ensures
        ({
            let queues = ActivationEvent::<M, E>::QueuesActivated(Ok(mem));
            let active = device_after(fs, queues);
            let handler = ActivationEvent::<M, E>::HandlerCreated(Ok(()));
            let action = if fs.cache is Some {
                action_after(&device_after(active, handler), handler)
            } else {
                action_after(&active, queues)
            };
            &&& action is ActivateBackend
            &&& *action->guest_memory == Some(mem)
            &&& action->acked_features == fs.vu_common.virtio_common.acked_features
            &&& action->with_handler <==> fs.cache is Some
        }),
{
}

} // verus!
