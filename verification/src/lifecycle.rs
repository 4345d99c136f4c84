//! Pausing, resuming and saving a device: the order of the steps.
use crate::device::{Fs, State};
use vstd::prelude::*;

verus! {

/// What happened last while pausing.
#[derive(Debug)]
pub enum PauseEvent<E> {
    Start,
    BackendPaused(Result<(), E>),
    DevicePaused(Result<(), E>),
}

/// What to do next to pause.
#[derive(Debug)]
pub enum PauseAction<E> {
    PauseBackend,
    PauseDevice,
    Finish(Result<(), E>),
}

/// What happened last while resuming.
#[derive(Debug)]
pub enum ResumeEvent<E> {
    Start,
    DeviceResumed(Result<(), E>),
    ThreadUnparked,
    BackendResumed(Result<(), E>),
}

/// What to do next to resume.
#[derive(Debug)]
pub enum ResumeAction<E> {
    ResumeDevice,
    UnparkThread,
    ResumeBackend,
    Finish(Result<(), E>),
}

/// What happened last while taking a snapshot. `S` is a saved device.
#[derive(Debug)]
pub enum SnapshotEvent<S, E> {
    Start,
    /// The parts that the device shares with others can give their state or cannot.
    SharedStateReady(Result<(), E>),
    Saved(Result<S, E>),
}

/// What to do next to take a snapshot.
#[derive(Debug)]
pub enum SnapshotAction<S, E> {
    PrepareSharedState,
    Save { state: State },
    Finish(Result<S, E>),
}

/// First the shared parts are asked, then the state of the device is saved; an error ends it.
pub open spec fn is_snapshot_action_after<M, S, E>(
    fs: Fs<M>,
    event: SnapshotEvent<S, E>,
    action: SnapshotAction<S, E>,
) -> bool {
    match event {
        SnapshotEvent::Start => action == SnapshotAction::<S, E>::PrepareSharedState,
        SnapshotEvent::SharedStateReady(Ok(_)) => {
            &&& action matches SnapshotAction::Save { state }
            &&& crate::device::is_state_of(state, fs)
        },
        SnapshotEvent::SharedStateReady(Err(e)) => action == SnapshotAction::<S, E>::Finish(Err(e)),
        SnapshotEvent::Saved(result) => action == SnapshotAction::<S, E>::Finish(result),
    }
}

/// First the daemon is paused, then the device; an error ends it.
pub open spec fn pause_action_after<E>(event: PauseEvent<E>) -> PauseAction<E> {
    match event {
        PauseEvent::Start => PauseAction::PauseBackend,
        PauseEvent::BackendPaused(Ok(_)) => PauseAction::PauseDevice,
        PauseEvent::BackendPaused(Err(e)) => PauseAction::Finish(Err(e)),
        PauseEvent::DevicePaused(result) => PauseAction::Finish(result),
    }
}

/// First the device is resumed, then its thread is woken if there is one, and then the daemon is
/// resumed; an error ends it.
pub open spec fn resume_action_after<E>(epoll_thread: bool, event: ResumeEvent<E>) -> ResumeAction<
    E,
> {
    match event {
        ResumeEvent::Start => ResumeAction::ResumeDevice,
        ResumeEvent::DeviceResumed(Ok(_)) => if epoll_thread {
            ResumeAction::UnparkThread
        } else {
            ResumeAction::ResumeBackend
        },
        ResumeEvent::DeviceResumed(Err(e)) => ResumeAction::Finish(Err(e)),
        ResumeEvent::ThreadUnparked => ResumeAction::ResumeBackend,
        ResumeEvent::BackendResumed(result) => ResumeAction::Finish(result),
    }
}

impl<M> Fs<M> {
    /// Takes pausing one step further.
    pub fn pause<E>(&self, event: PauseEvent<E>) -> (action: PauseAction<E>)
        ensures
            action == pause_action_after(event),
    {
        match event {
            PauseEvent::Start => PauseAction::PauseBackend,
            PauseEvent::BackendPaused(Ok(())) => PauseAction::PauseDevice,
            PauseEvent::BackendPaused(Err(e)) => PauseAction::Finish(Err(e)),
            PauseEvent::DevicePaused(result) => PauseAction::Finish(result),
        }
    }

    /// Takes the snapshot one step further.
    pub fn snapshot<S, E>(&self, event: SnapshotEvent<S, E>) -> (action: SnapshotAction<S, E>)
        ensures
            is_snapshot_action_after(*self, event, action),
    {
        match event {
            SnapshotEvent::Start => SnapshotAction::PrepareSharedState,
            SnapshotEvent::SharedStateReady(shared) => match self.state(shared) {
                Ok(state) => SnapshotAction::Save { state },
                Err(e) => SnapshotAction::Finish(Err(e)),
            },
            SnapshotEvent::Saved(result) => SnapshotAction::Finish(result),
        }
    }

    /// Takes resuming one step further.
    pub fn resume<E>(&self, event: ResumeEvent<E>) -> (action: ResumeAction<E>)
        ensures
            action == resume_action_after(self.vu_common.epoll_thread, event),
    {
        match event {
            ResumeEvent::Start => ResumeAction::ResumeDevice,
            ResumeEvent::DeviceResumed(Ok(())) => {
                if self.vu_common.epoll_thread {
                    ResumeAction::UnparkThread
                } else {
                    ResumeAction::ResumeBackend
                }
            },
            ResumeEvent::DeviceResumed(Err(e)) => ResumeAction::Finish(Err(e)),
            ResumeEvent::ThreadUnparked => ResumeAction::ResumeBackend,
            ResumeEvent::BackendResumed(result) => ResumeAction::Finish(result),
        }
    }
}

/// The result of pausing, as a course of events that begins with `event` and takes at most
/// `steps` of them, given how pausing the daemon and pausing the device go.
pub open spec fn pause_course<E>(
    backend: Result<(), E>,
    device: Result<(), E>,
    event: PauseEvent<E>,
    steps: nat,
) -> Option<Result<(), E>>
    decreases steps,
{
    if steps == 0 {
        None
    } else {
        match pause_action_after(event) {
            PauseAction::PauseBackend => pause_course(
                backend,
                device,
                PauseEvent::BackendPaused(backend),
                (steps - 1) as nat,
            ),
            PauseAction::PauseDevice => pause_course(
                backend,
                device,
                PauseEvent::DevicePaused(device),
                (steps - 1) as nat,
            ),
            PauseAction::Finish(result) => Some(result),
        }
    }
}

/// The result of resuming, and whether the thread was woken on the way, as a course of events that
/// begins with `event` and takes at most `steps` of them, given how resuming the device and
/// resuming the daemon go.
pub open spec fn resume_course<E>(
    epoll_thread: bool,
    device: Result<(), E>,
    backend: Result<(), E>,
    event: ResumeEvent<E>,
    woken: bool,
    steps: nat,
) -> Option<(Result<(), E>, bool)>
    decreases steps,
{
    if steps == 0 {
        None
    } else {
        match resume_action_after(epoll_thread, event) {
            ResumeAction::ResumeDevice => resume_course(
                epoll_thread,
                device,
                backend,
                ResumeEvent::DeviceResumed(device),
                woken,
                (steps - 1) as nat,
            ),
            ResumeAction::UnparkThread => resume_course(
                epoll_thread,
                device,
                backend,
                ResumeEvent::ThreadUnparked,
                true,
                (steps - 1) as nat,
            ),
            ResumeAction::ResumeBackend => resume_course(
                epoll_thread,
                device,
                backend,
                ResumeEvent::BackendResumed(backend),
                woken,
                (steps - 1) as nat,
            ),
            ResumeAction::Finish(result) => Some((result, woken)),
        }
    }
}

/// Pausing succeeds exactly if the daemon and the device could both be paused; of two errors the
/// daemon's is reported.
pub proof fn law_pause_course<E>(backend: Result<(), E>, device: Result<(), E>)
    ensures
        pause_course(backend, device, PauseEvent::Start, 3) == Some(
            if backend is Err {
                backend
            } else {
                device
            },
        ),
{
    reveal_with_fuel(pause_course, 4);
}

/// Resuming succeeds exactly if the device and the daemon could both be resumed; of two errors
/// the device's is reported. The thread is woken exactly if there is one and the device was resumed.
pub proof fn law_resume_course<E>(
    epoll_thread: bool,
    device: Result<(), E>,
    backend: Result<(), E>,
)
    ensures
        resume_course(epoll_thread, device, backend, ResumeEvent::Start, false, 4) == Some(
            (
                if device is Err {
                    device
                } else {
                    backend
                },
                epoll_thread && device is Ok,
            ),
        ),
{
    reveal_with_fuel(resume_course, 5);
}

} // verus!
