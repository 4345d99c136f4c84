//! Setting up a device: what to ask of the daemon, in which order, and what to make of the
//! answers.
//!
//! A `Setup` says what it needs to know next; the caller asks the daemon and hands in the answer,
//! until the device is there or the setup has failed. `Fs::new` runs the whole course on answers
//! that are given beforehand.
use crate::config::VirtioFsConfig;
use crate::device::{Fs, State, VhostUserCommon, VirtioCommon, VIRTIO_ID_FS};
use crate::error::FsError;
use crate::features::{avail_protocol_features, DEFAULT_VIRTIO_FEATURES};
use crate::protocol_flags;
use vstd::prelude::*;

verus! {

/// The queues that come before the request queues.
pub const NUM_QUEUE_OFFSET: usize = 1;

/// The number of queues of a daemon that does not support multiple queues.
pub const DEFAULT_QUEUE_NUMBER: usize = 2;

/// What a device is to be.
#[derive(Debug)]
pub struct FsParams {
    pub id: String,
    pub path: String,
    pub tag: String,
    pub req_num_queues: usize,
    pub queue_size: u16,
    pub dax_enabled: bool,
    pub seccomp_action: seccompiler::SeccompAction,
    pub exit_evt: vmm_sys_util::eventfd::EventFd,
    pub access_platform_enabled: bool,
}

/// What a device is to be, with its texts as sequences of characters.
pub struct FsParamsView {
    pub id: Seq<char>,
    pub path: Seq<char>,
    pub tag: Seq<char>,
    pub req_num_queues: usize,
    pub queue_size: u16,
    pub dax_enabled: bool,
    pub seccomp_action: seccompiler::SeccompAction,
    pub exit_evt: vmm_sys_util::eventfd::EventFd,
    pub access_platform_enabled: bool,
}

impl View for FsParams {
    type V = FsParamsView;

    open spec fn view(&self) -> FsParamsView {
        FsParamsView {
            id: self.id@,
            path: self.path@,
            tag: self.tag@,
            req_num_queues: self.req_num_queues,
            queue_size: self.queue_size,
            dax_enabled: self.dax_enabled,
            seccomp_action: self.seccomp_action,
            exit_evt: self.exit_evt,
            access_platform_enabled: self.access_platform_enabled,
        }
    }
}

/// The layout of the daemon's shared memory: how many regions there are, and the size of each.
#[derive(Debug, Clone, Copy)]
pub struct ShmemConfig {
    pub nregions: u32,
    pub memory_sizes: [u64; 256],
}

/// `fs` is a device as `params` describe it, with the given features, number of queues of the
/// daemon, pause flag and ring positions, before any window is installed and before activation.
/// Nothing is said of its configuration.
pub open spec fn is_built<M>(
    fs: Fs<M>,
    params: FsParamsView,
    avail_features: u64,
    acked_features: u64,
    acked_protocol_features: u64,
    vu_num_queues: int,
    paused: bool,
    vring_bases: Option<Vec<u64>>,
) -> bool {
    let common = fs.vu_common.virtio_common;
    &&& common.device_type == VIRTIO_ID_FS
    &&& common.avail_features == avail_features
    &&& common.acked_features == acked_features
    &&& common.queue_sizes@ == Seq::new(
        (NUM_QUEUE_OFFSET + params.req_num_queues) as nat,
        |i: int| params.queue_size,
    )
    &&& common.min_queues == 1
    &&& common.paused == paused
    &&& fs.vu_common.acked_protocol_features == acked_protocol_features
    &&& fs.vu_common.socket_path@ == params.path
    &&& fs.vu_common.vu_num_queues == vu_num_queues
    &&& fs.vu_common.vring_bases == vring_bases
    &&& !fs.vu_common.epoll_thread
    &&& fs.id@ == params.id
    &&& fs.cache is None
    &&& fs.seccomp_action == params.seccomp_action
    &&& fs.guest_memory is None
    &&& fs.exit_evt == params.exit_evt
    &&& fs.access_platform_enabled == params.access_platform_enabled
}

/// `fs` is the device that `params` and the snapshot `state` describe: paused, and with the
/// features, queues, configuration and ring positions of the snapshot.
pub open spec fn is_restored<M>(fs: Fs<M>, params: FsParamsView, state: State) -> bool {
    &&& is_built(
        fs,
        params,
        state.avail_features,
        state.acked_features,
        state.acked_protocol_features,
        state.vu_num_queues as int,
        true,
        state.vring_bases,
    )
    &&& fs.config == state.config
}

/// `fs` is the device that `params` describe, with what was negotiated with the daemon. Of the
/// virtio features only the protocol features bit counts as acknowledged: the guest will never
/// acknowledge it.
pub open spec fn is_fresh<M>(
    fs: Fs<M>,
    params: FsParamsView,
    acked_features: u64,
    acked_protocol_features: u64,
) -> bool {
    &&& is_built(
        fs,
        params,
        acked_features,
        acked_features & protocol_flags::spec_protocol_features(),
        acked_protocol_features,
        NUM_QUEUE_OFFSET + params.req_num_queues,
        false,
        None,
    )
    &&& fs.config.tag@ == crate::config::tag_field(vstd::utf8::encode_utf8(params.tag))
    &&& fs.config.num_request_queues == params.req_num_queues as u32
}

/// What the setup wants to be done next.
#[derive(Debug)]
pub enum SetupRequest<'a> {
    /// Connect to the socket at `path`, for `num_queues` queues.
    Connect { server: bool, path: &'a str, num_queues: u64, unlink_socket: bool },
    /// Set the features that were negotiated before the snapshot.
    SetProtocolFeatures { acked_features: u64, acked_protocol_features: u64 },
    /// Hand the snapshot to the daemon.
    RestoreState { state: &'a State },
    /// Negotiate virtio and protocol features, offering these.
    NegotiateFeatures { avail_features: u64, avail_protocol_features: u64 },
    /// Ask for the layout of the shared memory.
    GetShmemConfig,
    /// Ask for the largest number of queues.
    GetQueueNum,
}

/// How a request went. `E` is what the parts that the device shares with others report.
#[derive(Debug)]
pub enum SetupReply<E> {
    Connected(Result<(), FsError<E>>),
    ProtocolFeaturesSet(Result<(), FsError<E>>),
    StateRestored(Result<(), FsError<E>>),
    /// The acknowledged virtio features and the acknowledged protocol features.
    FeaturesNegotiated(Result<(u64, u64), FsError<E>>),
    ShmemConfig(Result<ShmemConfig, vhost::Error>),
    QueueNum(Result<u64, vhost::Error>),
}

/// Where a setup stands: what it waits for, and what it has learned.
#[derive(Debug, Clone, Copy, PartialEq, Eq, Structural)]
pub enum SetupStage {
    Connecting,
    SettingProtocolFeatures,
    RestoringState,
    Negotiating,
    QueryingShmem { acked_features: u64, acked_protocol_features: u64 },
    QueryingQueues {
        acked_features: u64,
        acked_protocol_features: u64,
        dax_cache_size: Option<u64>,
    },
}

/// A device under construction.
#[derive(Debug)]
pub struct Setup {
    params: FsParams,
    state: Option<State>,
    stage: SetupStage,
}

/// A setup after an answer: it goes on, or it is over. At the end stands the device, with the size
/// of the DAX window that the daemon wants, or the reason for the failure.
#[derive(Debug)]
pub enum SetupStep<M, E> {
    Continue(Setup),
    Done(Result<(Fs<M>, Option<u64>), FsError<E>>),
}

/// The setup goes on with the same device in mind and now stands at `stage`.
pub open spec fn continues_at<M, E>(step: SetupStep<M, E>, setup: Setup, stage: SetupStage) -> bool {
    &&& step matches SetupStep::Continue(next)
    &&& next.spec_params() == setup.spec_params()
    &&& next.spec_state() == setup.spec_state()
    &&& next.spec_stage() == stage
}

/// The setup is over and has failed with `error`.
pub open spec fn fails_with<M, E>(step: SetupStep<M, E>, error: FsError<E>) -> bool {
    step == SetupStep::<M, E>::Done(Err(error))
}

/// The last decision: the device is there unless it was to have more queues than the daemon
/// supports.
pub open spec fn finishes_within<M, E>(
    step: SetupStep<M, E>,
    params: FsParamsView,
    acked_features: u64,
    acked_protocol_features: u64,
    dax_cache_size: Option<u64>,
    backend_num_queues: int,
) -> bool {
    if NUM_QUEUE_OFFSET + params.req_num_queues > backend_num_queues {
        fails_with(step, FsError::BadQueueNum)
    } else {
        &&& step matches SetupStep::Done(Ok((fs, size)))
        &&& is_fresh(fs, params, acked_features, acked_protocol_features)
        &&& size == dax_cache_size
    }
}

/// What follows once it is known how large the DAX window is: a daemon that supports multiple
/// queues is asked how many, any other has the default number.
pub open spec fn proceeds_to_queues<M, E>(
    step: SetupStep<M, E>,
    setup: Setup,
    acked_features: u64,
    acked_protocol_features: u64,
    dax_cache_size: Option<u64>,
) -> bool {
    if crate::features::has_any(acked_protocol_features, protocol_flags::spec_mq()) {
        continues_at(
            step,
            setup,
            SetupStage::QueryingQueues { acked_features, acked_protocol_features, dax_cache_size },
        )
    } else {
        finishes_within(
            step,
            setup.spec_params()@,
            acked_features,
            acked_protocol_features,
            dax_cache_size,
            DEFAULT_QUEUE_NUMBER as int,
        )
    }
}

/// What follows once features are negotiated: without the feature that DAX rests on, a setup that
/// wants DAX fails; with it, the daemon is asked for the size of the window.
pub open spec fn proceeds_from_negotiation<M, E>(
    step: SetupStep<M, E>,
    setup: Setup,
    acked_features: u64,
    acked_protocol_features: u64,
) -> bool {
    if crate::features::has_any(acked_protocol_features, protocol_flags::spec_shmem()) {
        continues_at(
            step,
            setup,
            SetupStage::QueryingShmem { acked_features, acked_protocol_features },
        )
    } else if setup.spec_params().dax_enabled {
        fails_with(step, FsError::DaxNotSupported)
    } else {
        proceeds_to_queues(step, setup, acked_features, acked_protocol_features, None)
    }
}

/// What `reply` makes of `setup`.
pub open spec fn is_step<M, E>(setup: Setup, reply: SetupReply<E>, step: SetupStep<M, E>) -> bool {
    match (setup.spec_stage(), reply) {
        (SetupStage::Connecting, SetupReply::Connected(Ok(_))) => continues_at(
            step,
            setup,
            if setup.spec_state() is Some {
                SetupStage::SettingProtocolFeatures
            } else {
                SetupStage::Negotiating
            },
        ),
        (SetupStage::Connecting, SetupReply::Connected(Err(e))) => fails_with(step, e),
        (
            SetupStage::SettingProtocolFeatures,
            SetupReply::ProtocolFeaturesSet(Ok(_)),
        ) => continues_at(step, setup, SetupStage::RestoringState),
        (
            SetupStage::SettingProtocolFeatures,
            SetupReply::ProtocolFeaturesSet(Err(e)),
        ) => fails_with(step, e),
        (SetupStage::RestoringState, SetupReply::StateRestored(Ok(_))) => {
            &&& step matches SetupStep::Done(Ok((fs, size)))
            &&& is_restored(fs, setup.spec_params()@, setup.spec_state()->0)
            &&& size is None
        },
        (SetupStage::RestoringState, SetupReply::StateRestored(Err(e))) => fails_with(step, e),
        (
            SetupStage::Negotiating,
            SetupReply::FeaturesNegotiated(Ok((acked_features, acked_protocol_features))),
        ) => proceeds_from_negotiation(step, setup, acked_features, acked_protocol_features),
        (SetupStage::Negotiating, SetupReply::FeaturesNegotiated(Err(e))) => fails_with(step, e),
        (
            SetupStage::QueryingShmem { acked_features, acked_protocol_features },
            SetupReply::ShmemConfig(Ok(config)),
        ) => if config.nregions != 1 {
            fails_with(step, FsError::FsUnexpectedShmemRegions(config.nregions))
        } else {
            proceeds_to_queues(
                step,
                setup,
                acked_features,
                acked_protocol_features,
                Some(config.memory_sizes@[0]),
            )
        },
        (SetupStage::QueryingShmem { .. }, SetupReply::ShmemConfig(Err(e))) => fails_with(
            step,
            FsError::VhostUserGetShmemConfig(e),
        ),
        (
            SetupStage::QueryingQueues { acked_features, acked_protocol_features, dax_cache_size },
            SetupReply::QueueNum(Ok(n)),
        ) => finishes_within(
            step,
            setup.spec_params()@,
            acked_features,
            acked_protocol_features,
            dax_cache_size,
            n as usize as int,
        ),
        (SetupStage::QueryingQueues { .. }, SetupReply::QueueNum(Err(e))) => fails_with(
            step,
            FsError::VhostUserGetQueueMaxNum(e),
        ),
        _ => false,
    }
}

/// `reply` answers what the setup asks for at `stage`.
pub open spec fn answers<E>(reply: SetupReply<E>, stage: SetupStage) -> bool {
    match stage {
        SetupStage::Connecting => reply is Connected,
        SetupStage::SettingProtocolFeatures => reply is ProtocolFeaturesSet,
        SetupStage::RestoringState => reply is StateRestored,
        SetupStage::Negotiating => reply is FeaturesNegotiated,
        SetupStage::QueryingShmem { .. } => reply is ShmemConfig,
        SetupStage::QueryingQueues { .. } => reply is QueueNum,
    }
}

/// An upper bound on the number of answers that a setup at `stage` still needs.
pub open spec fn answers_left(stage: SetupStage) -> nat {
    match stage {
        SetupStage::Connecting => 4,
        SetupStage::Negotiating => 3,
        SetupStage::SettingProtocolFeatures | SetupStage::QueryingShmem { .. } => 2,
        SetupStage::RestoringState | SetupStage::QueryingQueues { .. } => 1,
    }
}

impl Setup {
    #[verifier::type_invariant]
    spec fn is_consistent(self) -> bool {
        self.wf()
    }

    /// What the device is to be.
    pub closed spec fn spec_params(self) -> FsParams {
        self.params
    }

    /// The snapshot that the device is restored from, if there is one.
    pub closed spec fn spec_state(self) -> Option<State> {
        self.state
    }

    /// Where the setup stands.
    pub closed spec fn spec_stage(self) -> SetupStage {
        self.stage
    }

    /// The number of queues fits a machine word, and a snapshot is there exactly where one is
    /// being restored.
    pub open spec fn wf(self) -> bool {
        &&& self.spec_params().req_num_queues < usize::MAX
        &&& match self.spec_stage() {
            SetupStage::Connecting => true,
            SetupStage::SettingProtocolFeatures | SetupStage::RestoringState =>
                self.spec_state() is Some,
            _ => self.spec_state() is None,
        }
    }

    /// Begins to set up a device, from the snapshot `state` if there is one.
    pub fn new(params: FsParams, state: Option<State>) -> (setup: Setup)
        requires
            params.req_num_queues < usize::MAX,
        ensures
            setup.spec_params() == params,
            setup.spec_state() == state,
            setup.spec_stage() == SetupStage::Connecting,
            setup.wf(),
    {
        Setup { params, state, stage: SetupStage::Connecting }
    }

    /// Where the setup stands.
    pub fn stage(&self) -> (stage: SetupStage)
        ensures
            stage == self.spec_stage(),
            self.wf(),
    {
        proof {
            use_type_invariant(self);
        }
        self.stage
    }

    /// What to ask of the daemon next.
    pub fn request(&self) -> (request: SetupRequest<'_>)
        ensures
            match self.spec_stage() {
                SetupStage::Connecting => {
                    &&& request matches SetupRequest::Connect {
                        server,
                        path,
                        num_queues,
                        unlink_socket,
                    }
                    &&& !server
                    &&& path@ == self.spec_params().path@
                    &&& num_queues == NUM_QUEUE_OFFSET + self.spec_params().req_num_queues
                    &&& !unlink_socket
                },
                SetupStage::SettingProtocolFeatures => request
                    == (SetupRequest::SetProtocolFeatures {
                    acked_features: self.spec_state()->0.acked_features,
                    acked_protocol_features: self.spec_state()->0.acked_protocol_features,
                }),
                SetupStage::RestoringState => request == (SetupRequest::RestoreState {
                    state: &self.spec_state()->0,
                }),
                SetupStage::Negotiating => request == (SetupRequest::NegotiateFeatures {
                    avail_features: DEFAULT_VIRTIO_FEATURES,
                    avail_protocol_features: crate::features::spec_avail_protocol_features(
                        self.spec_params().dax_enabled,
                    ),
                }),
                SetupStage::QueryingShmem { .. } => request == SetupRequest::GetShmemConfig,
                SetupStage::QueryingQueues { .. } => request == SetupRequest::GetQueueNum,
            },
    {
        proof {
            use_type_invariant(self);
        }
        match (&self.stage, &self.state) {
            (SetupStage::SettingProtocolFeatures, Some(state)) => SetupRequest::SetProtocolFeatures {
                acked_features: state.acked_features,
                acked_protocol_features: state.acked_protocol_features,
            },
            (SetupStage::RestoringState, Some(state)) => SetupRequest::RestoreState { state },
            (SetupStage::Negotiating, _) => SetupRequest::NegotiateFeatures {
                avail_features: DEFAULT_VIRTIO_FEATURES,
                avail_protocol_features: avail_protocol_features(self.params.dax_enabled),
            },
            (SetupStage::QueryingShmem { .. }, _) => SetupRequest::GetShmemConfig,
            (SetupStage::QueryingQueues { .. }, _) => SetupRequest::GetQueueNum,
            _ => SetupRequest::Connect {
                server: false,
                path: self.params.path.as_str(),
                num_queues: (NUM_QUEUE_OFFSET + self.params.req_num_queues) as u64,
                unlink_socket: false,
            },
        }
    }

    /// Takes the answer to the last request.
    pub fn reply<M, E>(self, reply: SetupReply<E>) -> (step: SetupStep<M, E>)
        requires
            answers(reply, self.spec_stage()),
        ensures
            is_step(self, reply, step),
            step matches SetupStep::Continue(next) ==> next.wf() && answers_left(next.spec_stage())
                < answers_left(self.spec_stage()),
            step matches SetupStep::Done(Ok((fs, _))) ==> fs.wf(),
    {
        proof {
            use_type_invariant(&self);
        }
        match (self.stage, reply) {
            (SetupStage::Connecting, SetupReply::Connected(result)) => match result {
                Ok(()) => {
                    let stage = if self.state.is_some() {
                        SetupStage::SettingProtocolFeatures
                    } else {
                        SetupStage::Negotiating
                    };
                    SetupStep::Continue(self.at(stage))
                },
                Err(e) => SetupStep::Done(Err(e)),
            },
            (SetupStage::SettingProtocolFeatures, SetupReply::ProtocolFeaturesSet(result)) =>
                match result {
                Ok(()) => SetupStep::Continue(self.at(SetupStage::RestoringState)),
                Err(e) => SetupStep::Done(Err(e)),
            },
            (SetupStage::RestoringState, SetupReply::StateRestored(result)) => match result {
                Ok(()) => self.restored(),
                Err(e) => SetupStep::Done(Err(e)),
            },
            (SetupStage::Negotiating, SetupReply::FeaturesNegotiated(result)) => match result {
                Ok((acked_features, acked_protocol_features)) => self.negotiated(
                    acked_features,
                    acked_protocol_features,
                ),
                Err(e) => SetupStep::Done(Err(e)),
            },
            (
                SetupStage::QueryingShmem { acked_features, acked_protocol_features },
                SetupReply::ShmemConfig(result),
            ) => match result {
                Ok(config) => {
                    if config.nregions != 1 {
                        SetupStep::Done(Err(FsError::FsUnexpectedShmemRegions(config.nregions)))
                    } else {
                        self.window_known(
                            acked_features,
                            acked_protocol_features,
                            Some(config.memory_sizes[0]),
                        )
                    }
                },
                Err(e) => SetupStep::Done(Err(FsError::VhostUserGetShmemConfig(e))),
            },
            (
                SetupStage::QueryingQueues { acked_features, acked_protocol_features, dax_cache_size },
                SetupReply::QueueNum(result),
            ) => match result {
                Ok(n) => self.finish(
                    acked_features,
                    acked_protocol_features,
                    dax_cache_size,
                    #[verifier::truncate]
                    (n as usize),
                ),
                Err(e) => SetupStep::Done(Err(FsError::VhostUserGetQueueMaxNum(e))),
            },
            _ => vstd::pervasive::unreached(),
        }
    }

    /// The same setup at another stage.
    fn at(self, stage: SetupStage) -> (setup: Setup)
        requires
            (Setup { params: self.params, state: self.state, stage }).wf(),
        ensures
            setup == (Setup { params: self.params, state: self.state, stage }),
            setup.wf(),
    {
        Setup { params: self.params, state: self.state, stage }
    }

    /// Goes on after features were negotiated.
    fn negotiated<M, E>(self, acked_features: u64, acked_protocol_features: u64) -> (step: SetupStep<
        M,
        E,
    >)
        requires
            self.params.req_num_queues < usize::MAX,
            self.state is None,
        ensures
            proceeds_from_negotiation(step, self, acked_features, acked_protocol_features),
            step matches SetupStep::Done(Ok((fs, _))) ==> fs.wf(),
    {
        let shmem: u64 = acked_protocol_features & protocol_flags::shmem();
        if self.params.dax_enabled && shmem == 0 {
            return SetupStep::Done(Err(FsError::DaxNotSupported));
        }
        if shmem != 0 {
            SetupStep::Continue(
                self.at(SetupStage::QueryingShmem { acked_features, acked_protocol_features }),
            )
        } else {
            self.window_known(acked_features, acked_protocol_features, None)
        }
    }

    /// Goes on once the size of the DAX window is known.
    fn window_known<M, E>(
        self,
        acked_features: u64,
        acked_protocol_features: u64,
        dax_cache_size: Option<u64>,
    ) -> (step: SetupStep<M, E>)
        requires
            self.params.req_num_queues < usize::MAX,
            self.state is None,
        ensures
            proceeds_to_queues(step, self, acked_features, acked_protocol_features, dax_cache_size),
            step matches SetupStep::Done(Ok((fs, _))) ==> fs.wf(),
    {
        if acked_protocol_features & protocol_flags::mq() != 0 {
            SetupStep::Continue(
                self.at(
                    SetupStage::QueryingQueues {
                        acked_features,
                        acked_protocol_features,
                        dax_cache_size,
                    },
                ),
            )
        } else {
            self.finish(
                acked_features,
                acked_protocol_features,
                dax_cache_size,
                DEFAULT_QUEUE_NUMBER,
            )
        }
    }

    /// Builds the device from what was negotiated, unless it has too many queues.
    fn finish<M, E>(
        self,
        acked_features: u64,
        acked_protocol_features: u64,
        dax_cache_size: Option<u64>,
        backend_num_queues: usize,
    ) -> (step: SetupStep<M, E>)
        requires
            self.params.req_num_queues < usize::MAX,
        ensures
            finishes_within(
                step,
                self.params@,
                acked_features,
                acked_protocol_features,
                dax_cache_size,
                backend_num_queues as int,
            ),
            step matches SetupStep::Done(Ok((fs, _))) ==> fs.wf(),
    {
        let num_queues: usize = NUM_QUEUE_OFFSET + self.params.req_num_queues;
        if num_queues > backend_num_queues {
            return SetupStep::Done(Err(FsError::BadQueueNum));
        }
        let config = VirtioFsConfig::for_tag(self.params.tag.as_str(), self.params.req_num_queues);
        let fs = build(
            self.params,
            acked_features,
            acked_features & protocol_flags::protocol_features(),
            acked_protocol_features,
            num_queues,
            config,
            false,
            None,
        );
        SetupStep::Done(Ok((fs, dax_cache_size)))
    }

    /// Builds the device from the snapshot.
    fn restored<M, E>(self) -> (step: SetupStep<M, E>)
        requires
            self.params.req_num_queues < usize::MAX,
            self.state is Some,
        ensures
            ({
                &&& step matches SetupStep::Done(Ok((fs, size)))
                &&& is_restored(fs, self.params@, self.state->0)
                &&& fs.wf()
                &&& size is None
            }),
    {
        let state = self.state.unwrap();
        let fs = build(
            self.params,
            state.avail_features,
            state.acked_features,
            state.acked_protocol_features,
            state.vu_num_queues,
            state.config,
            true,
            state.vring_bases,
        );
        SetupStep::Done(Ok((fs, None)))
    }
}

/// Puts a device together.
fn build<M>(
    params: FsParams,
    avail_features: u64,
    acked_features: u64,
    acked_protocol_features: u64,
    vu_num_queues: usize,
    config: VirtioFsConfig,
    paused: bool,
    vring_bases: Option<Vec<u64>>,
) -> (fs: Fs<M>)
    requires
        params.req_num_queues < usize::MAX,
    ensures
        is_built(
            fs,
            params@,
            avail_features,
            acked_features,
            acked_protocol_features,
            vu_num_queues as int,
            paused,
            vring_bases,
        ),
        fs.config == config,
        fs.wf(),
{
    let num_queues: usize = NUM_QUEUE_OFFSET + params.req_num_queues;
    let queue_sizes: Vec<u16> = vec![params.queue_size; num_queues];
    assert(queue_sizes@ =~= Seq::new(num_queues as nat, |i: int| params.queue_size));
    Fs {
        vu_common: VhostUserCommon {
            virtio_common: VirtioCommon {
                device_type: VIRTIO_ID_FS,
                avail_features,
                acked_features,
                queue_sizes,
                min_queues: 1,
                paused,
            },
            acked_protocol_features,
            socket_path: params.path,
            vu_num_queues,
            vring_bases,
            epoll_thread: false,
        },
        id: params.id,
        config,
        cache: None,
        seccomp_action: params.seccomp_action,
        guest_memory: None,
        exit_evt: params.exit_evt,
        access_platform_enabled: params.access_platform_enabled,
    }
}

} // verus!
