//! Creating a device from the answers of the daemon.
use crate::device::{is_state_of, Fs, State};
use crate::error::FsError;
use crate::protocol_flags;
use crate::setup::{FsParams, FsParamsView, Setup, SetupReply, SetupStage, SetupStep, ShmemConfig};
use vstd::prelude::*;

verus! {

/// What the daemon answers to the requests of a setup. Answers to requests that are not made have
/// no influence. `E` is what the parts that the device shares with others report.
#[derive(Debug)]
pub struct BackendAnswers<E> {
    pub connect: Result<(), FsError<E>>,
    pub set_protocol_features: Result<(), FsError<E>>,
    pub restore_state: Result<(), FsError<E>>,
    pub negotiate_features: Result<(u64, u64), FsError<E>>,
    pub get_shmem_config: Result<ShmemConfig, vhost::Error>,
    pub get_queue_num: Result<u64, vhost::Error>,
}

/// The setup failed with `error`.
pub open spec fn fails<M, E>(
    result: Result<(Fs<M>, Option<u64>), FsError<E>>,
    error: FsError<E>,
) -> bool {
    result == Err::<(Fs<M>, Option<u64>), FsError<E>>(error)
}

/// What becomes of a device that is restored from `state`: the first answer that is an error
/// ends the setup; otherwise the device is there, and no size of a DAX window is reported.
pub open spec fn restore_result<M, E>(
    params: FsParamsView,
    state: State,
    answers: BackendAnswers<E>,
    result: Result<(Fs<M>, Option<u64>), FsError<E>>,
) -> bool {
    if answers.set_protocol_features is Err {
        fails(result, answers.set_protocol_features->Err_0)
    } else if answers.restore_state is Err {
        fails(result, answers.restore_state->Err_0)
    } else {
        &&& result matches Ok((fs, dax_cache_size))
        &&& crate::setup::is_restored(fs, params, state)
        &&& dax_cache_size is None
    }
}

/// What becomes of a device once the size of its DAX window is known: it is there unless the
/// daemon supports too few queues, or does not say how many.
pub open spec fn queues_result<M, E>(
    params: FsParamsView,
    acked_features: u64,
    acked_protocol_features: u64,
    dax_cache_size: Option<u64>,
    answers: BackendAnswers<E>,
    result: Result<(Fs<M>, Option<u64>), FsError<E>>,
) -> bool {
    let multiple_queues = crate::features::has_any(
        acked_protocol_features,
        protocol_flags::spec_mq(),
    );
    if multiple_queues && answers.get_queue_num is Err {
        fails(result, FsError::VhostUserGetQueueMaxNum(answers.get_queue_num->Err_0))
    } else if crate::setup::NUM_QUEUE_OFFSET + params.req_num_queues > (if multiple_queues {
        answers.get_queue_num->Ok_0 as usize
    } else {
        crate::setup::DEFAULT_QUEUE_NUMBER
    }) {
        fails(result, FsError::BadQueueNum)
    } else {
        &&& result matches Ok((fs, size))
        &&& crate::setup::is_fresh(fs, params, acked_features, acked_protocol_features)
        &&& size == dax_cache_size
    }
}

/// What becomes of a new device that is connected to the daemon.
pub open spec fn fresh_result<M, E>(
    params: FsParamsView,
    answers: BackendAnswers<E>,
    result: Result<(Fs<M>, Option<u64>), FsError<E>>,
) -> bool {
    match answers.negotiate_features {
        Err(e) => fails(result, e),
        Ok((acked_features, acked_protocol_features)) => {
            if !crate::features::has_any(acked_protocol_features, protocol_flags::spec_shmem()) {
                if params.dax_enabled {
                    fails(result, FsError::DaxNotSupported)
                } else {
                    queues_result(
                        params,
                        acked_features,
                        acked_protocol_features,
                        None,
                        answers,
                        result,
                    )
                }
            } else {
                match answers.get_shmem_config {
                    Err(e) => fails(result, FsError::VhostUserGetShmemConfig(e)),
                    Ok(config) => if config.nregions != 1 {
                        fails(result, FsError::FsUnexpectedShmemRegions(config.nregions))
                    } else {
                        queues_result(
                            params,
                            acked_features,
                            acked_protocol_features,
                            Some(config.memory_sizes@[0]),
                            answers,
                            result,
                        )
                    },
                }
            }
        },
    }
}

/// What becomes of a device.
pub open spec fn new_result<M, E>(
    params: FsParamsView,
    state: Option<State>,
    answers: BackendAnswers<E>,
    result: Result<(Fs<M>, Option<u64>), FsError<E>>,
) -> bool {
    if answers.connect is Err {
        fails(result, answers.connect->Err_0)
    } else {
        match state {
            Some(state) => restore_result(params, state, answers, result),
            None => fresh_result(params, answers, result),
        }
    }
}

impl<M> Fs<M> {
    /// Creates a device, given what the daemon answers.
    ///
    /// With `dax_enabled` the daemon is asked for the size of the DAX window, which is returned
    /// beside the device: the caller allocates the window and installs it with `set_cache` before
    /// the device is activated. The error is `DaxNotSupported` if the daemon has no DAX.
    pub fn new<E>(
        id: String,
        path: &str,
        tag: &str,
        req_num_queues: usize,
        queue_size: u16,
        dax_enabled: bool,
        seccomp_action: seccompiler::SeccompAction,
        exit_evt: vmm_sys_util::eventfd::EventFd,
        access_platform_enabled: bool,
        state: Option<State>,
        answers: BackendAnswers<E>,
    ) -> (result: Result<(Fs<M>, Option<u64>), FsError<E>>)
        requires
            req_num_queues < usize::MAX,
        ensures
            new_result(
                (FsParamsView {
                    id: id@,
                    path: path@,
                    tag: tag@,
                    req_num_queues,
                    queue_size,
                    dax_enabled,
                    seccomp_action,
                    exit_evt,
                    access_platform_enabled,
                }),
                state,
                answers,
                result,
            ),
            result matches Ok((fs, _)) ==> fs.wf(),
    {
        let params = FsParams {
            id,
            path: path.to_owned(),
            tag: tag.to_owned(),
            req_num_queues,
            queue_size,
            dax_enabled,
            seccomp_action,
            exit_evt,
            access_platform_enabled,
        };
        let restoring: bool = state.is_some();
        let setup = match Setup::new(params, state).reply(SetupReply::Connected(answers.connect)) {
            SetupStep::Continue(setup) => setup,
            SetupStep::Done(result) => return result,
        };
        if restoring {
            let setup = match setup.reply(
                SetupReply::ProtocolFeaturesSet(answers.set_protocol_features),
            ) {
                SetupStep::Continue(setup) => setup,
                SetupStep::Done(result) => return result,
            };
            return match setup.reply(SetupReply::StateRestored(answers.restore_state)) {
                SetupStep::Continue(_) => vstd::pervasive::unreached(),
                SetupStep::Done(result) => result,
            };
        }
        let mut setup = match setup.reply(
            SetupReply::FeaturesNegotiated(answers.negotiate_features),
        ) {
            SetupStep::Continue(setup) => setup,
            SetupStep::Done(result) => return result,
        };
        if let SetupStage::QueryingShmem { .. } = setup.stage() {
            setup =
            match setup.reply(SetupReply::ShmemConfig(answers.get_shmem_config)) {
                SetupStep::Continue(setup) => setup,
                SetupStep::Done(result) => return result,
            };
        }
        match setup.reply(SetupReply::QueueNum(answers.get_queue_num)) {
            SetupStep::Continue(_) => vstd::pervasive::unreached(),
            SetupStep::Done(result) => result,
        }
    }
}

/// The answer to what a setup asks for at `stage`.
pub open spec fn reply_at<E>(answers: BackendAnswers<E>, stage: SetupStage) -> SetupReply<E> {
    match stage {
        SetupStage::Connecting => SetupReply::Connected(answers.connect),
        SetupStage::SettingProtocolFeatures => SetupReply::ProtocolFeaturesSet(
            answers.set_protocol_features,
        ),
        SetupStage::RestoringState => SetupReply::StateRestored(answers.restore_state),
        SetupStage::Negotiating => SetupReply::FeaturesNegotiated(answers.negotiate_features),
        SetupStage::QueryingShmem { .. } => SetupReply::ShmemConfig(answers.get_shmem_config),
        SetupStage::QueryingQueues { .. } => SetupReply::QueueNum(answers.get_queue_num),
    }
}

/// A setup that is given the daemon's answers one by one ends with `result`, after at most
/// `answers_left` of them.
pub open spec fn ends_with<M, E>(
    setup: Setup,
    answers: BackendAnswers<E>,
    result: Result<(Fs<M>, Option<u64>), FsError<E>>,
    answers_left: nat,
) -> bool
    decreases answers_left,
{
    answers_left > 0 && exists|step: SetupStep<M, E>|
        {
            &&& #[trigger] crate::setup::is_step(setup, reply_at(answers, setup.spec_stage()), step)
            &&& match step {
                SetupStep::Done(r) => r == result,
                SetupStep::Continue(next) => ends_with(
                    next,
                    answers,
                    result,
                    (answers_left - 1) as nat,
                ),
            }
        }
}

/// A setup that is led step by step comes to what `Fs::new` makes of the same answers.
pub proof fn law_setup_comes_to_new<M, E>(
    setup: Setup,
    answers: BackendAnswers<E>,
    result: Result<(Fs<M>, Option<u64>), FsError<E>>,
    answers_left: nat,
)
    requires
        setup.wf(),
        setup.spec_stage() == SetupStage::Connecting,
        ends_with(setup, answers, result, answers_left),
    ensures
        new_result(setup.spec_params()@, setup.spec_state(), answers, result),
{
    reveal_with_fuel(ends_with, 5);
}

/// Restoring a snapshot gives back what the snapshot kept: the features, the queues of the
/// daemon, the configuration and the ring positions are those of the device that it was taken of,
/// and a snapshot of the restored device is the same again. The restored device is paused.
pub proof fn law_restore_gives_back_the_snapshot<M, E>(
    original: Fs<M>,
    state: State,
    params: FsParamsView,
    answers: BackendAnswers<E>,
    result: Result<(Fs<M>, Option<u64>), FsError<E>>,
)
    requires
        is_state_of(state, original),
        new_result(params, Some(state), answers, result),
        result is Ok,
    ensures
        ({
            let fs = (result->Ok_0).0;
            &&& fs.vu_common.virtio_common.avail_features
                == original.vu_common.virtio_common.avail_features
            &&& fs.vu_common.virtio_common.acked_features
                == original.vu_common.virtio_common.acked_features
            &&& fs.vu_common.acked_protocol_features == original.vu_common.acked_protocol_features
            &&& fs.vu_common.vu_num_queues == original.vu_common.vu_num_queues
            &&& fs.config == original.config
            &&& fs.vu_common.vring_bases is Some <==> original.vu_common.vring_bases is Some
            &&& fs.vu_common.vring_bases is Some ==> fs.vu_common.vring_bases->0@
                == original.vu_common.vring_bases->0@
            &&& is_state_of(state, fs)
            &&& fs.vu_common.virtio_common.paused
        }),
{
}

/// A new device with DAX has a window, whose size the daemon told; a device whose daemon did not
/// acknowledge shared memory has none.
pub proof fn law_dax_comes_with_a_window<M, E>(
    params: FsParamsView,
    answers: BackendAnswers<E>,
    result: Result<(Fs<M>, Option<u64>), FsError<E>>,
)
    requires
        new_result(params, None, answers, result),
        result is Ok,
    ensures
        ({
            let (fs, dax_cache_size) = result->Ok_0;
            let shmem = crate::features::has_any(
                fs.vu_common.acked_protocol_features,
                protocol_flags::spec_shmem(),
            );
            &&& params.dax_enabled ==> shmem
            &&& shmem <==> dax_cache_size is Some
            &&& shmem ==> dax_cache_size == Some(answers.get_shmem_config->Ok_0.memory_sizes@[0])
                && answers.get_shmem_config->Ok_0.nregions == 1
        }),
{
}

/// With a daemon that acknowledges only what it was offered, the size of a DAX window is told
/// exactly if DAX was asked for.
pub proof fn law_window_size_comes_with_dax_only<M, E>(
    params: FsParamsView,
    answers: BackendAnswers<E>,
    result: Result<(Fs<M>, Option<u64>), FsError<E>>,
)
    requires
        new_result(params, None, answers, result),
        result is Ok,
        crate::features::has_all(
            crate::features::spec_avail_protocol_features(params.dax_enabled),
            (answers.negotiate_features->Ok_0).1,
        ),
    ensures
        (result->Ok_0).1 is Some <==> params.dax_enabled,
{
    let acked: u64 = (answers.negotiate_features->Ok_0).1;
    let common: u64 = crate::features::common_protocol_features();
    assert(crate::features::common_protocol_features() == 0x8_900b) by (bit_vector);
    assert(common == 0x8_900b && common & acked == acked ==> acked & 0x40_0000 == 0)
        by (bit_vector);
}

/// A new device has one queue more than request queues, all of the requested size, and the
/// daemon supports that many; its pause flag is down, and what it counts as acknowledged it knows.
pub proof fn law_new_device_fits_the_daemon<M, E>(
    params: FsParamsView,
    answers: BackendAnswers<E>,
    result: Result<(Fs<M>, Option<u64>), FsError<E>>,
)
    requires
        new_result(params, None, answers, result),
        result is Ok,
    ensures
        ({
            let fs = (result->Ok_0).0;
            let common = fs.vu_common.virtio_common;
            &&& common.queue_sizes@.len() == params.req_num_queues + 1
            &&& forall|i: int|
                0 <= i < common.queue_sizes@.len() ==> common.queue_sizes@[i] == params.queue_size
            &&& fs.vu_common.vu_num_queues == common.queue_sizes@.len()
            &&& if crate::features::has_any(
                fs.vu_common.acked_protocol_features,
                protocol_flags::spec_mq(),
            ) {
                common.queue_sizes@.len() <= answers.get_queue_num->Ok_0 as usize
            } else {
                common.queue_sizes@.len() <= 2
            }
            &&& !common.paused
            &&& crate::features::has_all(common.avail_features, common.acked_features)
        }),
{
    let avail: u64 = (result->Ok_0).0.vu_common.virtio_common.avail_features;
    assert(avail & (avail & 0x4000_0000) == avail & 0x4000_0000) by (bit_vector);
}

/// A guest that reads the configuration space of a new device finds the tag that the device was
/// given, cut off after the length of the field, and the number of request queues in the byte
/// order of the machine. (A tag that holds a zero byte ends there for the guest.)
pub proof fn law_guest_reads_tag_and_queues<M, E>(
    params: FsParamsView,
    answers: BackendAnswers<E>,
    result: Result<(Fs<M>, Option<u64>), FsError<E>>,
    tag_buffer: Seq<u8>,
    queues_buffer: Seq<u8>,
)
    requires
        new_result(params, None, answers, result),
        result is Ok,
        tag_buffer.len() == crate::config::VIRTIO_FS_TAG_LEN,
        queues_buffer.len() == 4,
        forall|i: int|
            0 <= i < vstd::utf8::encode_utf8(params.tag).len() ==> vstd::utf8::encode_utf8(
                params.tag,
            )[i] != 0,
    ensures
        ({
            let image = crate::config::config_image((result->Ok_0).0.config);
            let tag = vstd::utf8::encode_utf8(params.tag);
            let seen = crate::config::tag_in_field(
                crate::config::read_result(image, 0, tag_buffer),
            );
            let queues = crate::config::read_result(image, 36, queues_buffer);
            &&& tag.len() <= 36 ==> seen == tag
            &&& tag.len() > 36 ==> seen == tag.take(36)
            &&& queues == crate::config::machine_bytes(params.req_num_queues as u32)
        }),
{
    let config = (result->Ok_0).0.config;
    let image = crate::config::config_image(config);
    crate::config::law_tag_survives(vstd::utf8::encode_utf8(params.tag));
    assert(crate::config::read_result(image, 0, tag_buffer) =~= config.tag@);
    assert(crate::config::read_result(image, 36, queues_buffer) =~= crate::config::machine_bytes(
        config.num_request_queues,
    ));
}

} // verus!
