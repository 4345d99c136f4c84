use seccompiler::SeccompAction;
use vhost_user_fs::activation::{ActivationAction, ActivationEvent, Thread};
use vhost_user_fs::creation::BackendAnswers;
use vhost_user_fs::device::{Fs, State};
use vhost_user_fs::error::{ActivateError, DeviceError, FsError};
use vhost_user_fs::features::{avail_protocol_features, DEFAULT_VIRTIO_FEATURES};
use vhost_user_fs::lifecycle::{
    PauseAction, PauseEvent, ResumeAction, ResumeEvent, SnapshotAction, SnapshotEvent,
};
use vhost_user_fs::region::{MmapRegion, VirtioSharedMemoryList};
use vhost_user_fs::setup::{
    FsParams, Setup, SetupReply, SetupRequest, SetupStage, SetupStep, ShmemConfig,
};
use vmm_sys_util::eventfd::EventFd;

type Outcome = Result<(Fs<u32>, Option<u64>), FsError<vhost::Error>>;

const MQ: u64 = 0x1;
const REPLY_ACK: u64 = 0x8;
const SHMEM: u64 = 0x40_0000;
const PROTOCOL_FEATURES: u64 = 0x4000_0000;

fn exit_evt() -> EventFd {
    EventFd::new(0).unwrap()
}

fn shmem_config(nregions: u32, size: u64) -> ShmemConfig {
    let mut memory_sizes = [0u64; 256];
    memory_sizes[0] = size;
    ShmemConfig {
        nregions,
        memory_sizes,
    }
}

/// A daemon that acknowledges these protocol features, wants a window of 1 GiB and has 4 queues.
fn answers(acked_protocol_features: u64) -> BackendAnswers<vhost::Error> {
    BackendAnswers {
        connect: Ok(()),
        set_protocol_features: Ok(()),
        restore_state: Ok(()),
        negotiate_features: Ok((DEFAULT_VIRTIO_FEATURES, acked_protocol_features)),
        get_shmem_config: Ok(shmem_config(1, 0x4000_0000)),
        get_queue_num: Ok(4),
    }
}

fn create(
    req_num_queues: usize,
    dax_enabled: bool,
    state: Option<State>,
    answers: BackendAnswers<vhost::Error>,
) -> Outcome {
    Fs::new(
        String::from("fs0"),
        "/run/virtiofsd.sock",
        "myfs",
        req_num_queues,
        1024,
        dax_enabled,
        SeccompAction::Trap,
        exit_evt(),
        false,
        state,
        answers,
    )
}

fn device() -> Fs<u32> {
    create(1, false, None, answers(MQ)).unwrap().0
}

fn saved_state() -> State {
    State {
        avail_features: 0x1_7000_0000,
        acked_features: 0x1_4000_0000,
        acked_protocol_features: MQ | SHMEM,
        vu_num_queues: 2,
        config: vhost_user_fs::config::VirtioFsConfig::for_tag("saved", 9),
        vring_bases: Some(vec![5, 6]),
    }
}

fn window(addr: usize) -> VirtioSharedMemoryList {
    VirtioSharedMemoryList {
        mem_slot: 3,
        addr: 0x1_0000_0000,
        mapping: MmapRegion::new(addr, 0x4000).unwrap(),
    }
}

#[test]
fn default_features() {
    let bits: u64 = (1 << 28) | (1 << 29) | (1 << 30) | (1 << 32) | (1 << 35) | (1 << 36) | (1 << 38);
    assert_eq!(DEFAULT_VIRTIO_FEATURES, bits);
}

#[test]
fn protocol_features_offered() {
    assert_eq!(avail_protocol_features(false), 0x8_900b);
    assert_eq!(avail_protocol_features(true), 0x48_942b);
    assert_eq!(
        avail_protocol_features(true) & !avail_protocol_features(false),
        vhost::vhost_user::VhostUserProtocolFeatures::BACKEND_REQ.bits()
            | vhost::vhost_user::VhostUserProtocolFeatures::BACKEND_SEND_FD.bits()
            | vhost::vhost_user::VhostUserProtocolFeatures::SHMEM.bits()
    );
}

#[test]
fn new_device() {
    let (fs, dax_cache_size) = create(3, false, None, answers(MQ)).unwrap();
    assert_eq!(dax_cache_size, None);
    assert_eq!(fs.device_type(), 26);
    assert_eq!(fs.queue_max_sizes(), &[1024, 1024, 1024, 1024]);
    assert_eq!(fs.id(), "fs0");
    assert_eq!(fs.features(), DEFAULT_VIRTIO_FEATURES);
    assert_eq!(&fs.config.tag[..5], b"myfs\0");
    assert_eq!(fs.config.num_request_queues, 3);
    assert_eq!(fs.vu_common.virtio_common.acked_features, PROTOCOL_FEATURES);
    assert_eq!(fs.vu_common.virtio_common.min_queues, 1);
    assert!(!fs.vu_common.virtio_common.paused);
    assert_eq!(fs.vu_common.acked_protocol_features, MQ);
    assert_eq!(fs.vu_common.socket_path, "/run/virtiofsd.sock");
    assert_eq!(fs.vu_common.vu_num_queues, 4);
    assert_eq!(fs.vu_common.vring_bases, None);
    assert!(!fs.vu_common.epoll_thread);
    assert_eq!(fs.seccomp_action, SeccompAction::Trap);
    assert_eq!(fs.guest_memory, None);
    assert_eq!(fs.get_shm_regions(), None);
}

#[test]
fn new_device_with_dax() {
    let (fs, dax_cache_size) = create(1, true, None, answers(MQ | SHMEM)).unwrap();
    assert_eq!(dax_cache_size, Some(0x4000_0000));
    assert_eq!(fs.vu_common.acked_protocol_features, MQ | SHMEM);
}

#[test]
fn window_size_is_told_whenever_shared_memory_is_acknowledged() {
    let (_, dax_cache_size) = create(1, false, None, answers(SHMEM)).unwrap();
    assert_eq!(dax_cache_size, Some(0x4000_0000));
}

#[test]
fn dax_not_supported() {
    let result = create(1, true, None, answers(MQ));
    assert!(matches!(result, Err(FsError::DaxNotSupported)));
}

#[test]
fn wrong_number_of_regions() {
    let mut a = answers(SHMEM);
    a.get_shmem_config = Ok(shmem_config(2, 0x1000));
    let result = create(1, true, None, a);
    assert!(matches!(result, Err(FsError::FsUnexpectedShmemRegions(2))));
    let mut a = answers(SHMEM);
    a.get_shmem_config = Ok(shmem_config(0, 0));
    let result = create(1, true, None, a);
    assert!(matches!(result, Err(FsError::FsUnexpectedShmemRegions(0))));
}

#[test]
fn shmem_config_fails() {
    let mut a = answers(SHMEM);
    a.get_shmem_config = Err(vhost::Error::InvalidQueue);
    let result = create(1, true, None, a);
    assert!(matches!(
        result,
        Err(FsError::VhostUserGetShmemConfig(vhost::Error::InvalidQueue))
    ));
}

#[test]
fn queue_num_fails() {
    let mut a = answers(MQ);
    a.get_queue_num = Err(vhost::Error::InvalidOperation);
    let result = create(1, false, None, a);
    assert!(matches!(
        result,
        Err(FsError::VhostUserGetQueueMaxNum(
            vhost::Error::InvalidOperation
        ))
    ));
}

#[test]
fn too_many_queues() {
    assert!(create(3, false, None, answers(MQ)).is_ok());
    let result = create(4, false, None, answers(MQ));
    assert!(matches!(result, Err(FsError::BadQueueNum)));
}

#[test]
fn too_many_queues_for_a_daemon_without_multiple_queues() {
    assert!(create(1, false, None, answers(0)).is_ok());
    let result = create(2, false, None, answers(0));
    assert!(matches!(result, Err(FsError::BadQueueNum)));
}

#[test]
fn connection_fails() {
    let mut a = answers(MQ);
    a.connect = Err(FsError::VhostUserBackend(vhost::Error::InvalidQueue));
    let result = create(1, false, None, a);
    assert!(matches!(
        result,
        Err(FsError::VhostUserBackend(vhost::Error::InvalidQueue))
    ));
}

#[test]
fn negotiation_fails() {
    let mut a = answers(MQ);
    a.negotiate_features = Err(FsError::VhostUserBackend(vhost::Error::LogAddress));
    let result = create(1, true, None, a);
    assert!(matches!(
        result,
        Err(FsError::VhostUserBackend(vhost::Error::LogAddress))
    ));
}

#[test]
fn restored_device() {
    let mut a = answers(0);
    a.negotiate_features = Err(FsError::BadQueueNum);
    a.get_shmem_config = Err(vhost::Error::InvalidQueue);
    let (fs, dax_cache_size) = create(1, true, Some(saved_state()), a).unwrap();
    assert_eq!(dax_cache_size, None);
    assert_eq!(fs.vu_common.virtio_common.avail_features, 0x1_7000_0000);
    assert_eq!(fs.vu_common.virtio_common.acked_features, 0x1_4000_0000);
    assert_eq!(fs.vu_common.acked_protocol_features, MQ | SHMEM);
    assert_eq!(fs.vu_common.vu_num_queues, 2);
    assert_eq!(&fs.config.tag[..6], b"saved\0");
    assert_eq!(fs.config.num_request_queues, 9);
    assert_eq!(fs.vu_common.vring_bases, Some(vec![5, 6]));
    assert!(fs.vu_common.virtio_common.paused);
    assert_eq!(fs.queue_max_sizes(), &[1024, 1024]);
}

#[test]
fn restore_fails() {
    let mut a = answers(0);
    a.set_protocol_features = Err(FsError::VhostUserBackend(vhost::Error::UsedAddress));
    a.restore_state = Err(FsError::VhostUserBackend(vhost::Error::AvailAddress));
    let result = create(1, false, Some(saved_state()), a);
    assert!(matches!(
        result,
        Err(FsError::VhostUserBackend(vhost::Error::UsedAddress))
    ));
    let mut a = answers(0);
    a.restore_state = Err(FsError::VhostUserBackend(vhost::Error::AvailAddress));
    let result = create(1, false, Some(saved_state()), a);
    assert!(matches!(
        result,
        Err(FsError::VhostUserBackend(vhost::Error::AvailAddress))
    ));
}

#[test]
fn snapshot_and_restore() {
    let mut fs = device();
    fs.ack_features(1 << 32);
    let state = fs.state(Ok::<(), i8>(())).unwrap();
    let restored = create(1, false, Some(state), answers(0)).unwrap().0;
    assert_eq!(
        restored.vu_common.virtio_common.acked_features,
        (1 << 32) | PROTOCOL_FEATURES
    );
    assert_eq!(
        restored.vu_common.virtio_common.avail_features,
        DEFAULT_VIRTIO_FEATURES
    );
    assert_eq!(restored.vu_common.acked_protocol_features, MQ);
    assert_eq!(restored.config.tag, fs.config.tag);
    assert_eq!(restored.state(Ok::<(), i8>(())).unwrap().vu_num_queues, fs.state(Ok::<(), i8>(())).unwrap().vu_num_queues);
    assert_eq!(restored.state(Ok::<(), i8>(())).unwrap().vring_bases, None);
}

fn params(dax_enabled: bool) -> FsParams {
    FsParams {
        id: String::from("fs1"),
        path: String::from("/tmp/s"),
        tag: String::from("t"),
        req_num_queues: 2,
        queue_size: 64,
        dax_enabled,
        seccomp_action: SeccompAction::Allow,
        exit_evt: exit_evt(),
        access_platform_enabled: true,
    }
}

fn go_on(step: SetupStep<u32, vhost::Error>) -> Setup {
    match step {
        SetupStep::Continue(setup) => setup,
        SetupStep::Done(_) => panic!("over too early"),
    }
}

#[test]
fn setup_of_a_new_device_step_by_step() {
    let setup = Setup::new(params(true), None);
    assert!(matches!(
        setup.request(),
        SetupRequest::Connect {
            server: false,
            path: "/tmp/s",
            num_queues: 3,
            unlink_socket: false
        }
    ));
    let setup = go_on(setup.reply(SetupReply::Connected(Ok(()))));
    assert!(matches!(
        setup.request(),
        SetupRequest::NegotiateFeatures {
            avail_features: DEFAULT_VIRTIO_FEATURES,
            avail_protocol_features: 0x48_942b
        }
    ));
    let setup = go_on(setup.reply(SetupReply::FeaturesNegotiated(Ok((
        PROTOCOL_FEATURES,
        MQ | SHMEM,
    )))));
    assert!(matches!(setup.request(), SetupRequest::GetShmemConfig));
    let setup = go_on(setup.reply(SetupReply::ShmemConfig(Ok(shmem_config(1, 77)))));
    assert!(matches!(setup.request(), SetupRequest::GetQueueNum));
    assert_eq!(
        setup.stage(),
        SetupStage::QueryingQueues {
            acked_features: PROTOCOL_FEATURES,
            acked_protocol_features: MQ | SHMEM,
            dax_cache_size: Some(77)
        }
    );
    let step: SetupStep<u32, vhost::Error> = setup.reply(SetupReply::QueueNum(Ok(3)));
    match step {
        SetupStep::Done(Ok((fs, Some(77)))) => {
            assert_eq!(fs.queue_max_sizes(), &[64, 64, 64]);
            assert_eq!(fs.features(), PROTOCOL_FEATURES | (1 << 33));
        }
        _ => panic!("not there"),
    }
}

#[test]
fn setup_from_a_snapshot_step_by_step() {
    let setup = Setup::new(params(false), Some(saved_state()));
    let setup = go_on(setup.reply(SetupReply::Connected(Ok(()))));
    assert!(matches!(
        setup.request(),
        SetupRequest::SetProtocolFeatures {
            acked_features: 0x1_4000_0000,
            acked_protocol_features: 0x40_0001
        }
    ));
    let setup = go_on(setup.reply(SetupReply::ProtocolFeaturesSet(Ok(()))));
    match setup.request() {
        SetupRequest::RestoreState { state } => assert_eq!(state.vring_bases, Some(vec![5, 6])),
        _ => panic!("no restore"),
    }
    let step: SetupStep<u32, vhost::Error> = setup.reply(SetupReply::StateRestored(Ok(())));
    assert!(matches!(step, SetupStep::Done(Ok((_, None)))));
}

#[test]
fn platform_access_is_offered() {
    let mut fs = device();
    assert_eq!(fs.features() & (1 << 33), 0);
    fs.access_platform_enabled = true;
    assert_eq!(fs.features(), DEFAULT_VIRTIO_FEATURES | (1 << 33));
}

#[test]
fn acknowledged_features() {
    let mut fs = device();
    fs.ack_features((1 << 32) | (1 << 5));
    assert_eq!(
        fs.vu_common.virtio_common.acked_features,
        (1 << 32) | PROTOCOL_FEATURES
    );
    fs.ack_features(1 << 28);
    fs.ack_features(1 << 28);
    fs.ack_features(0);
    assert_eq!(
        fs.vu_common.virtio_common.acked_features,
        (1 << 32) | (1 << 28) | PROTOCOL_FEATURES
    );
}

#[test]
fn guest_reads_the_configuration() {
    let fs = device();
    let mut tag = [1u8; 36];
    fs.read_config(0, &mut tag);
    assert_eq!(tag, fs.config.tag);
    let mut queues = [9u8; 4];
    fs.read_config(36, &mut queues);
    assert_eq!(u32::from_ne_bytes(queues), 1);
    let mut past = [9u8; 4];
    fs.read_config(37, &mut past);
    assert_eq!(past, [9; 4]);
}

#[test]
fn window_is_installed_and_replaced() {
    let mut fs = device();
    assert_eq!(fs.userspace_mappings(), vec![]);
    assert_eq!(
        fs.set_shm_regions(window(0x1000)),
        Err(DeviceError::SetShmRegionsNotSupported)
    );
    assert_eq!(fs.get_shm_regions(), None);
    fs.set_cache(window(0x1000));
    assert_eq!(fs.get_shm_regions(), Some(window(0x1000)));
    assert_eq!(fs.set_shm_regions(window(0x9000)), Ok(()));
    assert_eq!(fs.get_shm_regions(), Some(window(0x9000)));
    let mappings = fs.userspace_mappings();
    assert_eq!(mappings.len(), 1);
    assert_eq!(mappings[0].mem_slot, 3);
    assert_eq!(mappings[0].addr, 0x1_0000_0000);
    assert_eq!(mappings[0].mapping, window(0x9000).mapping);
    assert!(!mappings[0].mergeable);
}

type Event = ActivationEvent<u32, i8>;

#[test]
fn activation_without_a_window() {
    let mut fs = device();
    assert!(matches!(
        fs.activate(Event::Start),
        ActivationAction::ActivateQueues
    ));
    assert_eq!(fs.guest_memory, None);
    assert!(matches!(
        fs.activate(Event::QueuesActivated(Ok(42))),
        ActivationAction::ActivateBackend {
            guest_memory: Some(42),
            acked_features: PROTOCOL_FEATURES,
            acked_protocol_features: MQ,
            vu_num_queues: 2,
            vring_bases: None,
            with_handler: false
        }
    ));
    assert_eq!(fs.guest_memory, Some(42));
    match fs.activate(Event::BackendActivated(Ok(()))) {
        ActivationAction::SpawnThread {
            id,
            thread,
            seccomp_action,
            ..
        } => {
            assert_eq!(id, "fs0");
            assert_eq!(thread, Thread::VirtioVhostFs);
            assert_eq!(*seccomp_action, SeccompAction::Trap);
        }
        _ => panic!("no thread"),
    }
    assert!(!fs.vu_common.epoll_thread);
    match fs.activate(Event::ThreadSpawned(Ok(()))) {
        ActivationAction::SendEvent {
            source,
            event,
            key,
            value,
        } => {
            assert_eq!((source, event), ("virtio-device", "activated"));
            assert_eq!((key, value.as_str()), ("id", "fs0"));
        }
        _ => panic!("no report"),
    }
    assert!(fs.vu_common.epoll_thread);
    assert!(matches!(
        fs.activate(Event::EventSent),
        ActivationAction::Finish(Ok(()))
    ));
}

#[test]
fn activation_with_a_window() {
    let mut fs = device();
    fs.set_cache(window(0x5000));
    match fs.activate(Event::QueuesActivated(Ok(1))) {
        ActivationAction::CreateHandler { mapping, reply_ack } => {
            assert_eq!(mapping, window(0x5000).mapping);
            assert!(!reply_ack);
        }
        _ => panic!("no server"),
    }
    fs.vu_common.acked_protocol_features = MQ | REPLY_ACK;
    match fs.activate(Event::QueuesActivated(Ok(1))) {
        ActivationAction::CreateHandler { reply_ack, .. } => assert!(reply_ack),
        _ => panic!("no server"),
    }
    assert!(matches!(
        fs.activate(Event::HandlerCreated(Ok(()))),
        ActivationAction::ActivateBackend {
            guest_memory: Some(1),
            acked_features: PROTOCOL_FEATURES,
            with_handler: true,
            ..
        }
    ));
}

#[test]
fn activation_after_a_restore_hands_on_the_ring_positions() {
    let mut fs = create(1, false, Some(saved_state()), answers(0)).unwrap().0;
    match fs.activate(Event::QueuesActivated(Ok(1))) {
        ActivationAction::ActivateBackend { vring_bases, .. } => {
            assert_eq!(*vring_bases, Some(vec![5, 6]))
        }
        _ => panic!("no activation"),
    }
}

#[test]
fn activation_fails() {
    let mut fs = device();
    assert!(matches!(
        fs.activate(Event::QueuesActivated(Err(-1))),
        ActivationAction::Finish(Err(ActivateError::Common(-1)))
    ));
    assert_eq!(fs.guest_memory, None);
    assert!(matches!(
        fs.activate(Event::HandlerCreated(Err(
            vhost::vhost_user::Error::InvalidParam
        ))),
        ActivationAction::Finish(Err(ActivateError::VhostUserFsSetup(
            FsError::FrontendReqHandlerCreation(vhost::vhost_user::Error::InvalidParam)
        )))
    ));
    assert!(matches!(
        fs.activate(Event::BackendActivated(Err(-2))),
        ActivationAction::Finish(Err(ActivateError::Common(-2)))
    ));
    assert!(matches!(
        fs.activate(Event::ThreadSpawned(Err(-3))),
        ActivationAction::Finish(Err(ActivateError::Common(-3)))
    ));
    assert!(!fs.vu_common.epoll_thread);
}

#[test]
fn taking_a_snapshot() {
    let fs = device();
    assert!(matches!(
        fs.snapshot(SnapshotEvent::<u8, i8>::Start),
        SnapshotAction::PrepareSharedState
    ));
    match fs.snapshot(SnapshotEvent::<u8, i8>::SharedStateReady(Ok(()))) {
        SnapshotAction::Save { state } => {
            assert_eq!(state.acked_protocol_features, MQ);
            assert_eq!(state.acked_features, PROTOCOL_FEATURES);
            assert_eq!(state.avail_features, DEFAULT_VIRTIO_FEATURES);
        }
        _ => panic!("nothing to save"),
    }
    assert!(matches!(
        fs.snapshot(SnapshotEvent::<u8, i8>::SharedStateReady(Err(3))),
        SnapshotAction::Finish(Err(3))
    ));
    assert!(matches!(
        fs.snapshot(SnapshotEvent::<u8, i8>::Saved(Ok(9))),
        SnapshotAction::Finish(Ok(9))
    ));
    assert!(matches!(
        fs.snapshot(SnapshotEvent::<u8, i8>::Saved(Err(4))),
        SnapshotAction::Finish(Err(4))
    ));
    assert!(matches!(fs.state(Err::<(), i8>(5)), Err(5)));
}

#[test]
fn changes_of_the_shared_parts() {
    let mut fs = create(1, false, Some(saved_state()), answers(0)).unwrap().0;
    fs.take_over(true, false, None);
    assert!(fs.vu_common.epoll_thread);
    assert!(!fs.vu_common.virtio_common.paused);
    assert_eq!(fs.vu_common.vring_bases, Some(vec![5, 6]));
    fs.take_over(false, true, Some(vec![7]));
    assert!(!fs.vu_common.epoll_thread);
    assert!(fs.vu_common.virtio_common.paused);
    assert_eq!(fs.vu_common.vring_bases, Some(vec![7]));
    assert_eq!(fs.id(), "fs0");
}

#[test]
fn pausing() {
    let fs = device();
    assert!(matches!(
        fs.pause(PauseEvent::<i8>::Start),
        PauseAction::PauseBackend
    ));
    assert!(matches!(
        fs.pause(PauseEvent::<i8>::BackendPaused(Ok(()))),
        PauseAction::PauseDevice
    ));
    assert!(matches!(
        fs.pause(PauseEvent::<i8>::BackendPaused(Err(5))),
        PauseAction::Finish(Err(5))
    ));
    assert!(matches!(
        fs.pause(PauseEvent::<i8>::DevicePaused(Ok(()))),
        PauseAction::Finish(Ok(()))
    ));
    assert!(matches!(
        fs.pause(PauseEvent::<i8>::DevicePaused(Err(6))),
        PauseAction::Finish(Err(6))
    ));
}

#[test]
fn resuming() {
    let mut fs = device();
    assert!(matches!(
        fs.resume(ResumeEvent::<i8>::Start),
        ResumeAction::ResumeDevice
    ));
    assert!(matches!(
        fs.resume(ResumeEvent::<i8>::DeviceResumed(Ok(()))),
        ResumeAction::ResumeBackend
    ));
    fs.take_over(true, false, None);
    assert!(matches!(
        fs.resume(ResumeEvent::<i8>::DeviceResumed(Ok(()))),
        ResumeAction::UnparkThread
    ));
    assert!(matches!(
        fs.resume(ResumeEvent::<i8>::DeviceResumed(Err(7))),
        ResumeAction::Finish(Err(7))
    ));
    assert!(matches!(
        fs.resume(ResumeEvent::<i8>::ThreadUnparked),
        ResumeAction::ResumeBackend
    ));
    assert!(matches!(
        fs.resume(ResumeEvent::<i8>::BackendResumed(Ok(()))),
        ResumeAction::Finish(Ok(()))
    ));
    assert!(matches!(
        fs.resume(ResumeEvent::<i8>::BackendResumed(Err(8))),
        ResumeAction::Finish(Err(8))
    ));
}

/// Leads a setup with these answers to its end.
fn lead(params: FsParams, state: Option<State>, answers: BackendAnswers<vhost::Error>) -> Outcome {
    let mut step: SetupStep<u32, vhost::Error> =
        Setup::new(params, state).reply(SetupReply::Connected(answers.connect));
    let mut negotiated = Some(answers.negotiate_features);
    let mut features_set = Some(answers.set_protocol_features);
    let mut restored = Some(answers.restore_state);
    let mut shmem = Some(answers.get_shmem_config);
    let mut queues = Some(answers.get_queue_num);
    loop {
        let setup = match step {
            SetupStep::Continue(setup) => setup,
            SetupStep::Done(result) => return result,
        };
        let reply = match setup.request() {
            SetupRequest::Connect { .. } => panic!("connected twice"),
            SetupRequest::SetProtocolFeatures { .. } => {
                SetupReply::ProtocolFeaturesSet(features_set.take().unwrap())
            }
            SetupRequest::RestoreState { .. } => {
                SetupReply::StateRestored(restored.take().unwrap())
            }
            SetupRequest::NegotiateFeatures { .. } => {
                SetupReply::FeaturesNegotiated(negotiated.take().unwrap())
            }
            SetupRequest::GetShmemConfig => SetupReply::ShmemConfig(shmem.take().unwrap()),
            SetupRequest::GetQueueNum => SetupReply::QueueNum(queues.take().unwrap()),
        };
        step = setup.reply(reply);
    }
}

#[test]
fn setup_comes_to_new() {
    for protocol_features in [0, MQ, SHMEM, MQ | SHMEM] {
        for dax_enabled in [false, true] {
            for req_num_queues in [1, 2, 4] {
                for restoring in [false, true] {
                    let state = || if restoring { Some(saved_state()) } else { None };
                    let mut p = params(dax_enabled);
                    p.req_num_queues = req_num_queues;
                    let led = lead(p, state(), answers(protocol_features));
                    let created = create(
                        req_num_queues,
                        dax_enabled,
                        state(),
                        answers(protocol_features),
                    );
                    match (led, created) {
                        (Ok((a, size_a)), Ok((b, size_b))) => {
                            assert_eq!(size_a, size_b);
                            assert_eq!(
                                a.vu_common.virtio_common.acked_features,
                                b.vu_common.virtio_common.acked_features
                            );
                            assert_eq!(a.vu_common.vu_num_queues, b.vu_common.vu_num_queues);
                            assert_eq!(
                                a.config.num_request_queues,
                                b.config.num_request_queues
                            );
                        }
                        (Err(a), Err(b)) => assert_eq!(format!("{:?}", a), format!("{:?}", b)),
                        _ => panic!("one failed, the other did not"),
                    }
                }
            }
        }
    }
}
