//! The conversation with the daemon while a device is set up.
use crate::creation::{new_result, reply_at, BackendAnswers};
use crate::device::{Fs, State};
use crate::error::FsError;
use crate::setup::{
    FsParams, Setup, SetupReply, SetupRequest, SetupStage, SetupStep, ShmemConfig,
};
use vstd::prelude::*;

verus! {

/// A setup asks for what its stage says.
pub proof fn law_stage_tells_what_is_asked_for(
    setup: Setup,
    stage: SetupStage,
    request: SetupRequest<'_>,
)
    requires
        call_ensures(Setup::stage, (&setup,), stage),
        call_ensures(Setup::request, (&setup,), request),
    ensures
        stage is Connecting <==> request is Connect,
        stage is SettingProtocolFeatures <==> request is SetProtocolFeatures,
        stage is RestoringState <==> request is RestoreState,
        stage is Negotiating <==> request is NegotiateFeatures,
        stage is QueryingShmem <==> request is GetShmemConfig,
        stage is QueryingQueues <==> request is GetQueueNum,
{
}

/// The setup connects first, as a client, to the given socket and for one queue more than request
/// queues. If that fails, its error ends the setup. If not, a new device negotiates, offering the
/// features that it knows, and a restored device sets the features of its snapshot.
pub proof fn law_setup_connects_first<M, E>(
    params: FsParams,
    state: Option<State>,
    setup: Setup,
    request: SetupRequest<'_>,
    connected: Result<(), FsError<E>>,
    step: SetupStep<M, E>,
    next_request: SetupRequest<'_>,
)
    requires
        params.req_num_queues < usize::MAX,
        call_ensures(Setup::new, (params, state), setup),
        call_ensures(Setup::request, (&setup,), request),
        call_ensures(Setup::reply::<M, E>, (setup, SetupReply::Connected(connected)), step),
        step matches SetupStep::Continue(next) ==> call_ensures(
            Setup::request,
            (&next,),
            next_request,
        ),
    ensures
        request matches SetupRequest::Connect { server, path, num_queues, unlink_socket } && !server
            && path@ == params.path@ && num_queues == 1 + params.req_num_queues && !unlink_socket,
        step is Continue <==> connected is Ok,
        connected matches Err(e) ==> (step matches SetupStep::Done(Err(reported)) && reported == e),
        connected is Ok && state is None ==> (
        next_request matches SetupRequest::NegotiateFeatures {
            avail_features,
            avail_protocol_features,
        } && avail_features == 0x59_7000_0000 && avail_protocol_features == if params.dax_enabled {
            0x48_942bu64
        } else {
            0x8_900bu64
        }),
        connected is Ok && state is Some ==> (
        next_request matches SetupRequest::SetProtocolFeatures {
            acked_features,
            acked_protocol_features,
        } && acked_features == state->0.acked_features && acked_protocol_features
            == state->0.acked_protocol_features),
{
    assert(crate::features::common_protocol_features() == 0x8_900b) by (bit_vector);
    assert(crate::features::common_protocol_features() | crate::features::dax_protocol_features()
        == 0x48_942b) by (bit_vector);
}

/// A restored device hands its whole snapshot to the daemon once the features are set; that is the
/// last thing it asks for. An error of either request ends the setup.
pub proof fn law_snapshot_is_handed_to_the_daemon<M, E>(
    params: FsParams,
    state: State,
    setup: Setup,
    connected: Setup,
    features_set: Result<(), FsError<E>>,
    second: SetupStep<M, E>,
    request: SetupRequest<'_>,
    restored: Result<(), FsError<E>>,
    last: SetupStep<M, E>,
)
    requires
        params.req_num_queues < usize::MAX,
        call_ensures(Setup::new, (params, Some(state)), setup),
        call_ensures(
            Setup::reply::<M, E>,
            (setup, SetupReply::Connected(Ok(()))),
            SetupStep::Continue(connected),
        ),
        call_ensures(
            Setup::reply::<M, E>,
            (connected, SetupReply::ProtocolFeaturesSet(features_set)),
            second,
        ),
        second matches SetupStep::Continue(next) ==> {
            &&& call_ensures(Setup::request, (&next,), request)
            &&& call_ensures(
                Setup::reply::<M, E>,
                (next, SetupReply::StateRestored(restored)),
                last,
            )
        },
    ensures
        second is Continue <==> features_set is Ok,
        features_set matches Err(e) ==> (second matches SetupStep::Done(Err(reported)) && reported
            == e),
        features_set is Ok ==> {
            &&& request matches SetupRequest::RestoreState { state: handed }
            &&& *handed == state
        },
        features_set is Ok && restored is Ok ==> (last matches SetupStep::Done(Ok(_))),
        features_set is Ok && restored is Err ==> (last matches SetupStep::Done(Err(reported))
            && reported == restored->Err_0),
{
}

/// After the negotiation the daemon is asked for its regions exactly if it acknowledged shared
/// memory (bit 22), and for its number of queues, last, exactly if it acknowledged multiple queues
/// (bit 0).
pub proof fn law_daemon_is_asked_what_it_acknowledged<M, E>(
    params: FsParams,
    setup: Setup,
    connected: Setup,
    features: u64,
    protocol: u64,
    second: SetupStep<M, E>,
    second_request: SetupRequest<'_>,
    config: ShmemConfig,
    third: SetupStep<M, E>,
    third_request: SetupRequest<'_>,
)
    requires
        params.req_num_queues < usize::MAX,
        call_ensures(Setup::new, (params, None), setup),
        call_ensures(
            Setup::reply::<M, E>,
            (setup, SetupReply::Connected(Ok(()))),
            SetupStep::Continue(connected),
        ),
        call_ensures(
            Setup::reply::<M, E>,
            (connected, SetupReply::FeaturesNegotiated(Ok((features, protocol)))),
            second,
        ),
        second matches SetupStep::Continue(next) ==> {
            &&& call_ensures(Setup::request, (&next,), second_request)
            &&& protocol & 0x40_0000 != 0 ==> call_ensures(
                Setup::reply::<M, E>,
                (next, SetupReply::ShmemConfig(Ok(config))),
                third,
            )
        },
        third matches SetupStep::Continue(next) ==> call_ensures(
            Setup::request,
            (&next,),
            third_request,
        ),
    ensures
        protocol & 0x40_0000 != 0 ==> {
            &&& second is Continue
            &&& second_request is GetShmemConfig
            &&& third is Continue <==> config.nregions == 1 && protocol & 0x1 != 0
            &&& third is Continue ==> third_request is GetQueueNum
        },
        protocol & 0x40_0000 == 0 ==> {
            &&& second is Continue <==> !params.dax_enabled && protocol & 0x1 != 0
            &&& second is Continue ==> second_request is GetQueueNum
        },
{
}

/// However a setup is led through the daemon's answers, each given when it is asked for, it ends as
/// `Fs::new` does on them. `setups` are the setups between the answers, the first included.
pub proof fn law_setup_ends_as_new_does<M, E>(
    params: FsParams,
    state: Option<State>,
    setups: Seq<Setup>,
    answers: BackendAnswers<E>,
    result: Result<(Fs<M>, Option<u64>), FsError<E>>,
)
    requires
        params.req_num_queues < usize::MAX,
        setups.len() > 0,
        call_ensures(Setup::new, (params, state), setups[0]),
        forall|i: int|
            0 <= i < setups.len() - 1 ==> call_ensures(
                Setup::reply::<M, E>,
                (#[trigger] setups[i], reply_at(answers, setups[i].spec_stage())),
                SetupStep::Continue(setups[i + 1]),
            ),
        call_ensures(
            Setup::reply::<M, E>,
            (setups.last(), reply_at(answers, setups.last().spec_stage())),
            SetupStep::Done(result),
        ),
    ensures
        setups.len() <= 4,
        new_result(params@, state, answers, result),
{
}

} // verus!
