use ripple::gateway::{ApiProtocol, CallContext};
use ripple::handlers::{GeneralChallengeImpl, OnRequest, PlayerImpl, PlayerProcessor, StreamingPlayerImpl};
use ripple::payload::ExtnResponse;
use ripple::player::{
    PlayerError, PlayerErrorResponse, PlayerLoadRequest, PlayerLoadRequestParams,
    PlayerLoadResponse, PlayerMediaSession, PlayerPlayRequest, PlayerRequest,
    PlayerRequestWithContext, StreamingPlayerCreateResponse, StreamingPlayerInstance,
    PLAYER_BASE_PROVIDER_CAPABILITY,
};
use ripple::provider::{
    ChallengeResponse, ExternalProviderResponse, FocusRequest, ListenRequest,
    ProviderRequestPayload, ProviderResponse, ProviderResponsePayload,
};
use ripple::provider_broker::{InvokeOutcome, ProviderBroker, ProviderBrokerRequest};
use ripple::gateway::CallerSession;

fn ctx(app: &str, session: &str) -> CallContext {
    CallContext::new(
        session.to_string(),
        "1".to_string(),
        app.to_string(),
        1,
        ApiProtocol::JsonRpc,
        "player.onRequestLoad".to_string(),
        None,
        true,
    )
}

fn load_params(player: &str) -> PlayerLoadRequestParams {
    PlayerLoadRequestParams {
        request: PlayerLoadRequest {
            player_id: player.to_string(),
            locator: "https://example.com/stream".to_string(),
            metadata: None,
            autoplay: Some(true),
        },
    }
}

fn dispatched(outcome: InvokeOutcome) -> (String, String, String) {
    match outcome {
        InvokeOutcome::Dispatched(ev) => (
            ev.provider.app_id.unwrap(),
            ev.event_name,
            ev.request.correlation_id,
        ),
        other => panic!("expected a dispatch, got {:?}", other),
    }
}

#[test]
fn later_registration_replaces_earlier_provider() {
    let mut broker: ProviderBroker<u32> = ProviderBroker::new();
    let listen = ListenRequest { listen: true };
    let r = PlayerImpl::on_request_load(&mut broker, ctx("provider_a", "sa"), listen);
    assert!(r.listening);
    assert_eq!(r.event, "player.onRequestLoad");
    let (app, event, first_id) = dispatched(PlayerImpl::load(&mut broker, ctx("caller", "sc"), load_params("player-1"), 1));
    assert_eq!(app, "provider_a");
    assert_eq!(event, "player.onRequestLoad");
    PlayerImpl::on_request_load(&mut broker, ctx("provider_b", "sb"), listen);
    let (app, _, second_id) = dispatched(PlayerImpl::load(&mut broker, ctx("caller", "sc"), load_params("player-1"), 2));
    assert_eq!(app, "provider_b");
    assert_ne!(first_id, second_id);
}

#[test]
fn correlation_ids_count_up_in_decimal() {
    let mut broker: ProviderBroker<u32> = ProviderBroker::new();
    PlayerImpl::on_request_play(&mut broker, ctx("provider", "s"), ListenRequest { listen: true });
    let mut ids = Vec::new();
    for k in 0..12u32 {
        let req = PlayerPlayRequest { player_id: "p".to_string() };
        let (_, event, id) = dispatched(PlayerImpl::play(&mut broker, ctx("caller", "c"), req, k));
        assert_eq!(event, "player.onRequestPlay");
        ids.push(id);
    }
    assert_eq!(ids[0], "0");
    assert_eq!(ids[9], "9");
    assert_eq!(ids[10], "10");
    assert_eq!(ids[11], "11");
}

#[test]
fn response_is_delivered_at_most_once() {
    let mut broker: ProviderBroker<u32> = ProviderBroker::new();
    PlayerImpl::on_request_load(&mut broker, ctx("provider", "s"), ListenRequest { listen: true });
    let (_, _, id) = dispatched(PlayerImpl::load(&mut broker, ctx("caller", "c"), load_params("p"), 99));
    let session = PlayerMediaSession { media_session_id: "m1".to_string() };
    let first = PlayerImpl::load_response(&mut broker, PlayerLoadResponse::new(id.clone(), session));
    let (tx, payload) = first.unwrap();
    assert_eq!(tx, 99);
    let result = PlayerImpl::load_result(Some(payload)).unwrap();
    assert_eq!(result.media_session_id, "m1");
    let again = PlayerLoadResponse::new(id, PlayerMediaSession { media_session_id: "m2".to_string() });
    assert!(PlayerImpl::load_response(&mut broker, again).is_none());
}

#[test]
fn unknown_correlation_id_is_dropped() {
    let mut broker: ProviderBroker<u32> = ProviderBroker::new();
    let resp = ProviderResponse {
        correlation_id: "nope".to_string(),
        result: ProviderResponsePayload::ChallengeResponse(ChallengeResponse { granted: true }),
    };
    assert!(broker.provider_response(resp).is_none());
}

#[test]
fn no_provider_drops_the_request() {
    let mut broker: ProviderBroker<u32> = ProviderBroker::new();
    let outcome = PlayerImpl::load(&mut broker, ctx("caller", "c"), load_params("p"), 5);
    assert!(matches!(outcome, InvokeOutcome::NoProvider));
    assert!(PlayerImpl::load_result(None).is_err());
    assert_eq!(PlayerImpl::load_result(None).unwrap_err().message, "Error returning back from player provider");
}

#[test]
fn unlisten_removes_the_provider() {
    let mut broker: ProviderBroker<u32> = ProviderBroker::new();
    PlayerImpl::on_request_stop(&mut broker, ctx("provider", "s"), ListenRequest { listen: true });
    let r = PlayerImpl::on_request_stop(&mut broker, ctx("someone", "x"), ListenRequest { listen: false });
    assert!(!r.listening);
    assert_eq!(r.event, "player.onRequestStop");
    let req = ripple::player::PlayerStopRequest { player_id: "p".to_string() };
    assert!(matches!(PlayerImpl::stop(&mut broker, ctx("caller", "c"), req, 1), InvokeOutcome::NoProvider));
}

#[test]
fn registrations_are_per_method() {
    let mut broker: ProviderBroker<u32> = ProviderBroker::new();
    PlayerImpl::on_request_load(&mut broker, ctx("provider", "s"), ListenRequest { listen: true });
    let req = PlayerPlayRequest { player_id: "p".to_string() };
    assert!(matches!(PlayerImpl::play(&mut broker, ctx("caller", "c"), req, 1), InvokeOutcome::NoProvider));
}

#[test]
fn wrong_kind_of_answer_is_an_error() {
    let answer = ProviderResponsePayload::PlayerPlay(PlayerMediaSession { media_session_id: "m".to_string() });
    let err = PlayerImpl::load_result(Some(answer)).unwrap_err();
    assert_eq!(err.message, "Invalid response back from provider");
}

#[test]
fn load_error_reaches_the_caller() {
    let mut broker: ProviderBroker<u32> = ProviderBroker::new();
    PlayerImpl::on_request_load(&mut broker, ctx("provider", "s"), ListenRequest { listen: true });
    let (_, _, id) = dispatched(PlayerImpl::load(&mut broker, ctx("caller", "c"), load_params("p"), 3));
    let err = PlayerErrorResponse::new(id, PlayerError { code: 7, message: "no".to_string() });
    let (tx, payload) = PlayerImpl::load_error(&mut broker, err).unwrap();
    assert_eq!(tx, 3);
    assert!(matches!(payload, ProviderResponsePayload::PlayerLoadError(ref e) if e.result.code == 7));
    assert!(PlayerImpl::load_result(Some(payload)).is_err());
}

#[test]
fn streaming_player_create_round_trip() {
    let mut broker: ProviderBroker<u32> = ProviderBroker::new();
    let r = StreamingPlayerImpl::on_request_streaming_player_create(&mut broker, ctx("sp", "s"), ListenRequest { listen: true });
    assert_eq!(r.event, "streamingplayer.onRequestCreate");
    let (app, _, id) = dispatched(StreamingPlayerImpl::streaming_player_create(&mut broker, ctx("caller", "c"), 4));
    assert_eq!(app, "sp");
    let instance = StreamingPlayerInstance { player_id: "pl".to_string(), window_id: "w".to_string() };
    let (tx, payload) = StreamingPlayerImpl::streaming_player_create_response(
        &mut broker,
        StreamingPlayerCreateResponse::new(id, instance),
    )
    .unwrap();
    assert_eq!(tx, 4);
    assert_eq!(StreamingPlayerImpl::streaming_player_create_result(Some(payload)).unwrap().window_id, "w");
}

#[test]
fn challenge_focus_and_response() {
    let mut broker: ProviderBroker<u32> = ProviderBroker::new();
    GeneralChallengeImpl::on_request_challenge(&mut broker, ctx("grant_ui", "g"), ListenRequest { listen: true });
    let handler = OnRequest::ack_challenge();
    let req = ProviderBrokerRequest {
        capability: handler.capability.clone(),
        method: handler.method.clone(),
        caller: CallerSession::from(ctx("caller", "c")),
        request: ProviderRequestPayload::Generic("{}".to_string()),
        tx: 8,
        app_id: None,
    };
    let (app, event, id) = dispatched(broker.invoke_method(req));
    assert_eq!(app, "grant_ui");
    assert_eq!(event, "acknowledgechallenge.onRequestChallenge");
    let focus = GeneralChallengeImpl::challenge_focus(&broker, ctx("grant_ui", "g"), FocusRequest { correlation_id: id.clone() });
    assert_eq!(focus, Some("grant_ui".to_string()));
    assert_eq!(
        GeneralChallengeImpl::challenge_focus(&broker, ctx("grant_ui", "g"), FocusRequest { correlation_id: "x".to_string() }),
        None
    );
    let resp = ExternalProviderResponse { correlation_id: id.clone(), result: ChallengeResponse { granted: true } };
    let (tx, payload) = GeneralChallengeImpl::challenge_response(&mut broker, resp).unwrap();
    assert_eq!(tx, 8);
    assert!(matches!(payload, ProviderResponsePayload::ChallengeResponse(ChallengeResponse { granted: true })));
    assert_eq!(
        GeneralChallengeImpl::challenge_focus(&broker, ctx("grant_ui", "g"), FocusRequest { correlation_id: id }),
        None
    );
}

#[test]
fn player_processor_answers_extensions() {
    let mut broker: ProviderBroker<u32> = ProviderBroker::new();
    PlayerImpl::on_request_load(&mut broker, ctx("provider", "s"), ListenRequest { listen: true });
    let msg = PlayerRequestWithContext {
        request: PlayerRequest::Load(load_params("p").request),
        call_ctx: ctx("extn", "e"),
    };
    let (_, _, id) = dispatched(PlayerProcessor::process_request(&mut broker, msg, 6));
    assert_eq!(id, "0");
    let ok = PlayerProcessor::response_for(Some(ProviderResponsePayload::PlayerLoad(PlayerMediaSession {
        media_session_id: "m".to_string(),
    })));
    assert!(matches!(ok, ExtnResponse::Player(_)));
    assert!(matches!(PlayerProcessor::response_for(None), ExtnResponse::Error(_)));
    assert_eq!(PLAYER_BASE_PROVIDER_CAPABILITY, "xrn:firebolt:capability:player:base");
}

#[test]
fn second_registration_takes_over_player_base_load() {
    let mut broker: ProviderBroker<u32> = ProviderBroker::new();
    let listen = ListenRequest { listen: true };
    let request = |tx: u32| ProviderBrokerRequest {
        capability: "player:base".to_string(),
        method: "load".to_string(),
        caller: CallerSession::from(ctx("caller", "c")),
        request: ProviderRequestPayload::Generic("{}".to_string()),
        tx,
        app_id: None,
    };
    broker.register_or_unregister_provider(
        "player:base".to_string(),
        "load".to_string(),
        "player.onRequestLoad",
        ctx("A", "sa"),
        listen,
    );
    let (app, _, _) = dispatched(broker.invoke_method(request(1)));
    assert_eq!(app, "A");
    broker.register_or_unregister_provider(
        "player:base".to_string(),
        "load".to_string(),
        "player.onRequestLoad",
        ctx("B", "sb"),
        listen,
    );
    let (app, _, _) = dispatched(broker.invoke_method(request(2)));
    assert_eq!(app, "B");
}
