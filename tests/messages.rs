use ripple::device::{string_to_bool, DistributorPingRequest, HdmiRequest};
use ripple::error::RippleError;
use ripple::field_checks::{
    check_date_time, check_language_code, check_language_code_list, check_opacity,
    check_timezone, pattern_matches, Patterns,
};
use ripple::contract::{DeviceContract, PlayerAdjective, RippleContract};
use ripple::gateway::{ApiProtocol, CallContext};
use ripple::player::{
    PlayerLoadRequest, PlayerMediaSession, PlayerProgress, PlayerProgressResponse,
    PlayerProvideProgress, PlayerProvideStatus, PlayerRequest, PlayerRequestWithContext,
    PlayerResponse, PlayerStatus, PlayerStatusRequest, PlayerStatusResponse, PlayerStatusState,
    StreamingPlayerCreateRequest,
};
use ripple::provider::{ProviderRequestPayload, ProviderResponsePayload};
use ripple::text::{split_on, u64_to_decimal};

#[test]
fn split_keeps_empty_pieces() {
    assert_eq!(split_on("a:b:c", ':'), vec!["a", "b", "c"]);
    assert_eq!(split_on("", ':'), vec![""]);
    assert_eq!(split_on(":x:", ':'), vec!["", "x", ""]);
    assert_eq!(split_on("é:ü", ':'), vec!["é", "ü"]);
}

#[test]
fn decimal_text() {
    assert_eq!(u64_to_decimal(0), "0");
    assert_eq!(u64_to_decimal(7), "7");
    assert_eq!(u64_to_decimal(1200), "1200");
    assert_eq!(u64_to_decimal(u64::MAX), "18446744073709551615");
}

#[test]
fn string_to_bool_reads_only_true_and_false() {
    assert_eq!(string_to_bool("true"), Ok(true));
    assert_eq!(string_to_bool("false"), Ok(false));
    assert_eq!(string_to_bool("False"), Err(RippleError::ParseError));
    assert_eq!(string_to_bool(""), Err(RippleError::ParseError));
}

#[test]
fn field_checks_follow_their_patterns() {
    assert_eq!(check_opacity(100).unwrap(), 100);
    assert_eq!(check_opacity(0).unwrap(), 0);
    assert!(check_opacity(101).is_err());
    assert!(pattern_matches(Patterns::Language, &"en".to_string()));
    assert!(!pattern_matches(Patterns::Language, &"eng".to_string()));
    assert_eq!(check_language_code("FR".to_string()).unwrap(), "FR");
    assert_eq!(
        check_language_code("f1".to_string()).unwrap_err().message,
        "Language code is not of the format specified in ISO 639"
    );
    assert_eq!(check_language_code_list(vec!["en".to_string(), "de".to_string()]).unwrap().len(), 2);
    assert!(check_language_code_list(vec!["en".to_string(), "deu".to_string()]).is_err());
    assert!(check_language_code_list(vec![]).is_ok());
    assert!(check_timezone("America/New_York".to_string()).is_ok());
    assert!(check_timezone("Europe/Paris;".to_string()).is_err());
    assert_eq!(Patterns::Timezone.as_str(), "^[-+_/ A-Za-z 0-9]*$");
}

#[test]
fn date_time_check_uses_api_format() {
    assert!(check_date_time("2023-05-01T10:20:30.123Z".to_string()).is_ok());
    assert!(check_date_time("2023-05-01 10:20:30".to_string()).is_err());
    assert!(check_date_time("2023-13-01T10:20:30.123Z".to_string()).is_err());
}

fn ctx() -> CallContext {
    CallContext::new(
        "s".to_string(),
        "r".to_string(),
        "a".to_string(),
        2,
        ApiProtocol::Extn,
        "m".to_string(),
        None,
        false,
    )
}

#[test]
fn player_requests_map_to_provider_methods() {
    let load = PlayerRequest::Load(PlayerLoadRequest {
        player_id: "p".to_string(),
        locator: "l".to_string(),
        metadata: Some(r#"{"k":"v"}"#.to_string()),
        autoplay: None,
    });
    assert_eq!(load.to_provider_method(), "load");
    match load.to_provider_request_payload() {
        ProviderRequestPayload::PlayerLoad(r) => {
            assert_eq!(r.locator, "l");
            assert_eq!(r.metadata.as_deref(), Some(r#"{"k":"v"}"#));
        }
        _ => panic!("wrong payload"),
    }
    let status = PlayerRequest::Status(PlayerStatusRequest { player_id: "p".to_string() });
    assert_eq!(status.to_provider_method(), "status");
    assert!(matches!(status.to_provider_request_payload(), ProviderRequestPayload::PlayerStatus(_)));
    let create = PlayerRequest::StreamingPlayerCreate(StreamingPlayerCreateRequest);
    assert_eq!(create.to_provider_method(), "create");
}

#[test]
fn player_responses_become_provider_responses() {
    let status = PlayerStatus {
        media_session_id: "m".to_string(),
        state: PlayerStatusState::Playing,
        blocked_reason: None,
    };
    let resp = PlayerStatusResponse::new("c1".to_string(), status).to_provider_response();
    assert_eq!(resp.correlation_id, "c1");
    assert!(matches!(resp.result, ProviderResponsePayload::PlayerStatus(ref s) if s.state == PlayerStatusState::Playing));
    let progress = PlayerProgress { speed: 1, start_position: 0, position: 5, end_position: 10, live_sync_time: None };
    let resp = PlayerProgressResponse::new("c2".to_string(), progress.clone()).to_provider_response();
    assert!(matches!(resp.result, ProviderResponsePayload::PlayerProgress(ref p) if p.position == 5));
    let pp = PlayerProvideProgress::new("p".to_string(), progress);
    assert_eq!(pp.progress.end_position, 10);
    let ps = PlayerProvideStatus::new(
        "p".to_string(),
        PlayerStatus { media_session_id: "m".to_string(), state: PlayerStatusState::Idle, blocked_reason: None },
    );
    assert_eq!(ps.player_id, "p");
}

#[test]
fn payloads_read_back_their_own_kind() {
    let hdmi = HdmiRequest::SetActiveInput("HDMI1".to_string());
    let back = HdmiRequest::get_from_payload(hdmi.get_extn_payload());
    assert!(matches!(back, Some(HdmiRequest::SetActiveInput(ref s)) if s == "HDMI1"));
    assert_eq!(HdmiRequest::contract(), RippleContract::Device(DeviceContract::Hdmi));
    let ping = DistributorPingRequest {};
    assert!(DistributorPingRequest::get_from_payload(ping.get_extn_payload()).is_some());
    assert!(DistributorPingRequest::get_from_payload(hdmi.get_extn_payload()).is_none());
    assert_eq!(ping.get_contract(), RippleContract::Ping);
    let with_ctx = PlayerRequestWithContext {
        request: PlayerRequest::Status(PlayerStatusRequest { player_id: "p".to_string() }),
        call_ctx: ctx(),
    };
    let back = PlayerRequestWithContext::get_from_payload(with_ctx.get_extn_payload()).unwrap();
    assert_eq!(back.call_ctx, ctx());
    assert_eq!(PlayerRequestWithContext::contract(), RippleContract::Player(PlayerAdjective::Base));
    let pr = PlayerResponse::Load(PlayerMediaSession { media_session_id: "m".to_string() });
    assert!(matches!(PlayerResponse::get_from_payload(pr.get_extn_payload()), Some(PlayerResponse::Load(_))));
    assert!(PlayerResponse::get_from_payload(ping.get_extn_payload()).is_none());
    let as_player = ProviderResponsePayload::PlayerPlay(PlayerMediaSession { media_session_id: "x".to_string() })
        .as_player_response();
    assert!(matches!(as_player, Some(PlayerResponse::Play(_))));
}
