use vstd::prelude::*;

use crate::device::{GetAvailableInputsResponse, HdmiRequest};
use crate::error::{RippleError, RpcError};
use crate::gateway::{CallContext, CallerSession};
use crate::payload::ExtnResponse;
use crate::player::{
    provider_method_of, provider_payload_of, PlayerErrorResponse, PlayerLoadRequestParams,
    PlayerLoadResponse, PlayerMediaSession, PlayerPlayRequest, PlayerPlayResponse, PlayerProgress,
    PlayerProgressRequest, PlayerProgressResponse, PlayerRequest, PlayerRequestWithContext,
    PlayerStatus, PlayerStatusRequest, PlayerStatusResponse, PlayerStopRequest,
    PlayerStopResponse, StreamingPlayerCreateRequest, StreamingPlayerCreateResponse,
    StreamingPlayerInstance, PLAYER_BASE_PROVIDER_CAPABILITY, PLAYER_LOAD_EVENT,
    PLAYER_PLAY_EVENT, PLAYER_PROGRESS_EVENT, PLAYER_STATUS_EVENT, PLAYER_STOP_EVENT,
    PLAYER_STREAMING_PROVIDER_CAPABILITY, STREAMING_PLAYER_CREATE_EVENT,
};
use crate::provider::{
    ChallengeError, ChallengeResponse, ExternalProviderResponse, FocusRequest, ListenRequest,
    ListenerResponse, ProviderResponse, ProviderResponsePayload, ACK_CHALLENGE_CAPABILITY,
    ACK_CHALLENGE_EVENT,
};
use crate::provider_broker::{
    after_register, caller_of, invoked, response_target, InvokeOutcome, ProviderBroker,
    ProviderBrokerRequest,
};

verus! {

/// The message of the error a caller gets when the provider's answer is of the wrong kind.
pub open spec fn invalid_response_text() -> Seq<char> {
    "Invalid response back from provider"@
}

/// The message of the error a caller gets when no answer came back.
pub open spec fn no_response_text() -> Seq<char> {
    "Error returning back from player provider"@
}

fn invalid_response() -> (r: RpcError)
    ensures
        r.message@ == invalid_response_text(),
{
    RpcError { message: String::from_str("Invalid response back from provider") }
}

fn no_response() -> (r: RpcError)
    ensures
        r.message@ == no_response_text(),
{
    RpcError { message: String::from_str("Error returning back from player provider") }
}

/// The registration part of every `onRequest...` RPC: the caller becomes (or
/// stops being) the provider of `capability`/`method`, and learns whether it
/// is now listening to `event`.
pub fn register_listener<T>(
    broker: &mut ProviderBroker<T>,
    capability: &str,
    method: &str,
    event: &str,
    ctx: CallContext,
    request: ListenRequest,
) -> (r: ListenerResponse)
    requires
        old(broker).wf(),
    ensures
        final(broker).wf(),
        final(broker).registrations() == after_register(
            old(broker).registrations(),
            (capability@, method@),
            event@,
            ctx,
            request.listen,
        ),
        final(broker).pending_requests() == old(broker).pending_requests(),
        final(broker).next_correlation == old(broker).next_correlation,
        r.listening == request.listen,
        r.event@ == event@,
{
    let listen = request.listen;
    broker.register_or_unregister_provider(
        capability.to_owned(),
        method.to_owned(),
        event,
        ctx,
        request,
    );
    ListenerResponse { listening: listen, event: event.to_owned() }
}

/// Hands a provider's answer to the broker; see `ProviderBroker::provider_response`.
pub fn deliver_response<T>(broker: &mut ProviderBroker<T>, response: ProviderResponse) -> (r:
    Option<(T, ProviderResponsePayload)>)
    requires
        old(broker).wf(),
    ensures
        final(broker).wf(),
        final(broker).registrations() == old(broker).registrations(),
        final(broker).next_correlation == old(broker).next_correlation,
        final(broker).pending_requests() == old(broker).pending_requests().remove(
            response.correlation_id@,
        ),
        match response_target(old(broker).pending_requests(), response.correlation_id@) {
            Some(tx) => r == Some((tx, response.result)),
            None => r is None,
        },
{
    broker.provider_response(response)
}

/// The player RPCs: providers register for each player method, callers'
/// requests are routed to them, and their answers come back through the
/// `...Response` and `...Error` calls.
pub struct PlayerImpl;

impl PlayerImpl {
    /// Sends a player request to the provider of `capability` for the
    /// request's method; `tx` receives the answer.
    pub fn call_player_provider<T>(
        broker: &mut ProviderBroker<T>,
        request: PlayerRequestWithContext,
        capability: &str,
        tx: T,
    ) -> (r: InvokeOutcome)
        requires
            old(broker).wf(),
        ensures
            final(broker).wf(),
            invoked(
                *old(broker),
                *final(broker),
                capability@,
                provider_method_of(request.request),
                caller_of(request.call_ctx),
                provider_payload_of(request.request),
                tx,
                r,
            ),
    {
        let method = request.request.to_provider_method().to_owned();
        let payload = request.request.to_provider_request_payload();
        let pr_msg = ProviderBrokerRequest {
            capability: capability.to_owned(),
            method,
            caller: CallerSession::from(request.call_ctx),
            request: payload,
            tx,
            app_id: None,
        };
        broker.invoke_method(pr_msg)
    }

    pub fn on_request_load<T>(broker: &mut ProviderBroker<T>, ctx: CallContext, request: ListenRequest) -> (r: ListenerResponse)
        requires
            old(broker).wf(),
        ensures
            final(broker).wf(),
            final(broker).registrations() == after_register(
                old(broker).registrations(),
                (PLAYER_BASE_PROVIDER_CAPABILITY@, "load"@),
                PLAYER_LOAD_EVENT@,
                ctx,
                request.listen,
            ),
            final(broker).pending_requests() == old(broker).pending_requests(),
            final(broker).next_correlation == old(broker).next_correlation,
            r.listening == request.listen,
            r.event@ == PLAYER_LOAD_EVENT@,
    {
        register_listener(broker, PLAYER_BASE_PROVIDER_CAPABILITY, "load", PLAYER_LOAD_EVENT, ctx, request)
    }

    pub fn load<T>(broker: &mut ProviderBroker<T>, ctx: CallContext, request: PlayerLoadRequestParams, tx: T) -> (r: InvokeOutcome)
        requires
            old(broker).wf(),
        ensures
            final(broker).wf(),
            invoked(
                *old(broker),
                *final(broker),
                PLAYER_BASE_PROVIDER_CAPABILITY@,
                "load"@,
                caller_of(ctx),
                provider_payload_of(PlayerRequest::Load(request.request)),
                tx,
                r,
            ),
    {
        let req = PlayerRequestWithContext { request: PlayerRequest::Load(request.request), call_ctx: ctx };
        Self::call_player_provider(broker, req, PLAYER_BASE_PROVIDER_CAPABILITY, tx)
    }

    /// What the caller of `load` receives once the provider's answer, if
    /// any, has come back.
    pub fn load_result(answer: Option<ProviderResponsePayload>) -> (r: Result<PlayerMediaSession, RpcError>)
        ensures
            match answer {
                Some(ProviderResponsePayload::PlayerLoad(s)) => r == Ok::<PlayerMediaSession, RpcError>(s),
                Some(_) => r matches Err(e) && e.message@ == invalid_response_text(),
                None => r matches Err(e) && e.message@ == no_response_text(),
            },
    {
        match answer {
            Some(ProviderResponsePayload::PlayerLoad(s)) => Ok(s),
            Some(_) => Err(invalid_response()),
            None => Err(no_response()),
        }
    }

    pub fn load_response<T>(broker: &mut ProviderBroker<T>, resp: PlayerLoadResponse) -> (r: Option<(T, ProviderResponsePayload)>)
        requires
            old(broker).wf(),
        ensures
            final(broker).wf(),
            final(broker).registrations() == old(broker).registrations(),
            final(broker).next_correlation == old(broker).next_correlation,
            final(broker).pending_requests() == old(broker).pending_requests().remove(resp.correlation_id@),
            match response_target(old(broker).pending_requests(), resp.correlation_id@) {
                Some(tx) => r == Some((tx, ProviderResponsePayload::PlayerLoad(resp.result))),
                None => r is None,
            },
    {
        deliver_response(broker, resp.to_provider_response())
    }

    pub fn load_error<T>(broker: &mut ProviderBroker<T>, resp: PlayerErrorResponse) -> (r: Option<(T, ProviderResponsePayload)>)
        requires
            old(broker).wf(),
        ensures
            final(broker).wf(),
            final(broker).registrations() == old(broker).registrations(),
            final(broker).next_correlation == old(broker).next_correlation,
            final(broker).pending_requests() == old(broker).pending_requests().remove(resp.correlation_id@),
            match response_target(old(broker).pending_requests(), resp.correlation_id@) {
                Some(tx) => r == Some((tx, ProviderResponsePayload::PlayerLoadError(resp))),
                None => r is None,
            },
    {
        deliver_response(broker, resp.to_provider_response())
    }

    pub fn on_request_play<T>(broker: &mut ProviderBroker<T>, ctx: CallContext, request: ListenRequest) -> (r: ListenerResponse)
        requires
            old(broker).wf(),
        ensures
            final(broker).wf(),
            final(broker).registrations() == after_register(
                old(broker).registrations(),
                (PLAYER_BASE_PROVIDER_CAPABILITY@, "play"@),
                PLAYER_PLAY_EVENT@,
                ctx,
                request.listen,
            ),
            final(broker).pending_requests() == old(broker).pending_requests(),
            final(broker).next_correlation == old(broker).next_correlation,
            r.listening == request.listen,
            r.event@ == PLAYER_PLAY_EVENT@,
    {
        register_listener(broker, PLAYER_BASE_PROVIDER_CAPABILITY, "play", PLAYER_PLAY_EVENT, ctx, request)
    }

    pub fn play<T>(broker: &mut ProviderBroker<T>, ctx: CallContext, request: PlayerPlayRequest, tx: T) -> (r: InvokeOutcome)
        requires
            old(broker).wf(),
        ensures
            final(broker).wf(),
            invoked(
                *old(broker),
                *final(broker),
                PLAYER_BASE_PROVIDER_CAPABILITY@,
                "play"@,
                caller_of(ctx),
                provider_payload_of(PlayerRequest::Play(request)),
                tx,
                r,
            ),
    {
        let req = PlayerRequestWithContext { request: PlayerRequest::Play(request), call_ctx: ctx };
        Self::call_player_provider(broker, req, PLAYER_BASE_PROVIDER_CAPABILITY, tx)
    }

    pub fn play_result(answer: Option<ProviderResponsePayload>) -> (r: Result<PlayerMediaSession, RpcError>)
        ensures
            match answer {
                Some(ProviderResponsePayload::PlayerPlay(s)) => r == Ok::<PlayerMediaSession, RpcError>(s),
                Some(_) => r matches Err(e) && e.message@ == invalid_response_text(),
                None => r matches Err(e) && e.message@ == no_response_text(),
            },
    {
        match answer {
            Some(ProviderResponsePayload::PlayerPlay(s)) => Ok(s),
            Some(_) => Err(invalid_response()),
            None => Err(no_response()),
        }
    }

    pub fn play_response<T>(broker: &mut ProviderBroker<T>, resp: PlayerPlayResponse) -> (r: Option<(T, ProviderResponsePayload)>)
        requires
            old(broker).wf(),
        ensures
            final(broker).wf(),
            final(broker).registrations() == old(broker).registrations(),
            final(broker).next_correlation == old(broker).next_correlation,
            final(broker).pending_requests() == old(broker).pending_requests().remove(resp.correlation_id@),
            match response_target(old(broker).pending_requests(), resp.correlation_id@) {
                Some(tx) => r == Some((tx, ProviderResponsePayload::PlayerPlay(resp.result))),
                None => r is None,
            },
    {
        deliver_response(broker, resp.to_provider_response())
    }

    pub fn play_error<T>(broker: &mut ProviderBroker<T>, resp: PlayerErrorResponse) -> (r: Option<(T, ProviderResponsePayload)>)
        requires
            old(broker).wf(),
        ensures
            final(broker).wf(),
            final(broker).registrations() == old(broker).registrations(),
            final(broker).next_correlation == old(broker).next_correlation,
            final(broker).pending_requests() == old(broker).pending_requests().remove(resp.correlation_id@),
            match response_target(old(broker).pending_requests(), resp.correlation_id@) {
                Some(tx) => r == Some((tx, ProviderResponsePayload::PlayerLoadError(resp))),
                None => r is None,
            },
    {
        deliver_response(broker, resp.to_provider_response())
    }

    pub fn on_request_stop<T>(broker: &mut ProviderBroker<T>, ctx: CallContext, request: ListenRequest) -> (r: ListenerResponse)
        requires
            old(broker).wf(),
        ensures
            final(broker).wf(),
            final(broker).registrations() == after_register(
                old(broker).registrations(),
                (PLAYER_BASE_PROVIDER_CAPABILITY@, "stop"@),
                PLAYER_STOP_EVENT@,
                ctx,
                request.listen,
            ),
            final(broker).pending_requests() == old(broker).pending_requests(),
            final(broker).next_correlation == old(broker).next_correlation,
            r.listening == request.listen,
            r.event@ == PLAYER_STOP_EVENT@,
    {
        register_listener(broker, PLAYER_BASE_PROVIDER_CAPABILITY, "stop", PLAYER_STOP_EVENT, ctx, request)
    }

    pub fn stop<T>(broker: &mut ProviderBroker<T>, ctx: CallContext, request: PlayerStopRequest, tx: T) -> (r: InvokeOutcome)
        requires
            old(broker).wf(),
        ensures
            final(broker).wf(),
            invoked(
                *old(broker),
                *final(broker),
                PLAYER_BASE_PROVIDER_CAPABILITY@,
                "stop"@,
                caller_of(ctx),
                provider_payload_of(PlayerRequest::Stop(request)),
                tx,
                r,
            ),
    {
        let req = PlayerRequestWithContext { request: PlayerRequest::Stop(request), call_ctx: ctx };
        Self::call_player_provider(broker, req, PLAYER_BASE_PROVIDER_CAPABILITY, tx)
    }

    pub fn stop_result(answer: Option<ProviderResponsePayload>) -> (r: Result<PlayerMediaSession, RpcError>)
        ensures
            match answer {
                Some(ProviderResponsePayload::PlayerStop(s)) => r == Ok::<PlayerMediaSession, RpcError>(s),
                Some(_) => r matches Err(e) && e.message@ == invalid_response_text(),
                None => r matches Err(e) && e.message@ == no_response_text(),
            },
    {
        match answer {
            Some(ProviderResponsePayload::PlayerStop(s)) => Ok(s),
            Some(_) => Err(invalid_response()),
            None => Err(no_response()),
        }
    }

    pub fn stop_response<T>(broker: &mut ProviderBroker<T>, resp: PlayerStopResponse) -> (r: Option<(T, ProviderResponsePayload)>)
        requires
            old(broker).wf(),
        ensures
            final(broker).wf(),
            final(broker).registrations() == old(broker).registrations(),
            final(broker).next_correlation == old(broker).next_correlation,
            final(broker).pending_requests() == old(broker).pending_requests().remove(resp.correlation_id@),
            match response_target(old(broker).pending_requests(), resp.correlation_id@) {
                Some(tx) => r == Some((tx, ProviderResponsePayload::PlayerStop(resp.result))),
                None => r is None,
            },
    {
        deliver_response(broker, resp.to_provider_response())
    }

    pub fn stop_error<T>(broker: &mut ProviderBroker<T>, resp: PlayerErrorResponse) -> (r: Option<(T, ProviderResponsePayload)>)
        requires
            old(broker).wf(),
        ensures
            final(broker).wf(),
            final(broker).registrations() == old(broker).registrations(),
            final(broker).next_correlation == old(broker).next_correlation,
            final(broker).pending_requests() == old(broker).pending_requests().remove(resp.correlation_id@),
            match response_target(old(broker).pending_requests(), resp.correlation_id@) {
                Some(tx) => r == Some((tx, ProviderResponsePayload::PlayerLoadError(resp))),
                None => r is None,
            },
    {
        deliver_response(broker, resp.to_provider_response())
    }

    pub fn on_request_status<T>(broker: &mut ProviderBroker<T>, ctx: CallContext, request: ListenRequest) -> (r: ListenerResponse)
        requires
            old(broker).wf(),
        ensures
            final(broker).wf(),
            final(broker).registrations() == after_register(
                old(broker).registrations(),
                (PLAYER_BASE_PROVIDER_CAPABILITY@, "status"@),
                PLAYER_STATUS_EVENT@,
                ctx,
                request.listen,
            ),
            final(broker).pending_requests() == old(broker).pending_requests(),
            final(broker).next_correlation == old(broker).next_correlation,
            r.listening == request.listen,
            r.event@ == PLAYER_STATUS_EVENT@,
    {
        register_listener(broker, PLAYER_BASE_PROVIDER_CAPABILITY, "status", PLAYER_STATUS_EVENT, ctx, request)
    }

    pub fn status<T>(broker: &mut ProviderBroker<T>, ctx: CallContext, request: PlayerStatusRequest, tx: T) -> (r: InvokeOutcome)
        requires
            old(broker).wf(),
        ensures
            final(broker).wf(),
            invoked(
                *old(broker),
                *final(broker),
                PLAYER_BASE_PROVIDER_CAPABILITY@,
                "status"@,
                caller_of(ctx),
                provider_payload_of(PlayerRequest::Status(request)),
                tx,
                r,
            ),
    {
        let req = PlayerRequestWithContext { request: PlayerRequest::Status(request), call_ctx: ctx };
        Self::call_player_provider(broker, req, PLAYER_BASE_PROVIDER_CAPABILITY, tx)
    }

    pub fn status_result(answer: Option<ProviderResponsePayload>) -> (r: Result<PlayerStatus, RpcError>)
        ensures
            match answer {
                Some(ProviderResponsePayload::PlayerStatus(s)) => r == Ok::<PlayerStatus, RpcError>(s),
                Some(_) => r matches Err(e) && e.message@ == invalid_response_text(),
                None => r matches Err(e) && e.message@ == no_response_text(),
            },
    {
        match answer {
            Some(ProviderResponsePayload::PlayerStatus(s)) => Ok(s),
            Some(_) => Err(invalid_response()),
            None => Err(no_response()),
        }
    }

    pub fn status_response<T>(broker: &mut ProviderBroker<T>, resp: PlayerStatusResponse) -> (r: Option<(T, ProviderResponsePayload)>)
        requires
            old(broker).wf(),
        ensures
            final(broker).wf(),
            final(broker).registrations() == old(broker).registrations(),
            final(broker).next_correlation == old(broker).next_correlation,
            final(broker).pending_requests() == old(broker).pending_requests().remove(resp.correlation_id@),
            match response_target(old(broker).pending_requests(), resp.correlation_id@) {
                Some(tx) => r == Some((tx, ProviderResponsePayload::PlayerStatus(resp.result))),
                None => r is None,
            },
    {
        deliver_response(broker, resp.to_provider_response())
    }

    pub fn status_error<T>(broker: &mut ProviderBroker<T>, resp: PlayerErrorResponse) -> (r: Option<(T, ProviderResponsePayload)>)
        requires
            old(broker).wf(),
        ensures
            final(broker).wf(),
            final(broker).registrations() == old(broker).registrations(),
            final(broker).next_correlation == old(broker).next_correlation,
            final(broker).pending_requests() == old(broker).pending_requests().remove(resp.correlation_id@),
            match response_target(old(broker).pending_requests(), resp.correlation_id@) {
                Some(tx) => r == Some((tx, ProviderResponsePayload::PlayerLoadError(resp))),
                None => r is None,
            },
    {
        deliver_response(broker, resp.to_provider_response())
    }

    pub fn on_request_progress<T>(broker: &mut ProviderBroker<T>, ctx: CallContext, request: ListenRequest) -> (r: ListenerResponse)
        requires
            old(broker).wf(),
        ensures
            final(broker).wf(),
            final(broker).registrations() == after_register(
                old(broker).registrations(),
                (PLAYER_BASE_PROVIDER_CAPABILITY@, "progress"@),
                PLAYER_PROGRESS_EVENT@,
                ctx,
                request.listen,
            ),
            final(broker).pending_requests() == old(broker).pending_requests(),
            final(broker).next_correlation == old(broker).next_correlation,
            r.listening == request.listen,
            r.event@ == PLAYER_PROGRESS_EVENT@,
    {
        register_listener(broker, PLAYER_BASE_PROVIDER_CAPABILITY, "progress", PLAYER_PROGRESS_EVENT, ctx, request)
    }

    pub fn progress<T>(broker: &mut ProviderBroker<T>, ctx: CallContext, request: PlayerProgressRequest, tx: T) -> (r: InvokeOutcome)
        requires
            old(broker).wf(),
        ensures
            final(broker).wf(),
            invoked(
                *old(broker),
                *final(broker),
                PLAYER_BASE_PROVIDER_CAPABILITY@,
                "progress"@,
                caller_of(ctx),
                provider_payload_of(PlayerRequest::Progress(request)),
                tx,
                r,
            ),
    {
        let req = PlayerRequestWithContext { request: PlayerRequest::Progress(request), call_ctx: ctx };
        Self::call_player_provider(broker, req, PLAYER_BASE_PROVIDER_CAPABILITY, tx)
    }

    pub fn progress_result(answer: Option<ProviderResponsePayload>) -> (r: Result<PlayerProgress, RpcError>)
        ensures
            match answer {
                Some(ProviderResponsePayload::PlayerProgress(s)) => r == Ok::<PlayerProgress, RpcError>(s),
                Some(_) => r matches Err(e) && e.message@ == invalid_response_text(),
                None => r matches Err(e) && e.message@ == no_response_text(),
            },
    {
        match answer {
            Some(ProviderResponsePayload::PlayerProgress(s)) => Ok(s),
            Some(_) => Err(invalid_response()),
            None => Err(no_response()),
        }
    }

    pub fn progress_response<T>(broker: &mut ProviderBroker<T>, resp: PlayerProgressResponse) -> (r: Option<(T, ProviderResponsePayload)>)
        requires
            old(broker).wf(),
        ensures
            final(broker).wf(),
            final(broker).registrations() == old(broker).registrations(),
            final(broker).next_correlation == old(broker).next_correlation,
            final(broker).pending_requests() == old(broker).pending_requests().remove(resp.correlation_id@),
            match response_target(old(broker).pending_requests(), resp.correlation_id@) {
                Some(tx) => r == Some((tx, ProviderResponsePayload::PlayerProgress(resp.result))),
                None => r is None,
            },
    {
        deliver_response(broker, resp.to_provider_response())
    }

    pub fn progress_error<T>(broker: &mut ProviderBroker<T>, resp: PlayerErrorResponse) -> (r: Option<(T, ProviderResponsePayload)>)
        requires
            old(broker).wf(),
        ensures
            final(broker).wf(),
            final(broker).registrations() == old(broker).registrations(),
            final(broker).next_correlation == old(broker).next_correlation,
            final(broker).pending_requests() == old(broker).pending_requests().remove(resp.correlation_id@),
            match response_target(old(broker).pending_requests(), resp.correlation_id@) {
                Some(tx) => r == Some((tx, ProviderResponsePayload::PlayerLoadError(resp))),
                None => r is None,
            },
    {
        deliver_response(broker, resp.to_provider_response())
    }
}

/// The streaming player RPCs: a provider registers to create streaming
/// players, and callers ask it for one.
pub struct StreamingPlayerImpl;

impl StreamingPlayerImpl {
    pub fn on_request_streaming_player_create<T>(broker: &mut ProviderBroker<T>, ctx: CallContext, request: ListenRequest) -> (r: ListenerResponse)
        requires
            old(broker).wf(),
        ensures
            final(broker).wf(),
            final(broker).registrations() == after_register(
                old(broker).registrations(),
                (PLAYER_STREAMING_PROVIDER_CAPABILITY@, "create"@),
                STREAMING_PLAYER_CREATE_EVENT@,
                ctx,
                request.listen,
            ),
            final(broker).pending_requests() == old(broker).pending_requests(),
            final(broker).next_correlation == old(broker).next_correlation,
            r.listening == request.listen,
            r.event@ == STREAMING_PLAYER_CREATE_EVENT@,
    {
        register_listener(
            broker,
            PLAYER_STREAMING_PROVIDER_CAPABILITY,
            "create",
            STREAMING_PLAYER_CREATE_EVENT,
            ctx,
            request,
        )
    }

    pub fn streaming_player_create<T>(broker: &mut ProviderBroker<T>, ctx: CallContext, tx: T) -> (r: InvokeOutcome)
        requires
            old(broker).wf(),
        ensures
            final(broker).wf(),
            invoked(
                *old(broker),
                *final(broker),
                PLAYER_STREAMING_PROVIDER_CAPABILITY@,
                "create"@,
                caller_of(ctx),
                provider_payload_of(PlayerRequest::StreamingPlayerCreate(StreamingPlayerCreateRequest)),
                tx,
                r,
            ),
    {
        let req = PlayerRequestWithContext {
            request: PlayerRequest::StreamingPlayerCreate(StreamingPlayerCreateRequest),
            call_ctx: ctx,
        };
        PlayerImpl::call_player_provider(broker, req, PLAYER_STREAMING_PROVIDER_CAPABILITY, tx)
    }

    pub fn streaming_player_create_result(answer: Option<ProviderResponsePayload>) -> (r: Result<StreamingPlayerInstance, RpcError>)
        ensures
            match answer {
                Some(ProviderResponsePayload::StreamingPlayerCreate(s)) => r == Ok::<StreamingPlayerInstance, RpcError>(s),
                Some(_) => r matches Err(e) && e.message@ == invalid_response_text(),
                None => r matches Err(e) && e.message@ == no_response_text(),
            },
    {
        match answer {
            Some(ProviderResponsePayload::StreamingPlayerCreate(s)) => Ok(s),
            Some(_) => Err(invalid_response()),
            None => Err(no_response()),
        }
    }

    pub fn streaming_player_create_response<T>(broker: &mut ProviderBroker<T>, resp: StreamingPlayerCreateResponse) -> (r: Option<(T, ProviderResponsePayload)>)
        requires
            old(broker).wf(),
        ensures
            final(broker).wf(),
            final(broker).registrations() == old(broker).registrations(),
            final(broker).next_correlation == old(broker).next_correlation,
            final(broker).pending_requests() == old(broker).pending_requests().remove(resp.correlation_id@),
            match response_target(old(broker).pending_requests(), resp.correlation_id@) {
                Some(tx) => r == Some((tx, ProviderResponsePayload::StreamingPlayerCreate(resp.result))),
                None => r is None,
            },
    {
        deliver_response(broker, resp.to_provider_response())
    }

    pub fn streaming_player_create_error<T>(broker: &mut ProviderBroker<T>, resp: PlayerErrorResponse) -> (r: Option<(T, ProviderResponsePayload)>)
        requires
            old(broker).wf(),
        ensures
            final(broker).wf(),
            final(broker).registrations() == old(broker).registrations(),
            final(broker).next_correlation == old(broker).next_correlation,
            final(broker).pending_requests() == old(broker).pending_requests().remove(resp.correlation_id@),
            match response_target(old(broker).pending_requests(), resp.correlation_id@) {
                Some(tx) => r == Some((tx, ProviderResponsePayload::PlayerLoadError(resp))),
                None => r is None,
            },
    {
        deliver_response(broker, resp.to_provider_response())
    }
}

/// One capability that apps provide through the broker, described by data:
/// the capability, the provider method that serves it, and the event through
/// which providers receive requests. It stands for each such family of RPCs.
#[derive(Debug)]
pub struct OnRequest {
    pub capability: String,
    pub method: String,
    pub event: String,
}

impl OnRequest {
    /// The acknowledge-challenge capability.
    pub fn ack_challenge() -> (r: OnRequest)
        ensures
            r.capability@ == ACK_CHALLENGE_CAPABILITY@,
            r.method@ == "challenge"@,
            r.event@ == ACK_CHALLENGE_EVENT@,
    {
        OnRequest {
            capability: ACK_CHALLENGE_CAPABILITY.to_owned(),
            method: String::from_str("challenge"),
            event: ACK_CHALLENGE_EVENT.to_owned(),
        }
    }

    pub fn on_request<T>(&self, broker: &mut ProviderBroker<T>, ctx: CallContext, request: ListenRequest) -> (r: ListenerResponse)
        requires
            old(broker).wf(),
        ensures
            final(broker).wf(),
            final(broker).registrations() == after_register(
                old(broker).registrations(),
                (self.capability@, self.method@),
                self.event@,
                ctx,
                request.listen,
            ),
            final(broker).pending_requests() == old(broker).pending_requests(),
            final(broker).next_correlation == old(broker).next_correlation,
            r.listening == request.listen,
            r.event@ == self.event@,
    {
        register_listener(broker, self.capability.as_str(), self.method.as_str(), self.event.as_str(), ctx, request)
    }

    /// A provider's answer for this capability.
    pub fn response<T>(&self, broker: &mut ProviderBroker<T>, resp: ExternalProviderResponse<ChallengeResponse>) -> (r: Option<(T, ProviderResponsePayload)>)
        requires
            old(broker).wf(),
        ensures
            final(broker).wf(),
            final(broker).registrations() == old(broker).registrations(),
            final(broker).next_correlation == old(broker).next_correlation,
            final(broker).pending_requests() == old(broker).pending_requests().remove(resp.correlation_id@),
            match response_target(old(broker).pending_requests(), resp.correlation_id@) {
                Some(tx) => r == Some((tx, ProviderResponsePayload::ChallengeResponse(resp.result))),
                None => r is None,
            },
    {
        deliver_response(
            broker,
            ProviderResponse {
                correlation_id: resp.correlation_id,
                result: ProviderResponsePayload::ChallengeResponse(resp.result),
            },
        )
    }

    /// A provider's refusal for this capability.
    pub fn error<T>(&self, broker: &mut ProviderBroker<T>, resp: ExternalProviderResponse<ChallengeError>) -> (r: Option<(T, ProviderResponsePayload)>)
        requires
            old(broker).wf(),
        ensures
            final(broker).wf(),
            final(broker).registrations() == old(broker).registrations(),
            final(broker).next_correlation == old(broker).next_correlation,
            final(broker).pending_requests() == old(broker).pending_requests().remove(resp.correlation_id@),
            match response_target(old(broker).pending_requests(), resp.correlation_id@) {
                Some(tx) => r == Some((tx, ProviderResponsePayload::ChallengeError(resp.result))),
                None => r is None,
            },
    {
        deliver_response(
            broker,
            ProviderResponse {
                correlation_id: resp.correlation_id,
                result: ProviderResponsePayload::ChallengeError(resp.result),
            },
        )
    }

    /// The app to bring to the foreground, if the provider asks for focus
    /// while it serves a request of this capability.
    pub fn focus<T>(&self, broker: &ProviderBroker<T>, ctx: CallContext, request: FocusRequest) -> (r: Option<String>)
        requires
            broker.wf(),
        ensures
            r is Some <==> broker.pending_requests().contains_key(request.correlation_id@)
                && broker.pending_requests()[request.correlation_id@].capability == self.capability@,
            r matches Some(app) ==> app == ctx.app_id,
    {
        broker.focus(ctx, self.capability.clone(), request)
    }
}

/// The general acknowledge-challenge RPCs.
pub struct GeneralChallengeImpl;

impl GeneralChallengeImpl {
    pub fn on_request_challenge<T>(broker: &mut ProviderBroker<T>, ctx: CallContext, request: ListenRequest) -> (r: ListenerResponse)
        requires
            old(broker).wf(),
        ensures
            final(broker).wf(),
            final(broker).registrations() == after_register(
                old(broker).registrations(),
                (ACK_CHALLENGE_CAPABILITY@, "challenge"@),
                ACK_CHALLENGE_EVENT@,
                ctx,
                request.listen,
            ),
            final(broker).pending_requests() == old(broker).pending_requests(),
            final(broker).next_correlation == old(broker).next_correlation,
            r.listening == request.listen,
            r.event@ == ACK_CHALLENGE_EVENT@,
    {
        OnRequest::ack_challenge().on_request(broker, ctx, request)
    }

    pub fn challenge_response<T>(broker: &mut ProviderBroker<T>, resp: ExternalProviderResponse<ChallengeResponse>) -> (r: Option<(T, ProviderResponsePayload)>)
        requires
            old(broker).wf(),
        ensures
            final(broker).wf(),
            final(broker).registrations() == old(broker).registrations(),
            final(broker).next_correlation == old(broker).next_correlation,
            final(broker).pending_requests() == old(broker).pending_requests().remove(resp.correlation_id@),
            match response_target(old(broker).pending_requests(), resp.correlation_id@) {
                Some(tx) => r == Some((tx, ProviderResponsePayload::ChallengeResponse(resp.result))),
                None => r is None,
            },
    {
        OnRequest::ack_challenge().response(broker, resp)
    }

    pub fn challenge_error<T>(broker: &mut ProviderBroker<T>, resp: ExternalProviderResponse<ChallengeError>) -> (r: Option<(T, ProviderResponsePayload)>)
        requires
            old(broker).wf(),
        ensures
            final(broker).wf(),
            final(broker).registrations() == old(broker).registrations(),
            final(broker).next_correlation == old(broker).next_correlation,
            final(broker).pending_requests() == old(broker).pending_requests().remove(resp.correlation_id@),
            match response_target(old(broker).pending_requests(), resp.correlation_id@) {
                Some(tx) => r == Some((tx, ProviderResponsePayload::ChallengeError(resp.result))),
                None => r is None,
            },
    {
        OnRequest::ack_challenge().error(broker, resp)
    }

    pub fn challenge_focus<T>(broker: &ProviderBroker<T>, ctx: CallContext, request: FocusRequest) -> (r: Option<String>)
        requires
            broker.wf(),
        ensures
            r is Some <==> broker.pending_requests().contains_key(request.correlation_id@)
                && broker.pending_requests()[request.correlation_id@].capability == ACK_CHALLENGE_CAPABILITY@,
            r matches Some(app) ==> app == ctx.app_id,
    {
        OnRequest::ack_challenge().focus(broker, ctx, request)
    }
}

/// Serves player requests that come from extensions rather than from apps:
/// the request goes to the player provider, and the extension is answered
/// with the player's response, or with a refusal.
pub struct PlayerProcessor;

impl PlayerProcessor {
    pub fn process_request<T>(broker: &mut ProviderBroker<T>, extracted_message: PlayerRequestWithContext, tx: T) -> (r: InvokeOutcome)
        requires
            old(broker).wf(),
        ensures
            final(broker).wf(),
            invoked(
                *old(broker),
                *final(broker),
                PLAYER_BASE_PROVIDER_CAPABILITY@,
                provider_method_of(extracted_message.request),
                caller_of(extracted_message.call_ctx),
                provider_payload_of(extracted_message.request),
                tx,
                r,
            ),
    {
        PlayerImpl::call_player_provider(broker, extracted_message, PLAYER_BASE_PROVIDER_CAPABILITY, tx)
    }

    /// The answer for the extension once the provider's answer, if any, has
    /// come back: a load or play result is passed on, anything else is refused.
    pub fn response_for(answer: Option<ProviderResponsePayload>) -> (r: ExtnResponse)
        ensures
            match answer {
                Some(p) => match p.as_player_response_spec() {
                    Some(pr) => r == ExtnResponse::Player(pr),
                    None => r == ExtnResponse::Error(RippleError::PermissionDenied),
                },
                None => r == ExtnResponse::Error(RippleError::PermissionDenied),
            },
    {
        if let Some(payload) = answer {
            if let Some(player_response) = payload.as_player_response() {
                return ExtnResponse::Player(player_response);
            }
        }
        ExtnResponse::Error(RippleError::PermissionDenied)
    }
}

/// The HDMI RPCs: the device channel is asked for its inputs.
pub struct HdmiImpl;

impl HdmiImpl {
    /// The request sent to the device channel.
    pub fn get_available_inputs_request() -> (r: HdmiRequest)
        ensures
            r == HdmiRequest::GetAvailableInputs,
    {
        HdmiRequest::GetAvailableInputs
    }

    /// What the caller receives: the inputs, when the channel answered with
    /// a value that reads as a list of inputs, and an error otherwise.
    pub fn get_available_inputs(answer: Option<GetAvailableInputsResponse>) -> (r: Result<GetAvailableInputsResponse, RpcError>)
        ensures
            match answer {
                Some(a) => r == Ok::<GetAvailableInputsResponse, RpcError>(a),
                None => r matches Err(e) && e.message@ == "FB error response TBD"@,
            },
    {
        match answer {
            Some(a) => Ok(a),
            None => Err(RpcError { message: String::from_str("FB error response TBD") }),
        }
    }
}

} // verus!
