use vstd::prelude::*;

use crate::gateway::CallContext;
use crate::provider::{ListenRequest, ProviderRequestPayload, ProviderResponse, ProviderResponsePayload};

verus! {

pub const PLAYER_LOAD_EVENT: &'static str = "player.onRequestLoad";

pub const PLAYER_LOAD_METHOD: &'static str = "load";

pub const PLAYER_PLAY_EVENT: &'static str = "player.onRequestPlay";

pub const PLAYER_PLAY_METHOD: &'static str = "play";

pub const PLAYER_STOP_EVENT: &'static str = "player.onRequestStop";

pub const PLAYER_STOP_METHOD: &'static str = "stop";

pub const PLAYER_STATUS_EVENT: &'static str = "player.onRequestStatus";

pub const PLAYER_STATUS_METHOD: &'static str = "status";

pub const PLAYER_PROGRESS_EVENT: &'static str = "player.onRequestProgress";

pub const PLAYER_PROGRESS_METHOD: &'static str = "progress";

pub const PLAYER_ON_PROGRESS_CHANGED_EVENT: &'static str = "player.onProgressChanged";

pub const PLAYER_ON_STATUS_CHANGED_EVENT: &'static str = "player.onStatusChanged";

pub const PLAYER_BASE_PROVIDER_CAPABILITY: &'static str = "xrn:firebolt:capability:player:base";

pub const STREAMING_PLAYER_CREATE_EVENT: &'static str = "streamingplayer.onRequestCreate";

pub const STREAMING_PLAYER_CREATE_METHOD: &'static str = "create";

pub const PLAYER_STREAMING_PROVIDER_CAPABILITY: &'static str = "xrn:firebolt:capability:player:streaming";

/// A request for the player provider.
#[derive(Debug)]
pub enum PlayerRequest {
    Load(PlayerLoadRequest),
    Play(PlayerPlayRequest),
    Stop(PlayerStopRequest),
    Status(PlayerStatusRequest),
    Progress(PlayerProgressRequest),
    StreamingPlayerCreate(StreamingPlayerCreateRequest),
}

impl Clone for PlayerRequest {
    fn clone(&self) -> (r: Self)
        ensures
            r == *self,
    {
        match self {
            PlayerRequest::Load(x) => PlayerRequest::Load(x.clone()),
            PlayerRequest::Play(x) => PlayerRequest::Play(x.clone()),
            PlayerRequest::Stop(x) => PlayerRequest::Stop(x.clone()),
            PlayerRequest::Status(x) => PlayerRequest::Status(x.clone()),
            PlayerRequest::Progress(x) => PlayerRequest::Progress(x.clone()),
            PlayerRequest::StreamingPlayerCreate(x) => PlayerRequest::StreamingPlayerCreate(*x),
        }
    }
}

/// The provider payload that carries the same request.
pub open spec fn provider_payload_of(r: PlayerRequest) -> ProviderRequestPayload {
    match r {
        PlayerRequest::Load(x) => ProviderRequestPayload::PlayerLoad(x),
        PlayerRequest::Play(x) => ProviderRequestPayload::PlayerPlay(x),
        PlayerRequest::Stop(x) => ProviderRequestPayload::PlayerStop(x),
        PlayerRequest::Status(x) => ProviderRequestPayload::PlayerStatus(x),
        PlayerRequest::Progress(x) => ProviderRequestPayload::PlayerProgress(x),
        PlayerRequest::StreamingPlayerCreate(x) => ProviderRequestPayload::StreamingPlayerCreate(x),
    }
}

/// The provider method that serves the request.
pub open spec fn provider_method_of(r: PlayerRequest) -> Seq<char> {
    match r {
        PlayerRequest::Load(_) => "load"@,
        PlayerRequest::Play(_) => "play"@,
        PlayerRequest::Stop(_) => "stop"@,
        PlayerRequest::Status(_) => "status"@,
        PlayerRequest::Progress(_) => "progress"@,
        PlayerRequest::StreamingPlayerCreate(_) => "create"@,
    }
}

impl PlayerRequest {
    pub fn to_provider_request_payload(&self) -> (r: ProviderRequestPayload)
        ensures
            r == provider_payload_of(*self),
    {
        match self {
            PlayerRequest::Load(x) => ProviderRequestPayload::PlayerLoad(x.clone()),
            PlayerRequest::Play(x) => ProviderRequestPayload::PlayerPlay(x.clone()),
            PlayerRequest::Stop(x) => ProviderRequestPayload::PlayerStop(x.clone()),
            PlayerRequest::Status(x) => ProviderRequestPayload::PlayerStatus(x.clone()),
            PlayerRequest::Progress(x) => ProviderRequestPayload::PlayerProgress(x.clone()),
            PlayerRequest::StreamingPlayerCreate(x) => {
                ProviderRequestPayload::StreamingPlayerCreate(*x)
            },
        }
    }

    pub fn to_provider_method(&self) -> (r: &'static str)
        ensures
            r@ == provider_method_of(*self),
    {
        match self {
            PlayerRequest::Load(_) => "load",
            PlayerRequest::Play(_) => "play",
            PlayerRequest::Stop(_) => "stop",
            PlayerRequest::Status(_) => "status",
            PlayerRequest::Progress(_) => "progress",
            PlayerRequest::StreamingPlayerCreate(_) => "create",
        }
    }
}

/// A player request together with the call it came from.
#[derive(Debug)]
pub struct PlayerRequestWithContext {
    pub request: PlayerRequest,
    pub call_ctx: CallContext,
}

impl Clone for PlayerRequestWithContext {
    fn clone(&self) -> (r: Self)
        ensures
            r == *self,
    {
        PlayerRequestWithContext { request: self.request.clone(), call_ctx: self.call_ctx.clone() }
    }
}

#[derive(Debug)]
pub struct PlayerLoadRequestParams {
    pub request: PlayerLoadRequest,
}

/// A request to load a locator into a player. `metadata` is the text of a
/// JSON object of string values, passed on to the provider as it came.
#[derive(Debug)]
pub struct PlayerLoadRequest {
    pub player_id: String,
    pub locator: String,
    pub metadata: Option<String>,
    pub autoplay: Option<bool>,
}

impl Clone for PlayerLoadRequest {
    fn clone(&self) -> (r: Self)
        ensures
            r == *self,
    {
        PlayerLoadRequest {
            player_id: self.player_id.clone(),
            locator: self.locator.clone(),
            metadata: self.metadata.clone(),
            autoplay: self.autoplay,
        }
    }
}

/// A request that names the player it is for.
#[derive(Debug)]
pub struct PlayerPlayRequest {
    pub player_id: String,
}

#[derive(Debug)]
pub struct PlayerStopRequest {
    pub player_id: String,
}

#[derive(Debug)]
pub struct PlayerStatusRequest {
    pub player_id: String,
}

#[derive(Debug)]
pub struct PlayerProgressRequest {
    pub player_id: String,
}

impl Clone for PlayerPlayRequest {
    fn clone(&self) -> (r: Self)
        ensures
            r == *self,
    {
        PlayerPlayRequest { player_id: self.player_id.clone() }
    }
}

impl Clone for PlayerStopRequest {
    fn clone(&self) -> (r: Self)
        ensures
            r == *self,
    {
        PlayerStopRequest { player_id: self.player_id.clone() }
    }
}

impl Clone for PlayerStatusRequest {
    fn clone(&self) -> (r: Self)
        ensures
            r == *self,
    {
        PlayerStatusRequest { player_id: self.player_id.clone() }
    }
}

impl Clone for PlayerProgressRequest {
    fn clone(&self) -> (r: Self)
        ensures
            r == *self,
    {
        PlayerProgressRequest { player_id: self.player_id.clone() }
    }
}

#[derive(Debug, Clone, Copy, PartialEq, Eq, Structural)]
pub struct StreamingPlayerCreateRequest;

/// Every answer a player provider may give.
#[derive(Debug)]
pub enum PlayerProviderResponse {
    Load(PlayerLoadResponse),
    LoadError(PlayerErrorResponse),
    Play(PlayerPlayResponse),
    PlayError(PlayerErrorResponse),
    Stop(PlayerStopResponse),
    StopError(PlayerErrorResponse),
    Status(PlayerStatusResponse),
    StatusError(PlayerErrorResponse),
    Progress(PlayerProgressResponse),
    ProgressError(PlayerErrorResponse),
    StreamingPlayerCreate(StreamingPlayerCreateResponse),
    StreamingPlayerCreateError(PlayerErrorResponse),
}

/// A player's answer to a load or play request.
#[derive(Debug)]
pub enum PlayerResponse {
    Load(PlayerMediaSession),
    Play(PlayerMediaSession),
}

impl Clone for PlayerResponse {
    fn clone(&self) -> (r: Self)
        ensures
            r == *self,
    {
        match self {
            PlayerResponse::Load(s) => PlayerResponse::Load(s.clone()),
            PlayerResponse::Play(s) => PlayerResponse::Play(s.clone()),
        }
    }
}

#[derive(Debug)]
pub struct PlayerMediaSession {
    pub media_session_id: String,
}

impl Clone for PlayerMediaSession {
    fn clone(&self) -> (r: Self)
        ensures
            r == *self,
    {
        PlayerMediaSession { media_session_id: self.media_session_id.clone() }
    }
}

#[derive(Debug, Clone, Copy, PartialEq, Eq, Structural)]
pub enum PlayerStatusState {
    Idle,
    Pending,
    Playing,
    Blocked,
    Failed,
}

#[derive(Debug, Clone, Copy, PartialEq, Eq, Structural)]
pub enum PlayerStatusBlockedReason {
    NoNetwork,
    ContentNotFound,
    DrmError,
    NotEntitled,
    GeoBlocked,
    ChannelNotScanned,
    NoSignal,
    TechnicalFault,
    ChannelOffAir,
    PlayerFailure,
}

#[derive(Debug)]
pub struct PlayerStatus {
    pub media_session_id: String,
    pub state: PlayerStatusState,
    pub blocked_reason: Option<PlayerStatusBlockedReason>,
}

impl Clone for PlayerStatus {
    fn clone(&self) -> (r: Self)
        ensures
            r == *self,
    {
        PlayerStatus {
            media_session_id: self.media_session_id.clone(),
            state: self.state,
            blocked_reason: self.blocked_reason,
        }
    }
}

#[derive(Debug)]
pub struct PlayerProgress {
    pub speed: u32,
    pub start_position: u32,
    pub position: u32,
    pub end_position: u32,
    pub live_sync_time: Option<String>,
}

impl Clone for PlayerProgress {
    fn clone(&self) -> (r: Self)
        ensures
            r == *self,
    {
        PlayerProgress {
            speed: self.speed,
            start_position: self.start_position,
            position: self.position,
            end_position: self.end_position,
            live_sync_time: self.live_sync_time.clone(),
        }
    }
}

#[derive(Debug)]
pub struct StreamingPlayerInstance {
    pub player_id: String,
    pub window_id: String,
}

impl Clone for StreamingPlayerInstance {
    fn clone(&self) -> (r: Self)
        ensures
            r == *self,
    {
        StreamingPlayerInstance {
            player_id: self.player_id.clone(),
            window_id: self.window_id.clone(),
        }
    }
}

#[derive(Debug)]
pub struct PlayerError {
    pub code: u32,
    pub message: String,
}

impl Clone for PlayerError {
    fn clone(&self) -> (r: Self)
        ensures
            r == *self,
    {
        PlayerError { code: self.code, message: self.message.clone() }
    }
}

#[derive(Debug)]
pub struct PlayerLoadResponse {
    pub correlation_id: String,
    pub result: PlayerMediaSession,
}

#[derive(Debug)]
pub struct PlayerErrorResponse {
    pub correlation_id: String,
    pub result: PlayerError,
}

#[derive(Debug)]
pub struct PlayerPlayResponse {
    pub correlation_id: String,
    pub result: PlayerMediaSession,
}

#[derive(Debug)]
pub struct PlayerStopResponse {
    pub correlation_id: String,
    pub result: PlayerMediaSession,
}

#[derive(Debug)]
pub struct PlayerStatusResponse {
    pub correlation_id: String,
    pub result: PlayerStatus,
}

#[derive(Debug)]
pub struct PlayerProgressResponse {
    pub correlation_id: String,
    pub result: PlayerProgress,
}

#[derive(Debug)]
pub struct StreamingPlayerCreateResponse {
    pub correlation_id: String,
    pub result: StreamingPlayerInstance,
}

impl Clone for PlayerErrorResponse {
    fn clone(&self) -> (r: Self)
        ensures
            r == *self,
    {
        PlayerErrorResponse {
            correlation_id: self.correlation_id.clone(),
            result: self.result.clone(),
        }
    }
}

impl PlayerLoadResponse {
    pub fn new(correlation_id: String, result: PlayerMediaSession) -> (r: Self)
        ensures
            r == (PlayerLoadResponse { correlation_id, result }),
    {
        PlayerLoadResponse { correlation_id, result }
    }

    pub fn to_provider_response(&self) -> (r: ProviderResponse)
        ensures
            r == (ProviderResponse {
                correlation_id: self.correlation_id,
                result: ProviderResponsePayload::PlayerLoad(self.result),
            }),
    {
        ProviderResponse {
            correlation_id: self.correlation_id.clone(),
            result: ProviderResponsePayload::PlayerLoad(self.result.clone()),
        }
    }
}

impl PlayerErrorResponse {
    pub fn new(correlation_id: String, error: PlayerError) -> (r: Self)
        ensures
            r == (PlayerErrorResponse { correlation_id, result: error }),
    {
        PlayerErrorResponse { correlation_id, result: error }
    }

    pub fn to_provider_response(&self) -> (r: ProviderResponse)
        ensures
            r == (ProviderResponse {
                correlation_id: self.correlation_id,
                result: ProviderResponsePayload::PlayerLoadError(*self),
            }),
    {
        ProviderResponse {
            correlation_id: self.correlation_id.clone(),
            result: ProviderResponsePayload::PlayerLoadError(self.clone()),
        }
    }
}

impl PlayerPlayResponse {
    pub fn new(correlation_id: String, result: PlayerMediaSession) -> (r: Self)
        ensures
            r == (PlayerPlayResponse { correlation_id, result }),
    {
        PlayerPlayResponse { correlation_id, result }
    }

    pub fn to_provider_response(&self) -> (r: ProviderResponse)
        ensures
            r == (ProviderResponse {
                correlation_id: self.correlation_id,
                result: ProviderResponsePayload::PlayerPlay(self.result),
            }),
    {
        ProviderResponse {
            correlation_id: self.correlation_id.clone(),
            result: ProviderResponsePayload::PlayerPlay(self.result.clone()),
        }
    }
}

impl PlayerStopResponse {
    pub fn new(correlation_id: String, result: PlayerMediaSession) -> (r: Self)
        ensures
            r == (PlayerStopResponse { correlation_id, result }),
    {
        PlayerStopResponse { correlation_id, result }
    }

    pub fn to_provider_response(&self) -> (r: ProviderResponse)
        ensures
            r == (ProviderResponse {
                correlation_id: self.correlation_id,
                result: ProviderResponsePayload::PlayerStop(self.result),
            }),
    {
        ProviderResponse {
            correlation_id: self.correlation_id.clone(),
            result: ProviderResponsePayload::PlayerStop(self.result.clone()),
        }
    }
}

impl PlayerStatusResponse {
    pub fn new(correlation_id: String, result: PlayerStatus) -> (r: Self)
        ensures
            r == (PlayerStatusResponse { correlation_id, result }),
    {
        PlayerStatusResponse { correlation_id, result }
    }

    pub fn to_provider_response(&self) -> (r: ProviderResponse)
        ensures
            r == (ProviderResponse {
                correlation_id: self.correlation_id,
                result: ProviderResponsePayload::PlayerStatus(self.result),
            }),
    {
        ProviderResponse {
            correlation_id: self.correlation_id.clone(),
            result: ProviderResponsePayload::PlayerStatus(self.result.clone()),
        }
    }
}

impl PlayerProgressResponse {
    pub fn new(correlation_id: String, result: PlayerProgress) -> (r: Self)
        ensures
            r == (PlayerProgressResponse { correlation_id, result }),
    {
        PlayerProgressResponse { correlation_id, result }
    }

    pub fn to_provider_response(&self) -> (r: ProviderResponse)
        ensures
            r == (ProviderResponse {
                correlation_id: self.correlation_id,
                result: ProviderResponsePayload::PlayerProgress(self.result),
            }),
    {
        ProviderResponse {
            correlation_id: self.correlation_id.clone(),
            result: ProviderResponsePayload::PlayerProgress(self.result.clone()),
        }
    }
}

impl StreamingPlayerCreateResponse {
    pub fn new(correlation_id: String, result: StreamingPlayerInstance) -> (r: Self)
        ensures
            r == (StreamingPlayerCreateResponse { correlation_id, result }),
    {
        StreamingPlayerCreateResponse { correlation_id, result }
    }

    pub fn to_provider_response(&self) -> (r: ProviderResponse)
        ensures
            r == (ProviderResponse {
                correlation_id: self.correlation_id,
                result: ProviderResponsePayload::StreamingPlayerCreate(self.result),
            }),
    {
        ProviderResponse {
            correlation_id: self.correlation_id.clone(),
            result: ProviderResponsePayload::StreamingPlayerCreate(self.result.clone()),
        }
    }
}

/// A listen request that may name one player.
#[derive(Debug)]
pub struct PlayerIdListenRequest {
    pub listen: bool,
    pub player_id: Option<String>,
}

impl PlayerIdListenRequest {
    pub fn to_listen_request(&self) -> (r: ListenRequest)
        ensures
            r == (ListenRequest { listen: self.listen }),
    {
        ListenRequest { listen: self.listen }
    }
}

/// Progress that a player pushes for its listeners.
#[derive(Debug)]
pub struct PlayerProvideProgress {
    pub player_id: String,
    pub progress: PlayerProgress,
}

impl PlayerProvideProgress {
    pub fn new(player_id: String, progress: PlayerProgress) -> (r: Self)
        ensures
            r == (PlayerProvideProgress { player_id, progress }),
    {
        PlayerProvideProgress { player_id, progress }
    }
}

/// A status that a player pushes for its listeners.
#[derive(Debug)]
pub struct PlayerProvideStatus {
    pub player_id: String,
    pub status: PlayerStatus,
}

impl PlayerProvideStatus {
    pub fn new(player_id: String, status: PlayerStatus) -> (r: Self)
        ensures
            r == (PlayerProvideStatus { player_id, status }),
    {
        PlayerProvideStatus { player_id, status }
    }
}

} // verus!
