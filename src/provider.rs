use vstd::prelude::*;

use crate::player::{
    PlayerErrorResponse, PlayerLoadRequest, PlayerMediaSession, PlayerPlayRequest,
    PlayerProgress, PlayerProgressRequest, PlayerResponse, PlayerStatus, PlayerStatusRequest,
    PlayerStopRequest, StreamingPlayerCreateRequest, StreamingPlayerInstance,
};

verus! {

pub const ACK_CHALLENGE_EVENT: &'static str = "acknowledgechallenge.onRequestChallenge";

pub const ACK_CHALLENGE_CAPABILITY: &'static str = "xrn:firebolt:capability:usergrant:acknowledgechallenge";

/// A request to start (`listen: true`) or stop listening to an event.
#[derive(Debug, Clone, Copy, PartialEq, Eq, Structural)]
pub struct ListenRequest {
    pub listen: bool,
}

/// The answer to a listen request.
#[derive(Debug)]
pub struct ListenerResponse {
    pub listening: bool,
    pub event: String,
}

/// A provider asks to be brought to the foreground while it serves a request.
#[derive(Debug)]
pub struct FocusRequest {
    pub correlation_id: String,
}

#[derive(Debug, Clone, Copy, PartialEq, Eq, Structural)]
pub struct ChallengeResponse {
    pub granted: bool,
}

#[derive(Debug)]
pub struct ChallengeError {
    pub code: u32,
    pub message: String,
}

impl Clone for ChallengeError {
    fn clone(&self) -> (r: Self)
        ensures
            r == *self,
    {
        ChallengeError { code: self.code, message: self.message.clone() }
    }
}

/// A provider's answer as it comes in over RPC: the correlation id of the
/// request it answers and the result.
#[derive(Debug)]
pub struct ExternalProviderResponse<T> {
    pub correlation_id: String,
    pub result: T,
}

/// The payload of a request to a provider.
#[derive(Debug)]
pub enum ProviderRequestPayload {
    Generic(String),
    PlayerLoad(PlayerLoadRequest),
    PlayerPlay(PlayerPlayRequest),
    PlayerStop(PlayerStopRequest),
    PlayerStatus(PlayerStatusRequest),
    PlayerProgress(PlayerProgressRequest),
    StreamingPlayerCreate(StreamingPlayerCreateRequest),
}

impl Clone for ProviderRequestPayload {
    fn clone(&self) -> (r: Self)
        ensures
            r == *self,
    {
        match self {
            ProviderRequestPayload::Generic(s) => ProviderRequestPayload::Generic(s.clone()),
            ProviderRequestPayload::PlayerLoad(x) => ProviderRequestPayload::PlayerLoad(x.clone()),
            ProviderRequestPayload::PlayerPlay(x) => ProviderRequestPayload::PlayerPlay(x.clone()),
            ProviderRequestPayload::PlayerStop(x) => ProviderRequestPayload::PlayerStop(x.clone()),
            ProviderRequestPayload::PlayerStatus(x) => ProviderRequestPayload::PlayerStatus(
                x.clone(),
            ),
            ProviderRequestPayload::PlayerProgress(x) => ProviderRequestPayload::PlayerProgress(
                x.clone(),
            ),
            ProviderRequestPayload::StreamingPlayerCreate(x) => {
                ProviderRequestPayload::StreamingPlayerCreate(*x)
            },
        }
    }
}

/// The payload of a provider's answer.
#[derive(Debug)]
pub enum ProviderResponsePayload {
    ChallengeResponse(ChallengeResponse),
    ChallengeError(ChallengeError),
    PlayerLoad(PlayerMediaSession),
    PlayerLoadError(PlayerErrorResponse),
    PlayerPlay(PlayerMediaSession),
    PlayerStop(PlayerMediaSession),
    PlayerStatus(PlayerStatus),
    PlayerProgress(PlayerProgress),
    StreamingPlayerCreate(StreamingPlayerInstance),
}

impl ProviderResponsePayload {
    pub open spec fn as_player_response_spec(self) -> Option<PlayerResponse> {
        match self {
            ProviderResponsePayload::PlayerLoad(s) => Some(PlayerResponse::Load(s)),
            ProviderResponsePayload::PlayerPlay(s) => Some(PlayerResponse::Play(s)),
            _ => None,
        }
    }

    /// The player answer carried by a load or play result, if it is one.
    pub fn as_player_response(self) -> (r: Option<PlayerResponse>)
        ensures
            r == self.as_player_response_spec(),
    {
        match self {
            ProviderResponsePayload::PlayerLoad(s) => Some(PlayerResponse::Load(s)),
            ProviderResponsePayload::PlayerPlay(s) => Some(PlayerResponse::Play(s)),
            _ => None,
        }
    }
}

/// A provider's answer to the request with the given correlation id.
#[derive(Debug)]
pub struct ProviderResponse {
    pub correlation_id: String,
    pub result: ProviderResponsePayload,
}

/// The event payload sent to a provider: the request and the id its answer must carry.
#[derive(Debug)]
pub struct ProviderRequest {
    pub correlation_id: String,
    pub parameters: ProviderRequestPayload,
}

} // verus!
