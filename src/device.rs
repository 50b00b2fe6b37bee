use vstd::prelude::*;

use crate::error::RippleError;

verus! {

/// Requests for the device's HDMI inputs.
#[derive(Debug)]
pub enum HdmiRequest {
    GetAvailableInputs,
    SetActiveInput(String),
}

impl Clone for HdmiRequest {
    fn clone(&self) -> (r: Self)
        ensures
            r == *self,
    {
        match self {
            HdmiRequest::GetAvailableInputs => HdmiRequest::GetAvailableInputs,
            HdmiRequest::SetActiveInput(s) => HdmiRequest::SetActiveInput(s.clone()),
        }
    }
}

/// Requests served by the device channel.
#[derive(Debug)]
pub enum DeviceRequest {
    Hdmi(HdmiRequest),
}

/// Requests served by the distributor's extensions.
#[derive(Debug)]
pub enum DistributorRequest {
    Ping(DistributorPingRequest),
}

#[derive(Debug, Clone, Copy, PartialEq, Eq, Structural)]
pub struct DistributorPingRequest {}

#[derive(Debug, Clone, Copy, PartialEq, Eq, Structural)]
pub struct DistributorPingResponse {}

/// The HDMI inputs of the device.
#[derive(Debug)]
pub struct GetAvailableInputsResponse {
    pub devices: Vec<HdmiInput>,
}

#[derive(Debug)]
pub struct HdmiInput {
    pub id: i32,
    pub locator: String,
    pub connected: bool,
}

/// Reads a boolean written as text: `"true"` or `"false"`, and nothing else.
pub fn string_to_bool(s: &str) -> (r: Result<bool, RippleError>)
    ensures
        r == if s@ == "true"@ {
            Ok::<bool, RippleError>(true)
        } else if s@ == "false"@ {
            Ok::<bool, RippleError>(false)
        } else {
            Err::<bool, RippleError>(RippleError::ParseError)
        },
{
    let v = String::from_str(s);
    if v == String::from_str("true") {
        Ok(true)
    } else if v == String::from_str("false") {
        Ok(false)
    } else {
        Err(RippleError::ParseError)
    }
}

pub enum PingRequestPayload {
    Ping,
}

pub enum PingResponsePayload {
    Pong,
}

pub struct PingRequest {
    pub id: String,
    pub payload: PingRequestPayload,
}

pub struct PingResponse {
    pub id: String,
    pub payload: PingResponsePayload,
}

} // verus!
