use vstd::prelude::*;

use crate::contract::{DeviceContract, PlayerAdjective, RippleContract};
use crate::device::{DeviceRequest, DistributorPingRequest, DistributorRequest, HdmiRequest};
use crate::error::RippleError;
use crate::gateway::RpcRequest;
use crate::player::{PlayerRequestWithContext, PlayerResponse};

verus! {

/// What travels between the gateway and an extension channel.
#[derive(Debug)]
pub enum ExtnPayload {
    Request(ExtnRequest),
    Response(ExtnResponse),
}

#[derive(Debug)]
pub enum ExtnRequest {
    Rpc(RpcRequest),
    Device(DeviceRequest),
    Distributor(DistributorRequest),
    Player(PlayerRequestWithContext),
}

#[derive(Debug)]
pub enum ExtnResponse {
    Empty,
    Boolean(bool),
    Text(String),
    Player(PlayerResponse),
    Error(RippleError),
}

impl HdmiRequest {
    pub fn get_extn_payload(&self) -> (r: ExtnPayload)
        ensures
            r == ExtnPayload::Request(ExtnRequest::Device(DeviceRequest::Hdmi(*self))),
    {
        ExtnPayload::Request(ExtnRequest::Device(DeviceRequest::Hdmi(self.clone())))
    }

    pub fn get_from_payload(payload: ExtnPayload) -> (r: Option<HdmiRequest>)
        ensures
            r == match payload {
                ExtnPayload::Request(ExtnRequest::Device(DeviceRequest::Hdmi(d))) => Some(d),
                _ => None,
            },
    {
        match payload {
            ExtnPayload::Request(ExtnRequest::Device(DeviceRequest::Hdmi(d))) => Some(d),
            _ => None,
        }
    }

    pub fn contract() -> (r: RippleContract)
        ensures
            r == RippleContract::Device(DeviceContract::Hdmi),
    {
        RippleContract::Device(DeviceContract::Hdmi)
    }
}

impl DistributorPingRequest {
    pub fn get_from_payload(payload: ExtnPayload) -> (r: Option<DistributorPingRequest>)
        ensures
            r == match payload {
                ExtnPayload::Request(ExtnRequest::Distributor(DistributorRequest::Ping(p))) => Some(
                    p,
                ),
                _ => None,
            },
    {
        if let ExtnPayload::Request(ExtnRequest::Distributor(DistributorRequest::Ping(p))) =
            payload {
            return Some(p);
        }
        None
    }

    pub fn get_extn_payload(&self) -> (r: ExtnPayload)
        ensures
            r == ExtnPayload::Request(ExtnRequest::Distributor(DistributorRequest::Ping(*self))),
    {
        ExtnPayload::Request(ExtnRequest::Distributor(DistributorRequest::Ping(*self)))
    }

    pub fn contract() -> (r: RippleContract)
        ensures
            r == RippleContract::Ping,
    {
        RippleContract::Ping
    }

    pub fn get_contract(&self) -> (r: RippleContract)
        ensures
            r == RippleContract::Ping,
    {
        Self::contract()
    }
}

impl PlayerRequestWithContext {
    pub fn get_extn_payload(&self) -> (r: ExtnPayload)
        ensures
            r == ExtnPayload::Request(ExtnRequest::Player(*self)),
    {
        ExtnPayload::Request(ExtnRequest::Player(self.clone()))
    }

    pub fn get_from_payload(payload: ExtnPayload) -> (r: Option<PlayerRequestWithContext>)
        ensures
            r == match payload {
                ExtnPayload::Request(ExtnRequest::Player(p)) => Some(p),
                _ => None,
            },
    {
        if let ExtnPayload::Request(ExtnRequest::Player(r)) = payload {
            return Some(r);
        }
        None
    }

    pub fn contract() -> (r: RippleContract)
        ensures
            r == RippleContract::Player(PlayerAdjective::Base),
    {
        RippleContract::Player(PlayerAdjective::Base)
    }
}

impl PlayerResponse {
    pub fn get_extn_payload(&self) -> (r: ExtnPayload)
        ensures
            r == ExtnPayload::Response(ExtnResponse::Player(*self)),
    {
        ExtnPayload::Response(ExtnResponse::Player(self.clone()))
    }

    pub fn get_from_payload(payload: ExtnPayload) -> (r: Option<PlayerResponse>)
        ensures
            r == match payload {
                ExtnPayload::Response(ExtnResponse::Player(p)) => Some(p),
                _ => None,
            },
    {
        if let ExtnPayload::Response(ExtnResponse::Player(r)) = payload {
            return Some(r);
        }
        None
    }

    pub fn contract() -> (r: RippleContract)
        ensures
            r == RippleContract::Player(PlayerAdjective::Base),
    {
        RippleContract::Player(PlayerAdjective::Base)
    }
}

impl RpcRequest {
    pub fn get_extn_payload(&self) -> (r: ExtnPayload)
        ensures
            r == ExtnPayload::Request(ExtnRequest::Rpc(*self)),
    {
        ExtnPayload::Request(ExtnRequest::Rpc(self.clone()))
    }

    pub fn get_from_payload(payload: ExtnPayload) -> (r: Option<RpcRequest>)
        ensures
            r == match payload {
                ExtnPayload::Request(ExtnRequest::Rpc(v)) => Some(v),
                _ => None,
            },
    {
        if let ExtnPayload::Request(ExtnRequest::Rpc(v)) = payload {
            return Some(v);
        }
        None
    }

    pub fn contract() -> (r: RippleContract)
        ensures
            r == RippleContract::Rpc,
    {
        RippleContract::Rpc
    }
}

} // verus!
