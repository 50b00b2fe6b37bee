use vstd::prelude::*;

use crate::text::{has_substring, lower_of, lowercase, str_contains};

verus! {

/// Who made a call: the session and the app behind it.
#[derive(Debug, Default)]
pub struct CallerSession {
    pub session_id: Option<String>,
    pub app_id: Option<String>,
}

impl Clone for CallerSession {
    fn clone(&self) -> (r: Self)
        ensures
            r == *self,
    {
        CallerSession { session_id: self.session_id.clone(), app_id: self.app_id.clone() }
    }
}

/// The caller of a call context is its session and app.
impl From<CallContext> for CallerSession {
    fn from(ctx: CallContext) -> (r: CallerSession) {
        CallerSession { session_id: Some(ctx.session_id), app_id: Some(ctx.app_id) }
    }
}

impl vstd::std_specs::convert::FromSpecImpl<CallContext> for CallerSession {
    open spec fn obeys_from_spec() -> bool {
        true
    }

    open spec fn from_spec(ctx: CallContext) -> CallerSession {
        CallerSession { session_id: Some(ctx.session_id), app_id: Some(ctx.app_id) }
    }
}

#[derive(Debug)]
pub struct AppIdentification {
    pub app_id: String,
}

impl Clone for AppIdentification {
    fn clone(&self) -> (r: Self)
        ensures
            r == *self,
    {
        AppIdentification { app_id: self.app_id.clone() }
    }
}

impl From<CallContext> for AppIdentification {
    fn from(ctx: CallContext) -> (r: AppIdentification) {
        AppIdentification { app_id: ctx.app_id }
    }
}

impl vstd::std_specs::convert::FromSpecImpl<CallContext> for AppIdentification {
    open spec fn obeys_from_spec() -> bool {
        true
    }

    open spec fn from_spec(ctx: CallContext) -> AppIdentification {
        AppIdentification { app_id: ctx.app_id }
    }
}

/// The protocol a call came in on.
#[derive(Debug, Clone, Copy, PartialEq, Eq, Structural)]
pub enum ApiProtocol {
    Bridge,
    Extn,
    JsonRpc,
}

/// Everything known about one RPC call.
#[derive(Debug, PartialEq)]
pub struct CallContext {
    pub session_id: String,
    pub request_id: String,
    pub app_id: String,
    pub call_id: u64,
    pub protocol: ApiProtocol,
    pub method: String,
    pub cid: Option<String>,
    pub gateway_secure: bool,
}

impl Clone for CallContext {
    fn clone(&self) -> (r: Self)
        ensures
            r == *self,
    {
        CallContext {
            session_id: self.session_id.clone(),
            request_id: self.request_id.clone(),
            app_id: self.app_id.clone(),
            call_id: self.call_id,
            protocol: self.protocol,
            method: self.method.clone(),
            cid: self.cid.clone(),
            gateway_secure: self.gateway_secure,
        }
    }
}

/// The id a call context is known by: its connection id when there is one,
/// else its session id.
pub open spec fn call_context_id(ctx: CallContext) -> Seq<char> {
    match ctx.cid {
        Some(c) => c@,
        None => ctx.session_id@,
    }
}

impl CallContext {
    pub fn new(
        session_id: String,
        request_id: String,
        app_id: String,
        call_id: u64,
        protocol: ApiProtocol,
        method: String,
        cid: Option<String>,
        gateway_secure: bool,
    ) -> (r: CallContext)
        ensures
            r == (CallContext {
                session_id,
                request_id,
                app_id,
                call_id,
                protocol,
                method,
                cid,
                gateway_secure,
            }),
    {
        CallContext {
            session_id,
            request_id,
            app_id,
            call_id,
            protocol,
            method,
            cid,
            gateway_secure,
        }
    }

    pub fn get_id(&self) -> (r: String)
        ensures
            r@ == call_context_id(*self),
    {
        if let Some(cid) = &self.cid {
            return cid.clone();
        }
        self.session_id.clone()
    }
}

/// A message on its way back to an app.
#[derive(Debug, PartialEq)]
pub struct ApiMessage {
    pub protocol: ApiProtocol,
    pub jsonrpc_msg: String,
    pub request_id: String,
}

/// The texts that mark a JSON-RPC error the gateway produced.
pub open spec fn is_error_text(msg: Seq<char>) -> bool {
    has_substring(msg, "Custom error:"@) || has_substring(msg, "Method not found"@)
}

impl ApiMessage {
    pub fn new(protocol: ApiProtocol, jsonrpc_msg: String, request_id: String) -> (r: ApiMessage)
        ensures
            r == (ApiMessage { protocol, jsonrpc_msg, request_id }),
    {
        ApiMessage { protocol, jsonrpc_msg, request_id }
    }

    pub fn is_error(&self) -> (r: bool)
        ensures
            r == is_error_text(self.jsonrpc_msg@),
    {
        str_contains(self.jsonrpc_msg.as_str(), "Custom error:") || str_contains(
            self.jsonrpc_msg.as_str(),
            "Method not found",
        )
    }
}

/// The one member read before a message is taken as JSON-RPC.
#[derive(Debug)]
pub struct ApiBaseRequest {
    pub jsonrpc: Option<String>,
}

impl ApiBaseRequest {
    pub fn is_jsonrpc(&self) -> (r: bool)
        ensures
            r == self.jsonrpc is Some,
    {
        self.jsonrpc.is_some()
    }
}

/// A routed RPC request: the method, its parameters as JSON text (the call
/// context first, then the request's own parameters), and the call context.
#[derive(Debug, PartialEq)]
pub struct RpcRequest {
    pub method: String,
    pub params_json: String,
    pub ctx: CallContext,
}

impl Clone for RpcRequest {
    fn clone(&self) -> (r: Self)
        ensures
            r == *self,
    {
        RpcRequest {
            method: self.method.clone(),
            params_json: self.params_json.clone(),
            ctx: self.ctx.clone(),
        }
    }
}

/// A request to start or stop listening to an event.
pub open spec fn is_subscription_spec(method: Seq<char>, params_json: Seq<char>) -> bool {
    has_substring(method, ".on"@) && has_substring(params_json, "listen"@)
}

/// `i` is the position of the first `.` of `m`.
pub open spec fn is_first_dot(m: Seq<char>, i: int) -> bool {
    0 <= i < m.len() && m[i] == '.' && forall|k: int| 0 <= k < i ==> m[k] != '.'
}

/// A method name `module.name` with its module in lower case; a name
/// without a `.` stays as it is.
pub open spec fn module_lowercased(m: Seq<char>) -> Seq<char> {
    if m.contains('.') {
        let i = choose|i: int| is_first_dot(m, i);
        lower_of(m.subrange(0, i)) + m.subrange(i, m.len() as int)
    } else {
        m
    }
}

/// Writes the module of a method name in lower case: `Player.load` becomes `player.load`.
pub fn name_with_lowercase_module(method: &str) -> (r: String)
    ensures
        r@ == module_lowercased(method@),
{
    let n = method.unicode_len();
    let mut i: usize = 0;
    while i < n
        invariant
            n == method@.len(),
            i <= n,
            forall|k: int| 0 <= k < i ==> method@[k] != '.',
        decreases n - i,
    {
        if method.get_char(i) == '.' {
            let module = lowercase(method.substring_char(0, i));
            let r = module.concat(method.substring_char(i, n));
            proof {
                let m = method@;
                assert(is_first_dot(m, i as int));
                assert(m.contains('.'));
                let j = choose|j: int| is_first_dot(m, j);
                if j < i {
                    assert(m[j] != '.');
                } else if j > i {
                    assert(m[i as int] != '.');
                }
                assert(j == i);
            }
            return r;
        }
        i = i + 1;
    }
    proof {
        assert(!method@.contains('.'));
    }
    method.to_owned()
}

/// A text could not be read as a JSON-RPC request.
#[derive(Debug)]
pub struct RequestParseError {}

impl RpcRequest {
    pub fn new(method: String, params_json: String, ctx: CallContext) -> (r: RpcRequest)
        ensures
            r == (RpcRequest { method, params_json, ctx }),
    {
        RpcRequest { method, params_json, ctx }
    }

    pub fn is_subscription(&self) -> (r: bool)
        ensures
            r == is_subscription_spec(self.method@, self.params_json@),
    {
        str_contains(self.method.as_str(), ".on") && str_contains(
            self.params_json.as_str(),
            "listen",
        )
    }

    /// Builds the request for a message that has been read as JSON: `is_jsonrpc`
    /// says whether it carried a `jsonrpc` member, `id` is its id, if any, and
    /// `params_json` the parameters with the call context already in front.
    /// A message that is not JSON-RPC is refused; a missing id counts as 0,
    /// and the method's module is written in lower case.
    pub fn from_parsed(
        is_jsonrpc: bool,
        id: Option<u64>,
        method: String,
        params_json: String,
        app_id: String,
        session_id: String,
        request_id: String,
        cid: Option<String>,
        gateway_secure: bool,
    ) -> (r: Result<RpcRequest, RequestParseError>)
        ensures
            r is Ok <==> is_jsonrpc,
            r matches Ok(req) ==> {
                &&& req.method@ == module_lowercased(method@)
                &&& req.params_json == params_json
                &&& req.ctx.session_id == session_id
                &&& req.ctx.request_id == request_id
                &&& req.ctx.app_id == app_id
                &&& req.ctx.call_id == match id {
                    Some(i) => i,
                    None => 0,
                }
                &&& req.ctx.protocol == ApiProtocol::JsonRpc
                &&& req.ctx.method == req.method
                &&& req.ctx.cid == cid
                &&& req.ctx.gateway_secure == gateway_secure
            },
    {
        if !is_jsonrpc {
            return Err(RequestParseError {  });
        }
        let method = name_with_lowercase_module(method.as_str());
        let call_id = match id {
            Some(i) => i,
            None => 0,
        };
        let ctx = CallContext::new(
            session_id,
            request_id,
            app_id,
            call_id,
            ApiProtocol::JsonRpc,
            method.clone(),
            cid,
            gateway_secure,
        );
        Ok(RpcRequest::new(method, params_json, ctx))
    }
}

/// The context of a client connection.
#[derive(Debug, Clone)]
pub struct ClientContext {
    pub session_id: String,
    pub app_id: String,
    pub gateway_secure: bool,
}

/// What the gateway is asked to do with an incoming message.
#[derive(Debug, Clone)]
#[allow(inconsistent_fields)]
pub enum RpcGatewayCommand {
    Handle { req: String, req_id: String, ctx: ClientContext },
    Route { req: RpcRequest },
}

} // verus!
