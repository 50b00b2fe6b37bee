use ripple::contract::RippleContract;
use ripple::gateway::{name_with_lowercase_module, ApiBaseRequest, ApiMessage, ApiProtocol, CallContext, RpcRequest};

#[test]
fn test_extn_request_rpc() {
    let call_context = CallContext {
        session_id: "test_session_id".to_string(),
        request_id: "test_request_id".to_string(),
        app_id: "test_app_id".to_string(),
        call_id: 123,
        protocol: ApiProtocol::Bridge,
        method: "some_method".to_string(),
        cid: Some("some_cid".to_string()),
        gateway_secure: true,
    };

    let rpc_request = RpcRequest {
        method: "some_method".to_string(),
        params_json: r#"{"key": "value"}"#.to_string(),
        ctx: call_context,
    };
    let contract_type: RippleContract = RippleContract::Rpc;
    let payload = rpc_request.get_extn_payload();
    let back = RpcRequest::get_from_payload(payload);
    assert_eq!(back, Some(rpc_request));
    assert_eq!(RpcRequest::contract(), contract_type);
}

fn ctx_with(cid: Option<&str>) -> CallContext {
    CallContext::new(
        "sess".to_string(),
        "1".to_string(),
        "app".to_string(),
        7,
        ApiProtocol::JsonRpc,
        "module.method".to_string(),
        cid.map(|c| c.to_string()),
        true,
    )
}

#[test]
fn call_context_id_prefers_cid() {
    assert_eq!(ctx_with(Some("conn")).get_id(), "conn");
    assert_eq!(ctx_with(None).get_id(), "sess");
}

#[test]
fn api_message_error_markers() {
    let ok = ApiMessage::new(ApiProtocol::JsonRpc, r#"{"result":1}"#.to_string(), "1".to_string());
    assert!(!ok.is_error());
    let custom = ApiMessage::new(
        ApiProtocol::JsonRpc,
        r#"{"error":{"message":"Custom error: boom"}}"#.to_string(),
        "2".to_string(),
    );
    assert!(custom.is_error());
    let missing = ApiMessage::new(ApiProtocol::JsonRpc, "Method not found".to_string(), "3".to_string());
    assert!(missing.is_error());
}

#[test]
fn subscription_needs_on_method_and_listen_param() {
    let sub = RpcRequest::new(
        "player.onRequestLoad".to_string(),
        r#"[{}, {"listen": true}]"#.to_string(),
        ctx_with(None),
    );
    assert!(sub.is_subscription());
    let plain = RpcRequest::new("player.load".to_string(), r#"[{}, {"listen": true}]"#.to_string(), ctx_with(None));
    assert!(!plain.is_subscription());
    let no_listen = RpcRequest::new("player.onRequestLoad".to_string(), "[{}]".to_string(), ctx_with(None));
    assert!(!no_listen.is_subscription());
}

#[test]
fn from_parsed_refuses_non_jsonrpc_and_defaults_id() {
    let refused = RpcRequest::from_parsed(
        false,
        Some(3),
        "a.b".to_string(),
        "[]".to_string(),
        "app".to_string(),
        "sess".to_string(),
        "r".to_string(),
        None,
        false,
    );
    assert!(refused.is_err());
    let req = RpcRequest::from_parsed(
        true,
        None,
        "a.b".to_string(),
        "[]".to_string(),
        "app".to_string(),
        "sess".to_string(),
        "r".to_string(),
        None,
        false,
    )
    .unwrap();
    assert_eq!(req.ctx.call_id, 0);
    assert_eq!(req.ctx.protocol, ApiProtocol::JsonRpc);
    assert_eq!(req.method, "a.b");
}

#[test]
fn jsonrpc_member_marks_jsonrpc() {
    assert!(ApiBaseRequest { jsonrpc: Some("2.0".to_string()) }.is_jsonrpc());
    assert!(!ApiBaseRequest { jsonrpc: None }.is_jsonrpc());
}

#[test]
fn method_module_is_lowercased() {
    assert_eq!(name_with_lowercase_module("Player.Load"), "player.Load");
    assert_eq!(name_with_lowercase_module("LifeCycleManagement.onRequestReady.x"), "lifecyclemanagement.onRequestReady.x");
    assert_eq!(name_with_lowercase_module("NoModule"), "NoModule");
    assert_eq!(name_with_lowercase_module(""), "");
    let req = RpcRequest::from_parsed(
        true,
        Some(4),
        "Device.Name".to_string(),
        "[]".to_string(),
        "app".to_string(),
        "sess".to_string(),
        "r".to_string(),
        None,
        false,
    )
    .unwrap();
    assert_eq!(req.method, "device.Name");
    assert_eq!(req.ctx.method, "device.Name");
    assert_eq!(req.ctx.call_id, 4);
}
