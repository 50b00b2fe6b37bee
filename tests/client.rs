use ripple::client::{ExtnClient, ExtnSender};
use ripple::extn_id::ExtnId;
use ripple::manifest::ExtnSymbol;

fn id(s: &str) -> ExtnId {
    ExtnId::try_from(s).unwrap()
}

fn symbol(s: &str) -> ExtnSymbol {
    ExtnSymbol { id: s.to_string(), uses: vec!["device:info".to_string()], fulfills: vec![] }
}

#[test]
fn sender_is_scoped_to_its_uses() {
    let sender = ExtnSender::new(9u32, id("ripple:channel:distributor:general"), vec!["device:info".to_string()]);
    assert_eq!(*sender.get_sender(), 9);
    assert!(sender.check_contract_permission(&"device:info".to_string()));
    assert!(!sender.check_contract_permission(&"device:browser".to_string()));
    let main = ExtnSender::new(9u32, id("ripple:main:internal:gateway"), vec![]);
    assert!(main.check_contract_permission(&"device:browser".to_string()));
}

#[test]
fn client_keeps_one_sender_per_extension() {
    let mut client: ExtnClient<u32> = ExtnClient::new();
    let thunder = id("ripple:channel:device:thunder");
    assert_eq!(client.get_extn_sender(&thunder), None);
    client.add_extn_sender(thunder.clone(), symbol("ripple:channel:device:thunder"), 1);
    assert_eq!(client.get_extn_sender(&thunder), Some(&1));
    client.add_extn_sender(thunder.clone(), symbol("ripple:channel:device:thunder"), 2);
    assert_eq!(client.get_extn_sender(&thunder), Some(&2));
    assert_eq!(client.get_extn_sender(&id("ripple:channel:device:other")), None);
    client.remove_extn_sender(&thunder);
    assert_eq!(client.get_extn_sender(&thunder), None);
}

#[test]
fn requests_are_tagged_or_refused() {
    let sender = ExtnSender::new((), id("ripple:channel:distributor:general"), vec!["device:info".to_string()]);
    let msg = sender.prepare_request("device:info".to_string(), 5u8).unwrap();
    assert_eq!(msg.extn_id.to_string(), "ripple:channel:distributor:general");
    assert_eq!(msg.contract, "device:info");
    assert_eq!(msg.payload, 5);
    assert_eq!(
        sender.prepare_request("device:browser".to_string(), 6u8).unwrap_err(),
        ripple::error::RippleError::PermissionDenied
    );
}
