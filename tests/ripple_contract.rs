use ripple::contract::{DeviceContract, MainContract, PlayerAdjective, RippleContract};
use ripple::error::RippleError;

#[test]
fn test_into() {
    let value: String = RippleContract::Device(DeviceContract::Info).into();
    println!("{}", value);
    assert!(value.eq("device:info"));
    let result = RippleContract::try_from(value);
    assert!(result.is_ok());
    assert!(if let Ok(RippleContract::Device(cap)) = result {
        if let DeviceContract::Info = cap {
            true
        } else {
            false
        }
    } else {
        false
    });
}

#[test]
fn contract_parsing_ignores_case() {
    assert_eq!(
        RippleContract::try_from("MAIN:Config".to_string()),
        Ok(RippleContract::Main(MainContract::Config))
    );
    assert_eq!(
        RippleContract::try_from("Device:WindowManager".to_string()),
        Ok(RippleContract::Device(DeviceContract::WindowManager))
    );
}

#[test]
fn contract_parsing_errors() {
    assert_eq!(RippleContract::try_from("device".to_string()), Err(RippleError::ParseError));
    assert_eq!(RippleContract::try_from("device:info:x".to_string()), Err(RippleError::ParseError));
    assert_eq!(RippleContract::try_from("device:toaster".to_string()), Err(RippleError::ParseError));
    assert_eq!(RippleContract::try_from("player:base".to_string()), Err(RippleError::ParseError));
    assert_eq!(RippleContract::try_from("device:hdmi".to_string()), Err(RippleError::ParseError));
    assert_eq!(DeviceContract::try_from("hdmi"), Err(RippleError::ParseError));
}

#[test]
fn contract_from_lowercase_parts() {
    assert_eq!(
        RippleContract::from_lowercase_parts("main", "extnstatus"),
        Ok(RippleContract::Main(MainContract::ExtnStatus))
    );
    assert_eq!(RippleContract::from_lowercase_parts("Main", "rpc"), Err(RippleError::ParseError));
}

#[test]
fn contract_texts_and_short_names() {
    assert_eq!(RippleContract::Main(MainContract::Rpc).as_string(), "Main(Rpc)");
    assert_eq!(PlayerAdjective::Base.get_contract().as_string(), "Player(Base)");
    assert_eq!(RippleContract::Device(DeviceContract::Hdmi).get_short(), Some("device".to_string()));
    assert_eq!(RippleContract::Main(MainContract::Config).get_short(), Some("main".to_string()));
    assert_eq!(RippleContract::Session.get_short(), None);
    assert!(RippleContract::Internal.is_main());
    assert!(RippleContract::Main(MainContract::Config).is_main());
    assert!(!RippleContract::Launcher.is_main());
}
