use ripple::bootstrap::LoadExtensionsStep;
use ripple::error::RippleError;
use ripple::extn_id::{ExtnClassId, ExtnId, ExtnType};
use ripple::extn_state::{ExtnState, ExtnStatus, LoadedLibrary};
use ripple::manifest::{ExtnManifestEntry, ExtnMetadata, ExtnSymbol, ExtnSymbolMetadata};

fn id(s: &str) -> ExtnId {
    ExtnId::try_from(s).unwrap()
}

fn symbol(s: &str) -> ExtnSymbol {
    ExtnSymbol { id: s.to_string(), uses: vec!["config".to_string()], fulfills: vec![] }
}

fn library(handle: u8, declared: &[&str], requested: &[&str]) -> LoadedLibrary<u8> {
    let metadata = ExtnMetadata {
        name: format!("lib{}", handle),
        symbols: declared.iter().map(|d| ExtnSymbolMetadata { id: id(d) }).collect(),
    };
    let entry = ExtnManifestEntry {
        path: format!("/usr/lib/lib{}.so", handle),
        symbols: requested.iter().map(|r| symbol(r)).collect(),
    };
    LoadedLibrary::new(handle, metadata, entry)
}

#[test]
fn extn_id_parses_and_prints() {
    let parsed = id("ripple:channel:device:thunder");
    assert_eq!(parsed.extn_type, ExtnType::Channel);
    assert_eq!(parsed.class, ExtnClassId::Device);
    assert_eq!(parsed.service, "thunder");
    assert!(parsed.is_channel());
    assert!(parsed.is_device_channel());
    assert!(!parsed.is_extn());
    assert_eq!(parsed.to_string(), "ripple:channel:device:thunder");
    let extn = id("ripple:extn:distributor:general");
    assert!(extn.is_extn());
    assert!(!extn.is_device_channel());
}

#[test]
fn extn_id_rejects_malformed_text() {
    assert_eq!(ExtnId::try_from("ripple:channel:device"), Err(RippleError::ParseError));
    assert_eq!(ExtnId::try_from("other:channel:device:x"), Err(RippleError::ParseError));
    assert_eq!(ExtnId::try_from("ripple:plugin:device:x"), Err(RippleError::ParseError));
    assert_eq!(ExtnId::try_from("ripple:channel:toaster:x"), Err(RippleError::ParseError));
    assert_eq!(ExtnId::try_from("ripple:channel:device:x:y"), Err(RippleError::ParseError));
    assert_eq!(ExtnId::try_from(""), Err(RippleError::ParseError));
}

#[test]
fn extn_id_keeps_empty_service() {
    let parsed = id("ripple:main:internal:");
    assert_eq!(parsed.service, "");
    assert_eq!(parsed.extn_type, ExtnType::Main);
}

#[test]
fn status_is_last_write_wins() {
    let mut state: ExtnState<u8, u32, u32, u32> = ExtnState::new(0);
    let device = id("ripple:extn:device:info");
    assert!(!state.is_extn_ready(device.clone()));
    state.update_extn_status(device.clone(), ExtnStatus::Ready);
    assert!(state.is_extn_ready(device.clone()));
    state.update_extn_status(device.clone(), ExtnStatus::Ready);
    assert!(state.is_extn_ready(device.clone()));
    state.update_extn_status(device.clone(), ExtnStatus::Unknown);
    assert!(!state.is_extn_ready(device.clone()));
    state.update_extn_status(device.clone(), ExtnStatus::Ready);
    assert!(state.is_extn_ready(device.clone()));
    state.update_extn_status(device.clone(), ExtnStatus::Initializing);
    assert!(!state.is_extn_ready(device));
}

#[test]
fn listener_after_ready_returns_true_without_registering() {
    let mut state: ExtnState<u8, u32, u32, u32> = ExtnState::new(0);
    let device = id("ripple:extn:device:info");
    state.update_extn_status(device.clone(), ExtnStatus::Ready);
    assert!(state.add_extn_status_listener(device.clone(), 42));
    assert_eq!(state.get_extn_status_listener(device), None);
}

#[test]
fn listener_before_ready_is_registered_and_cleared() {
    let mut state: ExtnState<u8, u32, u32, u32> = ExtnState::new(0);
    let device = id("ripple:extn:device:info");
    let other = id("ripple:extn:device:other");
    assert!(!state.add_extn_status_listener(device.clone(), 7));
    assert_eq!(state.get_extn_status_listener(device.clone()), Some(&7));
    assert_eq!(state.get_extn_status_listener(other), None);
    assert!(!state.add_extn_status_listener(device.clone(), 8));
    assert_eq!(state.get_extn_status_listener(device.clone()), Some(&8));
    state.clear_status_listener(device.clone());
    assert_eq!(state.get_extn_status_listener(device), None);
}

#[test]
fn loaded_library_filters_channels_and_extns() {
    let lib = library(
        1,
        &["ripple:channel:device:thunder", "ripple:extn:device:info", "ripple:channel:distributor:general"],
        &["ripple:channel:distributor:general", "ripple:channel:device:thunder", "ripple:channel:launcher:x", "ripple:extn:device:info"],
    );
    let channels: Vec<String> = lib.get_channels().into_iter().map(|s| s.id).collect();
    assert_eq!(channels, vec!["ripple:channel:device:thunder", "ripple:channel:distributor:general"]);
    let extns: Vec<String> = lib.get_extns().iter().map(|e| e.to_string()).collect();
    assert_eq!(extns, vec!["ripple:extn:device:info"]);
    assert_eq!(lib.get_metadata().name, "lib1");
}

#[test]
fn bootstrap_partitions_device_and_deferred() {
    let mut state: ExtnState<u8, u32, u32, u32> = ExtnState::new(0);
    state.loaded_libraries.push(library(
        1,
        &["ripple:channel:device:thunder", "ripple:channel:distributor:general"],
        &["ripple:channel:device:thunder", "ripple:channel:distributor:general"],
    ));
    state.loaded_libraries.push(library(2, &["ripple:channel:launcher:home"], &["ripple:channel:launcher:home"]));
    let plans = LoadExtensionsStep::plan(&state).unwrap();
    assert_eq!(plans.len(), 3);
    assert_eq!(plans[2].library, 1);
    let built = vec![Some(10), Some(20), Some(30)];
    assert_eq!(LoadExtensionsStep::setup(&mut state, plans, built), Ok(()));
    let device: Vec<u32> = state.device_channels.iter().map(|c| c.channel).collect();
    let deferred: Vec<u32> = state.deferred_channels.iter().map(|c| c.channel).collect();
    assert_eq!(device, vec![10]);
    assert_eq!(deferred, vec![20, 30]);
    assert_eq!(state.deferred_channels[1].extn_id.to_string(), "ripple:channel:launcher:home");
    assert_eq!(state.device_channels[0].symbol.uses, vec!["config".to_string()]);
}

#[test]
fn bootstrap_skips_undeclared_symbols_and_fails_on_unparsable_channel_id() {
    let mut state: ExtnState<u8, u32, u32, u32> = ExtnState::new(0);
    let mut lib = library(1, &["ripple:channel:device:thunder"], &["ripple:channel:device:thunder"]);
    lib.entry.symbols.push(symbol("not-an-id"));
    state.loaded_libraries.push(lib);
    assert_eq!(LoadExtensionsStep::plan(&state).unwrap().len(), 1);

    let mut bad = ExtnState::<u8, u32, u32, u32>::new(0);
    let mut lib2 = library(2, &["ripple:channel:device:thunder"], &["ripple:channel:device:thunder"]);
    lib2.metadata.symbols.push(ExtnSymbolMetadata {
        id: ExtnId::new(ExtnType::Channel, ExtnClassId::Device, "a:b".to_string()),
    });
    lib2.entry.symbols.push(symbol("ripple:channel:device:a:b"));
    bad.loaded_libraries.push(lib2);
    assert_eq!(LoadExtensionsStep::plan(&bad).err(), Some(RippleError::BootstrapError));
}

#[test]
fn bootstrap_fails_when_a_channel_cannot_be_built() {
    let mut state: ExtnState<u8, u32, u32, u32> = ExtnState::new(0);
    state.loaded_libraries.push(library(
        1,
        &["ripple:channel:device:thunder", "ripple:channel:distributor:general"],
        &["ripple:channel:device:thunder", "ripple:channel:distributor:general"],
    ));
    let plans = LoadExtensionsStep::plan(&state).unwrap();
    assert_eq!(LoadExtensionsStep::setup(&mut state, plans, vec![Some(1), None]), Err(RippleError::BootstrapError));
    assert!(state.device_channels.is_empty());
    assert!(state.deferred_channels.is_empty());
    assert_eq!(LoadExtensionsStep.get_name(), "LoadExtensionsStep");
}

#[test]
fn listener_for_ready_device_info_is_not_registered() {
    let mut state: ExtnState<u8, u32, tokio::sync::mpsc::Sender<ExtnStatus>, u32> = ExtnState::new(0);
    let device_info = id("ripple:extn:device:info");
    state.update_extn_status(device_info.clone(), ExtnStatus::Ready);
    let (sender, mut receiver) = tokio::sync::mpsc::channel::<ExtnStatus>(1);
    assert!(state.add_extn_status_listener(device_info.clone(), sender));
    assert!(state.get_extn_status_listener(device_info).is_none());
    assert!(receiver.try_recv().is_err());
}

#[test]
fn extn_id_text_reads_back() {
    for text in ["ripple:channel:device:thunder", "ripple:extn:datagovernance:x", "ripple:main:internal:"] {
        let parsed = id(text);
        assert_eq!(ExtnId::try_from(parsed.to_string().as_str()), Ok(parsed));
    }
    let built = ExtnId::new(ExtnType::Extn, ExtnClassId::Protected, "vault".to_string());
    assert_eq!(ExtnId::try_from(built.to_string().as_str()), Ok(built));
}

#[test]
fn extns_must_be_named_by_the_manifest() {
    let lib = library(3, &["ripple:extn:device:info", "ripple:extn:device:other"], &["ripple:extn:device:other"]);
    let extns: Vec<String> = lib.get_extns().iter().map(|e| e.to_string()).collect();
    assert_eq!(extns, vec!["ripple:extn:device:other"]);
    let bare = library(4, &["ripple:extn:device:info"], &[]);
    assert!(bare.get_extns().is_empty());
}

#[test]
fn every_manifest_symbol_of_a_channel_is_kept_once() {
    let mut lib = library(
        5,
        &["ripple:channel:device:x", "ripple:channel:device:x", "ripple:channel:launcher:y"],
        &["ripple:channel:launcher:y", "ripple:channel:device:x"],
    );
    let mut second = symbol("ripple:channel:device:x");
    second.uses = vec!["main:rpc".to_string()];
    lib.entry.symbols.push(second);
    let channels = lib.get_channels();
    let ids: Vec<&str> = channels.iter().map(|s| s.id.as_str()).collect();
    assert_eq!(ids, vec!["ripple:channel:device:x", "ripple:channel:device:x", "ripple:channel:launcher:y"]);
    assert_eq!(channels[0].uses, vec!["config".to_string()]);
    assert_eq!(channels[1].uses, vec!["main:rpc".to_string()]);
}

#[test]
fn registry_keeps_the_outbound_sender() {
    let state: ExtnState<u8, u32, u32, u32> = ExtnState::new(77);
    assert_eq!(*state.get_sender(), 77);
}
