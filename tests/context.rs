use ripple::context::{
    ContextEventAction, MainContextProcessor, RippleContext, RippleContextUpdateType, TokenAction,
    TokenConditions,
};

fn all_set(cap: bool) -> TokenConditions {
    TokenConditions {
        token_available: true,
        supports_cloud_sync: true,
        privacy_storage_is_sync: true,
        has_account_session: true,
        token_capability_available: cap,
    }
}

#[test]
fn first_token_syncs_privacy_and_grants() {
    assert_eq!(
        MainContextProcessor::token_actions(all_set(false)),
        vec![TokenAction::SyncPrivacy, TokenAction::SyncUserGrants]
    );
    assert_eq!(MainContextProcessor::token_actions(all_set(true)), vec![TokenAction::UpdateDistributorToken]);
}

#[test]
fn missing_condition_means_no_sync() {
    let mut c = all_set(false);
    c.privacy_storage_is_sync = false;
    assert!(MainContextProcessor::token_actions(c).is_empty());
    let mut c = all_set(false);
    c.token_available = false;
    assert!(MainContextProcessor::token_actions(c).is_empty());
}

fn context(update: Option<RippleContextUpdateType>, token: Option<&str>) -> RippleContext {
    RippleContext {
        account_token: token.map(|t| t.to_string()),
        power_on: true,
        internet_connected: true,
        update_type: update,
    }
}

#[test]
fn context_updates_pick_their_handler() {
    let mut current = context(None, None);
    let msg = context(Some(RippleContextUpdateType::TokenChanged), Some("tok"));
    assert_eq!(
        MainContextProcessor::process_event(&mut current, msg),
        Some(ContextEventAction::InitializeToken)
    );
    assert_eq!(current, context(Some(RippleContextUpdateType::TokenChanged), Some("tok")));
    assert_eq!(
        MainContextProcessor::process_event(&mut current, context(Some(RippleContextUpdateType::TokenChanged), None)),
        Some(ContextEventAction::StoreOnly)
    );
    assert_eq!(current.account_token, None);
    let mut off = context(Some(RippleContextUpdateType::PowerStateChanged), None);
    off.power_on = false;
    assert_eq!(
        MainContextProcessor::process_event(&mut current, off),
        Some(ContextEventAction::HandlePowerState)
    );
    assert!(!current.power_on);
}

#[test]
fn event_without_update_is_ignored() {
    let mut current = context(Some(RippleContextUpdateType::PowerStateChanged), Some("kept"));
    assert_eq!(MainContextProcessor::process_event(&mut current, context(None, None)), None);
    assert_eq!(current.account_token, Some("kept".to_string()));
}
