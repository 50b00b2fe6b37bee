use vstd::prelude::*;

verus! {

/// What changed in the device context.
#[derive(Debug, Clone, Copy, PartialEq, Eq, Structural)]
pub enum RippleContextUpdateType {
    TokenChanged,
    PowerStateChanged,
    InternetConnectionChanged,
    ActivationStatusChanged,
}

/// The state of the device as the gateway sees it, and what changed last.
#[derive(Debug, PartialEq)]
pub struct RippleContext {
    /// The account token, once the device is activated with an account.
    pub account_token: Option<String>,
    pub power_on: bool,
    pub internet_connected: bool,
    pub update_type: Option<RippleContextUpdateType>,
}

/// A sync request that the gateway sends to the distributor once the account token is known.
#[derive(Debug, Clone, Copy, PartialEq, Eq, Structural)]
pub enum TokenAction {
    SyncPrivacy,
    SyncUserGrants,
    UpdateDistributorToken,
}

/// What is known when the account token changes.
#[derive(Debug, Clone, Copy, PartialEq, Eq, Structural)]
pub struct TokenConditions {
    /// The account session could be fetched.
    pub token_available: bool,
    /// The device is configured to sync with the cloud.
    pub supports_cloud_sync: bool,
    /// Privacy settings are kept in the cloud.
    pub privacy_storage_is_sync: bool,
    /// An account session is stored.
    pub has_account_session: bool,
    /// The account-token capability was already available before this change.
    pub token_capability_available: bool,
}

/// The sync requests owed when the account token changes: none unless the
/// token is available, the device syncs with the cloud, privacy settings
/// are kept there and a session is stored; then a full sync of privacy and
/// user grants the first time, and only a token update afterwards.
pub open spec fn token_actions_spec(c: TokenConditions) -> Seq<TokenAction> {
    if !(c.token_available && c.supports_cloud_sync && c.privacy_storage_is_sync
        && c.has_account_session) {
        Seq::empty()
    } else if !c.token_capability_available {
        seq![TokenAction::SyncPrivacy, TokenAction::SyncUserGrants]
    } else {
        seq![TokenAction::UpdateDistributorToken]
    }
}

/// What the main context processor does with one context update.
#[derive(Debug, Clone, Copy, PartialEq, Eq, Structural)]
pub enum ContextEventAction {
    /// Re-read the account session and sync what the token allows.
    InitializeToken,
    /// Apply the new power state to the user grants.
    HandlePowerState,
    /// Nothing beyond storing the new context.
    StoreOnly,
}

/// Decides, for the gateway's main context processor, what each context
/// update calls for, and keeps the current context. The caller performs the
/// requests.
pub struct MainContextProcessor;

impl MainContextProcessor {
    pub fn token_actions(c: TokenConditions) -> (r: Vec<TokenAction>)
        ensures
            r@ == token_actions_spec(c),
    {
        let mut r: Vec<TokenAction> = Vec::new();
        if c.token_available && c.supports_cloud_sync && c.privacy_storage_is_sync
            && c.has_account_session {
            if !c.token_capability_available {
                r.push(TokenAction::SyncPrivacy);
                r.push(TokenAction::SyncUserGrants);
            } else {
                r.push(TokenAction::UpdateDistributorToken);
            }
        }
        proof {
            assert(r@ =~= token_actions_spec(c));
        }
        r
    }

    /// A token change matters only when it carries an account token; a
    /// power change always does; any other update is only stored. An event
    /// that names no update changes nothing and calls for nothing; any other
    /// event's context becomes the current context.
    pub fn process_event(current: &mut RippleContext, extracted_message: RippleContext) -> (r:
        Option<ContextEventAction>)
        ensures
            r == match extracted_message.update_type {
                None => None,
                Some(RippleContextUpdateType::TokenChanged) => if extracted_message.account_token is Some {
                    Some(ContextEventAction::InitializeToken)
                } else {
                    Some(ContextEventAction::StoreOnly)
                },
                Some(RippleContextUpdateType::PowerStateChanged) => Some(
                    ContextEventAction::HandlePowerState,
                ),
                Some(_) => Some(ContextEventAction::StoreOnly),
            },
            extracted_message.update_type is None ==> *final(current) == *old(current),
            extracted_message.update_type is Some ==> *final(current) == extracted_message,
    {
        let action = match extracted_message.update_type {
            None => None,
            Some(RippleContextUpdateType::TokenChanged) => {
                if extracted_message.account_token.is_some() {
                    Some(ContextEventAction::InitializeToken)
                } else {
                    Some(ContextEventAction::StoreOnly)
                }
            },
            Some(RippleContextUpdateType::PowerStateChanged) => Some(
                ContextEventAction::HandlePowerState,
            ),
            Some(_) => Some(ContextEventAction::StoreOnly),
        };
        if extracted_message.update_type.is_some() {
            *current = extracted_message;
        }
        action
    }
}

} // verus!
