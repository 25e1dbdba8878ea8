//! The inbound event router: classifies every item received on an
//! established connection and dispatches it to credential invalidation,
//! reconnect scheduling, or voice-state synchronisation.
//!
//! Inbound items are modelled by `RpcItem`, which holds exactly the fields
//! the routing logic reads; the unverified shell converts the client
//! library's items into this form.

use vstd::prelude::*;

use crate::lifecycle::{lifecycle_step_rel, LifecycleStep, PluginState};

verus! {

/// The remote error code that means the stored credential is invalid or
/// expired; it is the only code that triggers recovery.
pub const INVALID_CREDENTIALS_CODE: u32 = 4006;

/// A push event from the remote process.
pub enum RpcEvent {
    Error { code: u32, message: Option<String> },
    VoiceSettingsUpdate { mute: Option<bool>, deaf: Option<bool> },
    Other,
}

/// A response to a command this plugin sent.
pub enum RpcCommandResponse {
    GetVoiceSettings { mute: Option<bool>, deaf: Option<bool> },
    Authorize { code: String },
    Other,
}

/// One inbound item on the connection.
pub enum RpcItem {
    Event(RpcEvent),
    Command(RpcCommandResponse),
    SocketClosed,
}

/// An absent voice flag defaults to inactive.
pub open spec fn spec_resolve_flag(o: Option<bool>) -> bool {
    match o {
        Some(b) => b,
        None => false,
    }
}

/// The voice state to reflect on the control surface: one flag per toggle
/// action kind.
#[derive(Clone, Copy, Debug, PartialEq, Eq, Structural)]
pub struct VoiceSync {
    pub mute: bool,
    pub deaf: bool,
}

/// Resolves an inbound voice-settings payload, defaulting each absent flag
/// to inactive.
pub fn apply_voice_state(mute: Option<bool>, deaf: Option<bool>) -> (r: VoiceSync)
    ensures
        r.mute == spec_resolve_flag(mute),
        r.deaf == spec_resolve_flag(deaf),
{
    VoiceSync { mute: mute.unwrap_or(false), deaf: deaf.unwrap_or(false) }
}

/// The visual state index shown for an action: active is 1, inactive is 0.
pub fn action_state_index(active: bool) -> (r: u16)
    ensures
        r == (if active {
            1u16
        } else {
            0u16
        }),
{
    if active {
        1
    } else {
        0
    }
}

/// What routing one item demands of the shell.
pub struct RouteOutcome {
    pub persist: bool,
    pub start_retry_loop: bool,
    pub voice_sync: Option<VoiceSync>,
}

/// Routing the item demands nothing of the shell.
pub open spec fn no_route_effects(r: RouteOutcome) -> bool {
    !r.persist && !r.start_retry_loop && r.voice_sync is None
}

/// Routes one inbound item. An error event bearing the invalid-credential
/// code clears the stored token, demands persistence and arms the reconnect
/// scheduler; other error events change nothing; voice-settings payloads are
/// resolved for the control surface; a closed channel arms the reconnect
/// scheduler; everything else is ignored.
pub fn handle_rpc_event(state: &mut PluginState, item: RpcItem) -> (r: RouteOutcome)
    ensures
        lifecycle_step_rel(*old(state), *final(state), LifecycleStep::Rpc(item)),
        match item {
            RpcItem::Event(RpcEvent::Error { code, .. }) => if code
                == INVALID_CREDENTIALS_CODE {
                r.persist && r.start_retry_loop == !old(state).reconnecting && r.voice_sync is None
            } else {
                no_route_effects(r)
            },
            RpcItem::Event(RpcEvent::VoiceSettingsUpdate { mute, deaf }) => !r.persist
                && !r.start_retry_loop && r.voice_sync == Some(
                VoiceSync { mute: spec_resolve_flag(mute), deaf: spec_resolve_flag(deaf) },
            ),
            RpcItem::Event(RpcEvent::Other) => no_route_effects(r),
            RpcItem::Command(RpcCommandResponse::GetVoiceSettings { mute, deaf }) => !r.persist
                && !r.start_retry_loop && r.voice_sync == Some(
                VoiceSync { mute: spec_resolve_flag(mute), deaf: spec_resolve_flag(deaf) },
            ),
            RpcItem::Command(_) => no_route_effects(r),
            RpcItem::SocketClosed => !r.persist && r.start_retry_loop == !old(
                state,
            ).reconnecting && r.voice_sync is None,
        },
{
    match item {
        RpcItem::Event(event) => match event {
            RpcEvent::Error { code, message: _ } => {
                if code == INVALID_CREDENTIALS_CODE {
                    state.settings.access_token = String::new();
                    let started = state.schedule_reconnect();
                    RouteOutcome { persist: true, start_retry_loop: started, voice_sync: None }
                } else {
                    RouteOutcome { persist: false, start_retry_loop: false, voice_sync: None }
                }
            },
            RpcEvent::VoiceSettingsUpdate { mute, deaf } => RouteOutcome {
                persist: false,
                start_retry_loop: false,
                voice_sync: Some(apply_voice_state(mute, deaf)),
            },
            RpcEvent::Other => RouteOutcome {
                persist: false,
                start_retry_loop: false,
                voice_sync: None,
            },
        },
        RpcItem::Command(command) => match command {
            RpcCommandResponse::GetVoiceSettings { mute, deaf } => RouteOutcome {
                persist: false,
                start_retry_loop: false,
                voice_sync: Some(apply_voice_state(mute, deaf)),
            },
            _ => RouteOutcome { persist: false, start_retry_loop: false, voice_sync: None },
        },
        RpcItem::SocketClosed => {
            let started = state.schedule_reconnect();
            RouteOutcome { persist: false, start_retry_loop: started, voice_sync: None }
        },
    }
}

/// Routing while the connection is still authorizing: the authorization
/// callback item yields its code for the token exchange; every other item is
/// forwarded to the general router unchanged.
pub enum AuthorizingRoute {
    ExchangeCode(String),
    Forward(RpcItem),
}

/// Classifies one inbound item during the authorization handshake.
pub fn route_authorizing(item: RpcItem) -> (r: AuthorizingRoute)
    ensures
        match item {
            RpcItem::Command(RpcCommandResponse::Authorize { code }) => r
                == AuthorizingRoute::ExchangeCode(code),
            _ => r == AuthorizingRoute::Forward(item),
        },
{
    match item {
        RpcItem::Command(RpcCommandResponse::Authorize { code }) => AuthorizingRoute::ExchangeCode(
            code,
        ),
        other => AuthorizingRoute::Forward(other),
    }
}

/// Voice-sync defaults: a voice-settings payload with both flags absent
/// resolves to inactive on both toggle kinds.
pub proof fn lemma_voice_sync_defaults()
    ensures
        !spec_resolve_flag(None),
        forall|b: bool| #[trigger] spec_resolve_flag(Some(b)) == b,
{
}

/// Credential invalidation: an inbound error event bearing the
/// invalid-credential code leaves the stored token empty and the reconnect
/// scheduler armed, with the rest of the configuration untouched.
pub proof fn lemma_credential_invalidation(
    pre: PluginState,
    post: PluginState,
    code: u32,
    message: Option<String>,
)
    requires
        lifecycle_step_rel(
            pre,
            post,
            LifecycleStep::Rpc(RpcItem::Event(RpcEvent::Error { code, message })),
        ),
        code == INVALID_CREDENTIALS_CODE,
    ensures
        post.settings.access_token@ == Seq::<char>::empty(),
        post.reconnecting,
        post.connection == pre.connection,
        post.settings.error == pre.settings.error,
{
}

} // verus!
