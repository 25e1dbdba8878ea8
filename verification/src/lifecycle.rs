//! The shared plugin state and its lifecycle transitions: the configuration
//! store, the connection handle, and the single-flight reconnect flag.
//!
//! Every transition is a total function of the current state and one input;
//! `lifecycle_step_rel` relates the state before and after each kind of
//! transition, and the lemmas at the bottom state the lifecycle laws over it.

use vstd::prelude::*;
use vstd::string::StringExecFns;

use crate::builder::{build_error_message, spec_build_error_message, BuildError, ConnPhase};
use crate::rpc_events::{RpcCommandResponse, RpcEvent, RpcItem, INVALID_CREDENTIALS_CODE};
use crate::settings::{
    error_is, same_credentials, settings_changed, spec_settings_changed, DiscordSettings,
};

verus! {

/// Seconds between retry attempts of the reconnect loop.
pub const RECONNECT_INTERVAL_SECS: u64 = 5;

/// The process-wide shared state: the last-applied configuration, the
/// connection handle (at most one live connection), and the flag that makes
/// the reconnect loop single-flight.
pub struct PluginState {
    pub settings: DiscordSettings,
    pub connection: Option<ConnPhase>,
    pub reconnecting: bool,
}

/// One kind of lifecycle transition, with its input.
pub enum LifecycleStep {
    /// A schedule-reconnect request.
    Schedule,
    /// A configuration push from the host.
    Receive(DiscordSettings),
    /// An error string recorded for the user.
    RecordError(String),
    /// The stored error cleared after a successful authenticated setup.
    ClearError,
    /// The result of one build attempt.
    BuildResult(Result<ConnPhase, BuildError>),
    /// The result of the one-shot token exchange.
    TokenExchange(Result<String, String>),
    /// An inbound item routed on an established connection.
    Rpc(RpcItem),
}

/// How the state after a transition relates to the state before it.
pub open spec fn lifecycle_step_rel(
    pre: PluginState,
    post: PluginState,
    step: LifecycleStep,
) -> bool {
    match step {
        LifecycleStep::Schedule => post.reconnecting && post.settings == pre.settings
            && post.connection == pre.connection,
        LifecycleStep::Receive(new) => if spec_settings_changed(&pre.settings, &new) {
            post.settings == new && post.reconnecting && post.connection == pre.connection
        } else {
            post == pre
        },
        LifecycleStep::RecordError(msg) => error_is(&post.settings, msg@) && same_credentials(
            &post.settings,
            &pre.settings,
        ) && post.connection == pre.connection && post.reconnecting == pre.reconnecting && (
        error_is(&pre.settings, msg@) ==> post == pre),
        LifecycleStep::ClearError => post.settings.error is None && same_credentials(
            &post.settings,
            &pre.settings,
        ) && post.connection == pre.connection && post.reconnecting == pre.reconnecting,
        LifecycleStep::BuildResult(outcome) => match outcome {
            Ok(phase) => post.connection == Some(phase) && !post.reconnecting && post.settings
                == pre.settings,
            Err(e) => post.connection is None && post.reconnecting == pre.reconnecting
                && same_credentials(&post.settings, &pre.settings) && error_is(
                &post.settings,
                spec_build_error_message(e),
            ),
        },
        LifecycleStep::TokenExchange(outcome) => match outcome {
            Ok(token) => post.settings.access_token == token && post.settings.client_id
                == pre.settings.client_id && post.settings.client_secret
                == pre.settings.client_secret && post.settings.error == pre.settings.error
                && post.connection == pre.connection && post.reconnecting == pre.reconnecting,
            Err(detail) => error_is(
                &post.settings,
                "Failed to exchange code for token: "@ + detail@,
            ) && same_credentials(&post.settings, &pre.settings) && post.connection
                == pre.connection && post.reconnecting == pre.reconnecting,
        },
        LifecycleStep::Rpc(item) => match item {
            RpcItem::Event(RpcEvent::Error { code, .. }) => if code
                == INVALID_CREDENTIALS_CODE {
                post.settings.access_token@ == Seq::<char>::empty() && post.settings.client_id
                    == pre.settings.client_id && post.settings.client_secret
                    == pre.settings.client_secret && post.settings.error == pre.settings.error
                    && post.connection == pre.connection && post.reconnecting
            } else {
                post == pre
            },
            RpcItem::Event(RpcEvent::VoiceSettingsUpdate { .. }) => post == pre,
            RpcItem::Event(RpcEvent::Other) => post == pre,
            RpcItem::Command(RpcCommandResponse::GetVoiceSettings { .. }) => post == pre,
            RpcItem::Command(_) => post == pre,
            RpcItem::SocketClosed => post.reconnecting && post.settings == pre.settings
                && post.connection == pre.connection,
        },
    }
}

/// The state after a schedule-reconnect call, paired with whether that call
/// is the one that must start the retry loop.
pub open spec fn spec_schedule(s: PluginState) -> (PluginState, bool) {
    (PluginState { reconnecting: true, ..s }, !s.reconnecting)
}

/// What the host-push handler reports back: whether the configuration
/// actually changed, and whether this call must start the retry loop.
pub struct ReceiveOutcome {
    pub changed: bool,
    pub start_retry_loop: bool,
}

/// What applying a token-exchange result demands of the shell: persisting the
/// configuration, and running the authenticated setup on the live connection.
pub struct ExchangeOutcome {
    pub persist: bool,
    pub begin_setup: bool,
}

impl PluginState {
    /// The startup state: empty configuration, no connection, no retry loop.
    pub fn new() -> (r: PluginState)
        ensures
            r.settings.client_id@ == Seq::<char>::empty(),
            r.settings.client_secret@ == Seq::<char>::empty(),
            r.settings.access_token@ == Seq::<char>::empty(),
            r.settings.error is None,
            r.connection is None,
            !r.reconnecting,
    {
        PluginState { settings: DiscordSettings::new(), connection: None, reconnecting: false }
    }

    /// Whether a retry loop is currently active.
    pub fn reconnecting_flag(&self) -> (r: bool)
        ensures
            r == self.reconnecting,
    {
        self.reconnecting
    }

    /// The test-and-set that makes the retry loop single-flight: the flag is
    /// set afterwards in every case, and the caller must start the loop
    /// exactly when it was clear before.
    pub fn schedule_reconnect(&mut self) -> (started: bool)
        ensures
            lifecycle_step_rel(*old(self), *final(self), LifecycleStep::Schedule),
            (*final(self), started) == spec_schedule(*old(self)),
    {
        let started = !self.reconnecting;
        self.reconnecting = true;
        started
    }

    /// Records an error string for the user. Persistence is demanded only
    /// when the stored error actually changes.
    pub fn update_error(&mut self, error: String) -> (persist: bool)
        ensures
            lifecycle_step_rel(*old(self), *final(self), LifecycleStep::RecordError(error)),
            persist == !error_is(&old(self).settings, error@),
            !persist ==> *final(self) == *old(self),
    {
        let same = match &self.settings.error {
            Some(e) => *e == error,
            None => false,
        };
        if same {
            false
        } else {
            self.settings.error = Some(error);
            true
        }
    }

    /// Clears the stored error after a successful authenticated setup; the
    /// cleared configuration is always persisted.
    pub fn clear_error(&mut self) -> (persist: bool)
        ensures
            lifecycle_step_rel(*old(self), *final(self), LifecycleStep::ClearError),
            persist,
    {
        self.settings.error = None;
        true
    }

    /// Applies the result of one build attempt: a success fills the
    /// connection handle and ends the retry loop; a failure empties the
    /// handle and records the failure for the user.
    pub fn apply_build_result(&mut self, outcome: Result<ConnPhase, BuildError>) -> (persist:
        bool)
        ensures
            lifecycle_step_rel(*old(self), *final(self), LifecycleStep::BuildResult(outcome)),
            outcome is Ok ==> !persist,
            outcome matches Err(e) ==> persist == !error_is(
                &old(self).settings,
                spec_build_error_message(e),
            ),
    {
        match outcome {
            Ok(phase) => {
                self.connection = Some(phase);
                self.reconnecting = false;
                false
            },
            Err(e) => {
                self.connection = None;
                let msg = build_error_message(&e);
                self.update_error(msg)
            },
        }
    }

    /// Applies the result of the one-shot token exchange: a fresh token is
    /// stored and always persisted, and the authenticated setup must run if
    /// a connection is live; a failure is recorded for the user.
    pub fn apply_token_exchange(&mut self, outcome: Result<String, String>) -> (r:
        ExchangeOutcome)
        ensures
            lifecycle_step_rel(*old(self), *final(self), LifecycleStep::TokenExchange(outcome)),
            outcome is Ok ==> r.persist && r.begin_setup == (old(self).connection is Some),
            outcome matches Err(d) ==> !r.begin_setup && r.persist == !error_is(
                &old(self).settings,
                "Failed to exchange code for token: "@ + d@,
            ),
    {
        match outcome {
            Ok(token) => {
                self.settings.access_token = token;
                let begin = match &self.connection {
                    Some(_) => true,
                    None => false,
                };
                ExchangeOutcome { persist: true, begin_setup: begin }
            },
            Err(detail) => {
                let msg = String::from_str("Failed to exchange code for token: ").concat(
                    detail.as_str(),
                );
                let persist = self.update_error(msg);
                ExchangeOutcome { persist, begin_setup: false }
            },
        }
    }
}

/// Reacts to a configuration push from the host: only a changed or still
/// incomplete configuration is stored and triggers a reconnect.
pub struct GlobalEventHandler;

impl GlobalEventHandler {
    pub fn did_receive_global_settings(
        &self,
        state: &mut PluginState,
        new_settings: DiscordSettings,
    ) -> (r: ReceiveOutcome)
        ensures
            lifecycle_step_rel(*old(state), *final(state), LifecycleStep::Receive(new_settings)),
            r.changed == spec_settings_changed(&old(state).settings, &new_settings),
            r.start_retry_loop == (r.changed && !old(state).reconnecting),
    {
        if settings_changed(&state.settings, &new_settings) {
            state.settings = new_settings;
            let started = state.schedule_reconnect();
            ReceiveOutcome { changed: true, start_retry_loop: started }
        } else {
            ReceiveOutcome { changed: false, start_retry_loop: false }
        }
    }
}

/// How many of `n` consecutive schedule-reconnect calls start a retry loop.
pub open spec fn schedule_starts(s: PluginState, n: nat) -> nat
    decreases n,
{
    if n == 0 {
        0
    } else {
        (if spec_schedule(s).1 {
            1nat
        } else {
            0nat
        }) + schedule_starts(spec_schedule(s).0, (n - 1) as nat)
    }
}

/// Single-flight: among any run of consecutive schedule-reconnect calls,
/// exactly one starts a retry loop if none was running, and none does if one
/// was already running.
pub proof fn lemma_schedule_single_flight(s: PluginState, n: nat)
    requires
        n >= 1,
    ensures
        schedule_starts(s, n) == if s.reconnecting {
            0nat
        } else {
            1nat
        },
    decreases n,
{
    let next = spec_schedule(s).0;
    assert(next.reconnecting);
    if n == 1 {
        assert(schedule_starts(next, 0) == 0);
    } else {
        lemma_schedule_single_flight(next, (n - 1) as nat);
    }
}

/// The reconnecting flag is cleared only by a successful build: every other
/// transition leaves a set flag set.
pub proof fn lemma_flag_cleared_only_by_build_success(
    pre: PluginState,
    post: PluginState,
    step: LifecycleStep,
)
    requires
        lifecycle_step_rel(pre, post, step),
        pre.reconnecting,
        !post.reconnecting,
    ensures
        step matches LifecycleStep::BuildResult(r) && r is Ok,
{
}

/// A configuration push equal to the complete stored configuration is a
/// no-op: nothing is stored and no reconnect is scheduled.
pub proof fn lemma_identical_settings_no_reconnect(
    pre: PluginState,
    post: PluginState,
    new: DiscordSettings,
)
    requires
        lifecycle_step_rel(pre, post, LifecycleStep::Receive(new)),
        pre.settings.client_id@ == new.client_id@,
        pre.settings.client_secret@ == new.client_secret@,
        pre.settings.access_token@ == new.access_token@,
        pre.settings.client_id@.len() > 0,
        pre.settings.client_secret@.len() > 0,
        pre.settings.access_token@.len() > 0,
    ensures
        post == pre,
{
}

/// Connection exclusivity: a successful build leaves exactly the built
/// connection in the handle; a failed build leaves the handle empty.
pub proof fn lemma_connection_exclusivity(
    pre: PluginState,
    post: PluginState,
    outcome: Result<ConnPhase, BuildError>,
)
    requires
        lifecycle_step_rel(pre, post, LifecycleStep::BuildResult(outcome)),
    ensures
        outcome matches Ok(p) ==> post.connection == Some(p),
        outcome is Err ==> post.connection is None,
{
}

/// Recording an error leaves the state in which recording the same string
/// again demands no persistence, while clearing always does (see
/// `clear_error`).
pub proof fn lemma_error_record_idempotent(
    pre: PluginState,
    mid: PluginState,
    msg1: String,
    msg2: String,
)
    requires
        lifecycle_step_rel(pre, mid, LifecycleStep::RecordError(msg1)),
        msg2@ == msg1@,
    ensures
        error_is(&mid.settings, msg2@),
{
}

} // verus!
