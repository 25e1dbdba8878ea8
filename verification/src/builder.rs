//! The connection builder: a state machine that, driven by the outcomes of
//! the channel, authentication and authorization operations, decides the next
//! operation to perform and the final result of a build attempt.
//!
//! The unverified shell owns the actual IPC client; it feeds every operation
//! outcome back into `build_step` and performs the command that comes out.

use vstd::prelude::*;
use vstd::string::StringExecFns;

use crate::settings::{credentials_missing, has_missing_credentials, DiscordSettings};

verus! {

/// The sub-state of a successfully built connection: fully authenticated and
/// ready for voice commands, or still waiting for the authorization callback.
#[derive(Clone, Copy, Debug, PartialEq, Eq, Structural)]
pub enum ConnPhase {
    Authorizing,
    Ready,
}

/// The step of the authenticated setup that failed.
#[derive(Clone, Copy, Debug, PartialEq, Eq, Structural)]
pub enum SetupStep {
    Authenticate,
    Subscribe,
    FetchVoiceSettings,
}

/// Why a build attempt failed.
#[derive(Debug, PartialEq, Eq)]
pub enum BuildError {
    /// A required credential field is empty; no channel was opened.
    MissingCredentials,
    /// The local IPC channel could not be opened.
    ChannelUnavailable(String),
    /// The token was rejected, or a later authenticated-setup step failed.
    AuthenticationFailed(SetupStep, String),
    /// The authorization request could not be sent.
    AuthorizationHandshakeFailed(String),
}

/// Where a build attempt currently stands.
#[derive(Debug, PartialEq, Eq)]
pub enum BuildPhase {
    Start,
    AwaitChannel,
    AwaitAuthenticate,
    AwaitSubscribe,
    AwaitVoiceQuery,
    AwaitAuthorizeSend,
    Complete(ConnPhase),
    Failed(BuildError),
}

/// The outcome of the operation the shell last performed.
#[derive(Debug, PartialEq, Eq)]
pub enum BuildEvent {
    Begin,
    ChannelOpened,
    ChannelFailed(String),
    AuthenticateOk,
    AuthenticateFailed(String),
    SubscribeOk,
    SubscribeFailed(String),
    VoiceQuerySent,
    VoiceQueryFailed(String),
    AuthorizeSent,
    AuthorizeSendFailed(String),
}

/// The operation the shell must perform next.
#[derive(Clone, Copy, Debug, PartialEq, Eq, Structural)]
pub enum BuildCmd {
    /// Open the local IPC channel with the configured application id.
    OpenChannel,
    /// Submit the stored access token on the open channel.
    Authenticate,
    /// Subscribe to voice-settings-change push notifications.
    Subscribe,
    /// Request the current voice settings once.
    FetchVoiceSettings,
    /// Send the authorization request naming the required scopes.
    SendAuthorize,
    /// Clear the stored error and persist the configuration.
    ClearError,
    /// Nothing left to perform: the phase is terminal, or the event did not
    /// belong to the current phase.
    Idle,
}

/// One transition of the build state machine. Fail fast on missing
/// credentials; otherwise open the channel, then either run the
/// authenticated setup (token present) or send the authorization request
/// (token absent). An event that does not belong to the current phase
/// changes nothing.
pub open spec fn spec_build_step(
    phase: BuildPhase,
    settings: DiscordSettings,
    event: BuildEvent,
) -> (BuildPhase, BuildCmd) {
    match (phase, event) {
        (BuildPhase::Start, BuildEvent::Begin) => if credentials_missing(&settings) {
            (BuildPhase::Failed(BuildError::MissingCredentials), BuildCmd::Idle)
        } else {
            (BuildPhase::AwaitChannel, BuildCmd::OpenChannel)
        },
        (BuildPhase::AwaitChannel, BuildEvent::ChannelOpened) => if settings.access_token@.len()
            == 0 {
            (BuildPhase::AwaitAuthorizeSend, BuildCmd::SendAuthorize)
        } else {
            (BuildPhase::AwaitAuthenticate, BuildCmd::Authenticate)
        },
        (BuildPhase::AwaitChannel, BuildEvent::ChannelFailed(d)) => (
            BuildPhase::Failed(BuildError::ChannelUnavailable(d)),
            BuildCmd::Idle,
        ),
        (BuildPhase::AwaitAuthenticate, BuildEvent::AuthenticateOk) => (
            BuildPhase::AwaitSubscribe,
            BuildCmd::Subscribe,
        ),
        (BuildPhase::AwaitAuthenticate, BuildEvent::AuthenticateFailed(d)) => (
            BuildPhase::Failed(BuildError::AuthenticationFailed(SetupStep::Authenticate, d)),
            BuildCmd::Idle,
        ),
        (BuildPhase::AwaitSubscribe, BuildEvent::SubscribeOk) => (
            BuildPhase::AwaitVoiceQuery,
            BuildCmd::FetchVoiceSettings,
        ),
        (BuildPhase::AwaitSubscribe, BuildEvent::SubscribeFailed(d)) => (
            BuildPhase::Failed(BuildError::AuthenticationFailed(SetupStep::Subscribe, d)),
            BuildCmd::Idle,
        ),
        (BuildPhase::AwaitVoiceQuery, BuildEvent::VoiceQuerySent) => (
            BuildPhase::Complete(ConnPhase::Ready),
            BuildCmd::ClearError,
        ),
        (BuildPhase::AwaitVoiceQuery, BuildEvent::VoiceQueryFailed(d)) => (
            BuildPhase::Failed(
                BuildError::AuthenticationFailed(SetupStep::FetchVoiceSettings, d),
            ),
            BuildCmd::Idle,
        ),
        (BuildPhase::AwaitAuthorizeSend, BuildEvent::AuthorizeSent) => (
            BuildPhase::Complete(ConnPhase::Authorizing),
            BuildCmd::Idle,
        ),
        (BuildPhase::AwaitAuthorizeSend, BuildEvent::AuthorizeSendFailed(d)) => (
            BuildPhase::Failed(BuildError::AuthorizationHandshakeFailed(d)),
            BuildCmd::Idle,
        ),
        (p, _) => (p, BuildCmd::Idle),
    }
}

/// Advances a build attempt by one event and names the operation to perform
/// next.
pub fn build_step(phase: BuildPhase, settings: &DiscordSettings, event: BuildEvent) -> (r: (
    BuildPhase,
    BuildCmd,
))
    ensures
        r == spec_build_step(phase, *settings, event),
{
    match (phase, event) {
        (BuildPhase::Start, BuildEvent::Begin) => {
            if has_missing_credentials(settings) {
                (BuildPhase::Failed(BuildError::MissingCredentials), BuildCmd::Idle)
            } else {
                (BuildPhase::AwaitChannel, BuildCmd::OpenChannel)
            }
        },
        (BuildPhase::AwaitChannel, BuildEvent::ChannelOpened) => {
            if settings.access_token.as_str().is_empty() {
                (BuildPhase::AwaitAuthorizeSend, BuildCmd::SendAuthorize)
            } else {
                (BuildPhase::AwaitAuthenticate, BuildCmd::Authenticate)
            }
        },
        (BuildPhase::AwaitChannel, BuildEvent::ChannelFailed(d)) => (
            BuildPhase::Failed(BuildError::ChannelUnavailable(d)),
            BuildCmd::Idle,
        ),
        (BuildPhase::AwaitAuthenticate, BuildEvent::AuthenticateOk) => (
            BuildPhase::AwaitSubscribe,
            BuildCmd::Subscribe,
        ),
        (BuildPhase::AwaitAuthenticate, BuildEvent::AuthenticateFailed(d)) => (
            BuildPhase::Failed(BuildError::AuthenticationFailed(SetupStep::Authenticate, d)),
            BuildCmd::Idle,
        ),
        (BuildPhase::AwaitSubscribe, BuildEvent::SubscribeOk) => (
            BuildPhase::AwaitVoiceQuery,
            BuildCmd::FetchVoiceSettings,
        ),
        (BuildPhase::AwaitSubscribe, BuildEvent::SubscribeFailed(d)) => (
            BuildPhase::Failed(BuildError::AuthenticationFailed(SetupStep::Subscribe, d)),
            BuildCmd::Idle,
        ),
        (BuildPhase::AwaitVoiceQuery, BuildEvent::VoiceQuerySent) => (
            BuildPhase::Complete(ConnPhase::Ready),
            BuildCmd::ClearError,
        ),
        (BuildPhase::AwaitVoiceQuery, BuildEvent::VoiceQueryFailed(d)) => (
            BuildPhase::Failed(
                BuildError::AuthenticationFailed(SetupStep::FetchVoiceSettings, d),
            ),
            BuildCmd::Idle,
        ),
        (BuildPhase::AwaitAuthorizeSend, BuildEvent::AuthorizeSent) => (
            BuildPhase::Complete(ConnPhase::Authorizing),
            BuildCmd::Idle,
        ),
        (BuildPhase::AwaitAuthorizeSend, BuildEvent::AuthorizeSendFailed(d)) => (
            BuildPhase::Failed(BuildError::AuthorizationHandshakeFailed(d)),
            BuildCmd::Idle,
        ),
        (p, _) => (p, BuildCmd::Idle),
    }
}

/// The user-visible description of a failed build attempt.
pub open spec fn spec_build_error_message(e: BuildError) -> Seq<char> {
    match e {
        BuildError::MissingCredentials => "Client ID or Client Secret not configured"@,
        BuildError::ChannelUnavailable(d) => "Failed to connect to Discord: "@ + d@,
        BuildError::AuthenticationFailed(SetupStep::Authenticate, d) => "Failed to authenticate: "@
            + d@,
        BuildError::AuthenticationFailed(SetupStep::Subscribe, d) =>
            "Failed to subscribe to voice updates: "@ + d@,
        BuildError::AuthenticationFailed(SetupStep::FetchVoiceSettings, d) =>
            "Failed to fetch initial voice settings: "@ + d@,
        BuildError::AuthorizationHandshakeFailed(d) => "Failed to start authorization: "@ + d@,
    }
}

/// Renders a build failure as the error string recorded in the configuration.
pub fn build_error_message(e: &BuildError) -> (r: String)
    ensures
        r@ == spec_build_error_message(*e),
{
    match e {
        BuildError::MissingCredentials => String::from_str(
            "Client ID or Client Secret not configured",
        ),
        BuildError::ChannelUnavailable(d) => String::from_str(
            "Failed to connect to Discord: ",
        ).concat(d.as_str()),
        BuildError::AuthenticationFailed(SetupStep::Authenticate, d) => String::from_str(
            "Failed to authenticate: ",
        ).concat(d.as_str()),
        BuildError::AuthenticationFailed(SetupStep::Subscribe, d) => String::from_str(
            "Failed to subscribe to voice updates: ",
        ).concat(d.as_str()),
        BuildError::AuthenticationFailed(SetupStep::FetchVoiceSettings, d) => String::from_str(
            "Failed to fetch initial voice settings: ",
        ).concat(d.as_str()),
        BuildError::AuthorizationHandshakeFailed(d) => String::from_str(
            "Failed to start authorization: ",
        ).concat(d.as_str()),
    }
}

/// The two permission scopes named in the authorization request.
pub fn authorize_scopes() -> (r: Vec<String>)
    ensures
        r@.len() == 2,
        r@[0]@ == "rpc"@,
        r@[1]@ == "identify"@,
{
    let mut scopes: Vec<String> = Vec::new();
    scopes.push(String::from_str("rpc"));
    scopes.push(String::from_str("identify"));
    scopes
}

} // verus!
