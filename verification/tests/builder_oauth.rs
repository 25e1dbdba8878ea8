use oadiscord::builder::{
    authorize_scopes, build_error_message, build_step, BuildCmd, BuildError, BuildEvent,
    BuildPhase, ConnPhase, SetupStep,
};
use oadiscord::lifecycle::PluginState;
use oadiscord::oauth::parse_token_exchange_response;
use oadiscord::rpc_events::{route_authorizing, AuthorizingRoute, RpcCommandResponse, RpcItem};
use oadiscord::settings::DiscordSettings;

fn settings(id: &str, secret: &str, token: &str) -> DiscordSettings {
    DiscordSettings {
        client_id: id.to_string(),
        client_secret: secret.to_string(),
        access_token: token.to_string(),
        error: None,
    }
}

#[test]
fn build_fails_fast_on_missing_credentials() {
    let s = settings("", "", "");
    let (phase, cmd) = build_step(BuildPhase::Start, &s, BuildEvent::Begin);
    assert_eq!(phase, BuildPhase::Failed(BuildError::MissingCredentials));
    assert_eq!(cmd, BuildCmd::Idle);
    assert_eq!(
        build_error_message(&BuildError::MissingCredentials),
        "Client ID or Client Secret not configured"
    );
}

#[test]
fn build_with_token_runs_the_authenticated_setup() {
    let s = settings("id", "secret", "token");
    let (phase, cmd) = build_step(BuildPhase::Start, &s, BuildEvent::Begin);
    assert_eq!(phase, BuildPhase::AwaitChannel);
    assert_eq!(cmd, BuildCmd::OpenChannel);
    let (phase, cmd) = build_step(phase, &s, BuildEvent::ChannelOpened);
    assert_eq!(phase, BuildPhase::AwaitAuthenticate);
    assert_eq!(cmd, BuildCmd::Authenticate);
    let (phase, cmd) = build_step(phase, &s, BuildEvent::AuthenticateOk);
    assert_eq!(phase, BuildPhase::AwaitSubscribe);
    assert_eq!(cmd, BuildCmd::Subscribe);
    let (phase, cmd) = build_step(phase, &s, BuildEvent::SubscribeOk);
    assert_eq!(phase, BuildPhase::AwaitVoiceQuery);
    assert_eq!(cmd, BuildCmd::FetchVoiceSettings);
    let (phase, cmd) = build_step(phase, &s, BuildEvent::VoiceQuerySent);
    assert_eq!(phase, BuildPhase::Complete(ConnPhase::Ready));
    assert_eq!(cmd, BuildCmd::ClearError);
}

#[test]
fn build_failures_surface_their_step() {
    let s = settings("id", "secret", "token");
    let (phase, _) = build_step(
        BuildPhase::AwaitChannel,
        &s,
        BuildEvent::ChannelFailed("no socket".to_string()),
    );
    assert_eq!(
        phase,
        BuildPhase::Failed(BuildError::ChannelUnavailable("no socket".to_string()))
    );
    let (phase, _) = build_step(
        BuildPhase::AwaitAuthenticate,
        &s,
        BuildEvent::AuthenticateFailed("bad token".to_string()),
    );
    assert_eq!(
        phase,
        BuildPhase::Failed(BuildError::AuthenticationFailed(
            SetupStep::Authenticate,
            "bad token".to_string()
        ))
    );
    assert_eq!(
        build_error_message(&BuildError::AuthenticationFailed(
            SetupStep::Subscribe,
            "oops".to_string()
        )),
        "Failed to subscribe to voice updates: oops"
    );
    assert_eq!(
        build_error_message(&BuildError::AuthenticationFailed(
            SetupStep::FetchVoiceSettings,
            "oops".to_string()
        )),
        "Failed to fetch initial voice settings: oops"
    );
}

#[test]
fn build_without_token_enters_the_authorizing_sub_state() {
    let s = settings("id", "secret", "");
    let (phase, cmd) = build_step(BuildPhase::Start, &s, BuildEvent::Begin);
    assert_eq!(cmd, BuildCmd::OpenChannel);
    let (phase, cmd) = build_step(phase, &s, BuildEvent::ChannelOpened);
    assert_eq!(phase, BuildPhase::AwaitAuthorizeSend);
    assert_eq!(cmd, BuildCmd::SendAuthorize);
    let (phase, cmd) = build_step(phase, &s, BuildEvent::AuthorizeSent);
    assert_eq!(phase, BuildPhase::Complete(ConnPhase::Authorizing));
    assert_eq!(cmd, BuildCmd::Idle);
    let scopes = authorize_scopes();
    assert_eq!(scopes, vec!["rpc".to_string(), "identify".to_string()]);
}

#[test]
fn authorize_send_failure_is_a_handshake_failure() {
    let s = settings("id", "secret", "");
    let (phase, _) = build_step(
        BuildPhase::AwaitAuthorizeSend,
        &s,
        BuildEvent::AuthorizeSendFailed("pipe broke".to_string()),
    );
    assert_eq!(
        phase,
        BuildPhase::Failed(BuildError::AuthorizationHandshakeFailed("pipe broke".to_string()))
    );
    assert_eq!(
        build_error_message(&BuildError::AuthorizationHandshakeFailed("pipe broke".to_string())),
        "Failed to start authorization: pipe broke"
    );
}

#[test]
fn token_response_with_access_token_is_ok() {
    assert_eq!(
        parse_token_exchange_response("{\"access_token\":\"abc\"}"),
        Ok("abc".to_string())
    );
}

#[test]
fn token_response_with_error_uses_the_description() {
    let r = parse_token_exchange_response(
        "{\"error\":\"invalid_grant\",\"error_description\":\"bad code\"}",
    );
    assert_eq!(r, Err("OAuth error: bad code".to_string()));
    let r = parse_token_exchange_response("{\"error\":\"invalid_grant\"}");
    assert_eq!(r, Err("OAuth error: invalid_grant".to_string()));
}

#[test]
fn empty_token_response_is_unexpected() {
    assert_eq!(
        parse_token_exchange_response("{}"),
        Err("Unexpected response: {}".to_string())
    );
}

#[test]
fn unparseable_token_response_reports_the_parse_failure() {
    let r = parse_token_exchange_response("not json");
    let msg = r.unwrap_err();
    assert!(msg.starts_with("Failed to parse response: "));
}

#[test]
fn authorization_code_items_yield_the_code_and_others_are_forwarded() {
    let r = route_authorizing(RpcItem::Command(RpcCommandResponse::Authorize {
        code: "xyz".to_string(),
    }));
    match r {
        AuthorizingRoute::ExchangeCode(code) => assert_eq!(code, "xyz"),
        AuthorizingRoute::Forward(_) => panic!("authorization code was not extracted"),
    }
    match route_authorizing(RpcItem::SocketClosed) {
        AuthorizingRoute::Forward(RpcItem::SocketClosed) => {}
        _ => panic!("other items must be forwarded unchanged"),
    }
}

#[test]
fn end_to_end_first_configuration_and_authorization() {
    let mut state = PluginState::new();

    // An empty configuration fails fast and the failure is persisted.
    let (phase, _) = build_step(BuildPhase::Start, &state.settings.clone(), BuildEvent::Begin);
    assert_eq!(phase, BuildPhase::Failed(BuildError::MissingCredentials));
    let persist = state.apply_build_result(Err(BuildError::MissingCredentials));
    assert!(persist);
    assert_eq!(
        state.settings.error.as_deref(),
        Some("Client ID or Client Secret not configured")
    );

    // The user supplies id and secret but no token: the build opens the
    // channel, sends the authorization request, and completes authorizing.
    state.settings.client_id = "id".to_string();
    state.settings.client_secret = "secret".to_string();
    let snapshot = state.settings.clone();
    let (phase, cmd) = build_step(BuildPhase::Start, &snapshot, BuildEvent::Begin);
    assert_eq!(cmd, BuildCmd::OpenChannel);
    let (phase, cmd) = build_step(phase, &snapshot, BuildEvent::ChannelOpened);
    assert_eq!(cmd, BuildCmd::SendAuthorize);
    let (phase, _) = build_step(phase, &snapshot, BuildEvent::AuthorizeSent);
    assert_eq!(phase, BuildPhase::Complete(ConnPhase::Authorizing));
    state.apply_build_result(Ok(ConnPhase::Authorizing));
    assert_eq!(state.connection, Some(ConnPhase::Authorizing));

    // The authorization code arrives and the exchange yields a token.
    let code = match route_authorizing(RpcItem::Command(RpcCommandResponse::Authorize {
        code: "code42".to_string(),
    })) {
        AuthorizingRoute::ExchangeCode(code) => code,
        AuthorizingRoute::Forward(_) => panic!("expected the authorization code"),
    };
    assert_eq!(code, "code42");
    let out = state.apply_token_exchange(Ok("tok123".to_string()));
    assert!(out.persist);
    assert!(out.begin_setup);
    assert_eq!(state.settings.access_token, "tok123");

    // The authenticated setup then runs on the same connection.
    let snapshot = state.settings.clone();
    let (phase, cmd) = build_step(BuildPhase::AwaitAuthenticate, &snapshot, BuildEvent::AuthenticateOk);
    assert_eq!(cmd, BuildCmd::Subscribe);
    let (phase, cmd) = build_step(phase, &snapshot, BuildEvent::SubscribeOk);
    assert_eq!(cmd, BuildCmd::FetchVoiceSettings);
    let (phase, cmd) = build_step(phase, &snapshot, BuildEvent::VoiceQuerySent);
    assert_eq!(phase, BuildPhase::Complete(ConnPhase::Ready));
    assert_eq!(cmd, BuildCmd::ClearError);
    assert!(state.clear_error());
    state.apply_build_result(Ok(ConnPhase::Ready));
    assert_eq!(state.connection, Some(ConnPhase::Ready));
    assert_eq!(state.settings.error, None);
    assert!(!state.reconnecting_flag());
}
