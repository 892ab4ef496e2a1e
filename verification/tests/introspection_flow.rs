use mas_core::client::{Client, ClientAuthMethod, ClientErrorCode};
use mas_core::introspection::{IntrospectionBody, IntrospectionRequest};
use mas_core::introspection_flow::{
    start, step, FoundOwner, FoundSession, FoundToken, IntrospectionAction, IntrospectionEvent,
    IntrospectionStage,
};
use mas_core::scope::{Scope, ScopeToken};
use mas_core::session::{Session, SessionState};
use mas_core::time::Timestamp;
use mas_core::tokens::{
    AccessToken, AccessTokenState, BrowserSession, CompatSession, CompatSessionState, Device,
    TokenType, TokenTypeHint, User,
};

fn at(secs: i64) -> Timestamp {
    Timestamp::new(secs, 0)
}

fn client(method: Option<ClientAuthMethod>) -> Client {
    Client {
        id: 3,
        client_id: "introspecting".to_owned(),
        client_name: None,
        client_uri: None,
        tos_uri: None,
        policy_uri: None,
        redirect_uris: vec![],
        token_endpoint_auth_method: method,
    }
}

fn session() -> Session {
    Session {
        id: 7,
        state: SessionState::Valid,
        created_at: at(1000),
        user_session_id: 9,
        client_id: 5,
        scope: Scope::from_tokens(vec![ScopeToken::openid()]),
    }
}

fn access_token() -> AccessToken {
    AccessToken {
        id: 21,
        state: AccessTokenState::Valid,
        session_id: 7,
        access_token: "mat_access".to_owned(),
        created_at: at(1000),
        expires_at: at(1300),
    }
}

fn browser_session() -> BrowserSession {
    BrowserSession {
        id: 9,
        user: User { id: 11, username: "alice".to_owned(), sub: "alice-sub".to_owned() },
        created_at: at(900),
        finished_at: None,
    }
}

fn form(hint: Option<TokenTypeHint>) -> IntrospectionEvent {
    IntrospectionEvent::Form(Some((
        IntrospectionRequest { token: "mat_access".to_owned(), token_type_hint: hint },
        Some(TokenType::AccessToken),
    )))
}

/// Runs the exchange up to the found token.
fn up_to_token(hint: Option<TokenTypeHint>) -> (IntrospectionStage, IntrospectionAction) {
    let (stage, action) = start();
    assert!(matches!(action, IntrospectionAction::FindClient));
    let c = client(Some(ClientAuthMethod::ClientSecretBasic));
    let (stage, action) = step(stage, IntrospectionEvent::Client(Some(c)), at(1000));
    assert!(matches!(action, IntrospectionAction::VerifyCredentials(_)));
    let (stage, action) = step(stage, IntrospectionEvent::Credentials(Ok(())), at(1000));
    assert!(matches!(action, IntrospectionAction::ReadForm));
    step(stage, form(hint), at(1000))
}

fn error_reply(action: IntrospectionAction) -> (u16, ClientErrorCode) {
    match action {
        IntrospectionAction::Reply(status, IntrospectionBody::Error(e)) => (status, e.error),
        other => panic!("expected an error reply, got {other:?}"),
    }
}

fn is_inactive_reply(action: &IntrospectionAction) -> bool {
    matches!(action, IntrospectionAction::Reply(200, IntrospectionBody::Introspection(r)) if !r.active)
}

#[test]
fn flow_reports_an_active_access_token() {
    let (stage, action) = up_to_token(Some(TokenTypeHint::AccessToken));
    match &action {
        IntrospectionAction::FindToken { kind, token } => {
            assert_eq!(*kind, TokenType::AccessToken);
            assert_eq!(token, "mat_access");
        }
        other => panic!("unexpected action {other:?}"),
    }
    let (stage, action) =
        step(stage, IntrospectionEvent::Token(Some(FoundToken::Access(access_token()))), at(1000));
    assert!(matches!(action, IntrospectionAction::LookupSession(7)));
    let (stage, action) =
        step(stage, IntrospectionEvent::Session(Some(FoundSession::OAuth2(session()))), at(1000));
    assert!(matches!(action, IntrospectionAction::LookupBrowserSession(9)));
    let (stage, action) = step(
        stage,
        IntrospectionEvent::Owner(Some(FoundOwner::Browser(browser_session()))),
        at(1000),
    );
    assert!(matches!(stage, IntrospectionStage::Done));
    match action {
        IntrospectionAction::Reply(200, IntrospectionBody::Introspection(r)) => {
            assert!(r.active);
            assert_eq!(r.username, Some("alice".to_owned()));
            assert_eq!(r.exp, Some(at(1300)));
            assert_eq!(r.token_type, Some(TokenTypeHint::AccessToken));
        }
        other => panic!("unexpected action {other:?}"),
    }
}

#[test]
fn flow_reports_wrong_hint_and_expired_token_inactive() {
    let (_, action) = up_to_token(Some(TokenTypeHint::RefreshToken));
    assert!(is_inactive_reply(&action));

    let (stage, _) = up_to_token(None);
    let (_, action) =
        step(stage, IntrospectionEvent::Token(Some(FoundToken::Access(access_token()))), at(1300));
    assert!(is_inactive_reply(&action));

    let (stage, _) = up_to_token(None);
    let (_, action) = step(stage, IntrospectionEvent::Token(None), at(1000));
    assert!(is_inactive_reply(&action));
}

#[test]
fn flow_reports_finished_session_inactive() {
    let (stage, _) = up_to_token(None);
    let (stage, _) =
        step(stage, IntrospectionEvent::Token(Some(FoundToken::Access(access_token()))), at(1000));
    let mut finished = session();
    finished.state = SessionState::Finished { finished_at: at(1100) };
    let (_, action) =
        step(stage, IntrospectionEvent::Session(Some(FoundSession::OAuth2(finished))), at(1200));
    assert!(is_inactive_reply(&action));
}

#[test]
fn flow_refuses_clients() {
    let (stage, _) = start();
    let (_, action) = step(stage, IntrospectionEvent::Client(None), at(0));
    assert_eq!(error_reply(action), (401, ClientErrorCode::InvalidClient));

    let (stage, _) = start();
    let (_, action) = step(stage, IntrospectionEvent::Client(Some(client(None))), at(0));
    assert_eq!(error_reply(action), (401, ClientErrorCode::AccessDenied));

    let (stage, _) = start();
    let public = client(Some(ClientAuthMethod::NoAuthentication));
    let (_, action) = step(stage, IntrospectionEvent::Client(Some(public)), at(0));
    assert_eq!(error_reply(action), (401, ClientErrorCode::AccessDenied));

    let (stage, _) = start();
    let c = client(Some(ClientAuthMethod::ClientSecretPost));
    let (stage, _) = step(stage, IntrospectionEvent::Client(Some(c)), at(0));
    let (_, action) = step(stage, IntrospectionEvent::Credentials(Err("bad secret".to_owned())), at(0));
    match action {
        IntrospectionAction::Reply(401, IntrospectionBody::Error(e)) => {
            assert_eq!(e.error, ClientErrorCode::InvalidClient);
            assert_eq!(e.error_description, Some("bad secret".to_owned()));
        }
        other => panic!("unexpected action {other:?}"),
    }
}

#[test]
fn flow_refuses_a_missing_form() {
    let (stage, _) = start();
    let c = client(Some(ClientAuthMethod::ClientSecretBasic));
    let (stage, _) = step(stage, IntrospectionEvent::Client(Some(c)), at(0));
    let (stage, _) = step(stage, IntrospectionEvent::Credentials(Ok(())), at(0));
    let (_, action) = step(stage, IntrospectionEvent::Form(None), at(0));
    assert_eq!(error_reply(action), (400, ClientErrorCode::InvalidRequest));
}

#[test]
fn flow_answers_an_event_out_of_step_with_an_internal_error() {
    let (stage, _) = start();
    let (stage, action) = step(stage, IntrospectionEvent::Credentials(Ok(())), at(0));
    assert!(matches!(stage, IntrospectionStage::Done));
    assert_eq!(error_reply(action), (500, ClientErrorCode::ServerError));

    // A compat session for an OAuth 2.0 token is out of step too.
    let (stage, _) = up_to_token(None);
    let (stage, _) =
        step(stage, IntrospectionEvent::Token(Some(FoundToken::Access(access_token()))), at(1000));
    let compat = CompatSession {
        id: 8,
        state: CompatSessionState::Valid,
        user_id: 11,
        device: Device::new("ABCDEF").unwrap(),
        created_at: at(1000),
    };
    let (_, action) = step(stage, IntrospectionEvent::Session(Some(FoundSession::Compat(compat))), at(1000));
    assert_eq!(error_reply(action), (500, ClientErrorCode::ServerError));
}

#[test]
fn flow_answers_a_failed_lookup_with_a_server_error() {
    let (stage, _) = up_to_token(None);
    let (stage, action) = step(stage, IntrospectionEvent::Failed("connection lost".to_owned()), at(1000));
    assert!(matches!(stage, IntrospectionStage::Done));
    match action {
        IntrospectionAction::Reply(500, IntrospectionBody::Error(e)) => {
            assert_eq!(e.error, ClientErrorCode::ServerError);
            assert_eq!(e.error_description, Some("connection lost".to_owned()));
        }
        other => panic!("unexpected action {other:?}"),
    }

    // A failed client lookup is a server error too, with its reason.
    let (stage, _) = start();
    let (_, action) = step(stage, IntrospectionEvent::Failed("x".to_owned()), at(0));
    match action {
        IntrospectionAction::Reply(500, IntrospectionBody::Error(e)) => {
            assert_eq!(e.error, ClientErrorCode::ServerError);
            assert_eq!(e.error_description, Some("x".to_owned()));
        }
        other => panic!("unexpected action {other:?}"),
    }

    // Credentials are verified, not looked up: a failure there is out of step.
    let (stage, _) = start();
    let c = client(Some(ClientAuthMethod::ClientSecretBasic));
    let (stage, _) = step(stage, IntrospectionEvent::Client(Some(c)), at(0));
    let (_, action) = step(stage, IntrospectionEvent::Failed("x".to_owned()), at(0));
    assert_eq!(error_reply(action).0, 500);
}
