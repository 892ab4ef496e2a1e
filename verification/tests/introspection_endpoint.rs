use mas_core::client::{Client, ClientAuthMethod};
use mas_core::introspection::{IntrospectionBody, IntrospectionRequest, IntrospectionResponse};
use mas_core::introspection_flow::{
    start, step, FoundOwner, FoundSession, FoundToken, IntrospectionAction, IntrospectionEvent,
};
use mas_core::scope::{Scope, ScopeToken};
use mas_core::session::{Session, SessionState};
use mas_core::time::Timestamp;
use mas_core::tokens::{
    AccessToken, AccessTokenState, BrowserSession, CompatAccessToken, CompatRefreshToken,
    CompatSession, CompatSessionState, Device, RefreshToken, RefreshTokenState, TokenType,
    TokenTypeHint, User,
};

fn at(secs: i64) -> Timestamp {
    Timestamp::new(secs, 0)
}

/// The service's records, in memory. Tokens are told apart by their
/// prefixes.
#[derive(Default)]
struct Store {
    clients: Vec<Client>,
    users: Vec<User>,
    browser_sessions: Vec<BrowserSession>,
    sessions: Vec<Session>,
    compat_sessions: Vec<CompatSession>,
    access_tokens: Vec<AccessToken>,
    refresh_tokens: Vec<RefreshToken>,
    compat_access_tokens: Vec<CompatAccessToken>,
    compat_refresh_tokens: Vec<CompatRefreshToken>,
}

fn kind_of(token: &str) -> Option<TokenType> {
    if token.starts_with("mat_") {
        Some(TokenType::AccessToken)
    } else if token.starts_with("mar_") {
        Some(TokenType::RefreshToken)
    } else if token.starts_with("mct_") {
        Some(TokenType::CompatAccessToken)
    } else if token.starts_with("mcr_") {
        Some(TokenType::CompatRefreshToken)
    } else {
        None
    }
}

impl Store {
    fn add_client(&mut self, id: u128, client_id: &str, method: ClientAuthMethod) {
        self.clients.push(Client {
            id,
            client_id: client_id.to_owned(),
            client_name: None,
            client_uri: None,
            tos_uri: None,
            policy_uri: None,
            redirect_uris: vec![],
            token_endpoint_auth_method: Some(method),
        });
    }

    fn introspect(
        &self,
        client_id: &str,
        token: &str,
        hint: Option<&str>,
        now: Timestamp,
    ) -> (u16, IntrospectionResponse) {
        let mut form = Some(IntrospectionRequest {
            token: token.to_owned(),
            token_type_hint: hint.map(TokenTypeHint::parse),
        });
        let (mut stage, mut action) = start();
        loop {
            let event = match action {
                IntrospectionAction::Reply(status, IntrospectionBody::Introspection(r)) => return (status, r),
                IntrospectionAction::Reply(status, IntrospectionBody::Error(e)) => {
                    panic!("error reply {status}: {:?}", e.error)
                }
                IntrospectionAction::FindClient => IntrospectionEvent::Client(
                    self.clients.iter().find(|c| c.client_id == client_id).map(|c| c.duplicate()),
                ),
                IntrospectionAction::VerifyCredentials(_) => IntrospectionEvent::Credentials(Ok(())),
                IntrospectionAction::ReadForm => IntrospectionEvent::Form(form.take().map(|f| {
                    let kind = kind_of(&f.token);
                    (f, kind)
                })),
                IntrospectionAction::FindToken { kind, token } => IntrospectionEvent::Token(match kind {
                    TokenType::AccessToken => self
                        .access_tokens
                        .iter()
                        .find(|t| t.access_token == token)
                        .map(|t| FoundToken::Access(AccessToken {
                            id: t.id,
                            state: t.state,
                            session_id: t.session_id,
                            access_token: t.access_token.clone(),
                            created_at: t.created_at,
                            expires_at: t.expires_at,
                        })),
                    TokenType::RefreshToken => self
                        .refresh_tokens
                        .iter()
                        .find(|t| t.refresh_token == token)
                        .map(|t| FoundToken::Refresh(RefreshToken {
                            id: t.id,
                            state: t.state,
                            session_id: t.session_id,
                            refresh_token: t.refresh_token.clone(),
                            access_token_id: t.access_token_id,
                            created_at: t.created_at,
                        })),
                    TokenType::CompatAccessToken => self
                        .compat_access_tokens
                        .iter()
                        .find(|t| t.token == token)
                        .map(|t| FoundToken::CompatAccess(CompatAccessToken {
                            id: t.id,
                            state: t.state,
                            session_id: t.session_id,
                            token: t.token.clone(),
                            created_at: t.created_at,
                            expires_at: t.expires_at,
                        })),
                    TokenType::CompatRefreshToken => self
                        .compat_refresh_tokens
                        .iter()
                        .find(|t| t.token == token)
                        .map(|t| FoundToken::CompatRefresh(CompatRefreshToken {
                            id: t.id,
                            state: t.state,
                            session_id: t.session_id,
                            token: t.token.clone(),
                            access_token_id: t.access_token_id,
                            created_at: t.created_at,
                        })),
                }),
                IntrospectionAction::LookupSession(id) => IntrospectionEvent::Session(
                    self.sessions.iter().find(|s| s.id == id).map(|s| {
                        FoundSession::OAuth2(Session {
                            id: s.id,
                            state: s.state,
                            created_at: s.created_at,
                            user_session_id: s.user_session_id,
                            client_id: s.client_id,
                            scope: Scope::parse(&s.scope.to_string()).unwrap(),
                        })
                    }),
                ),
                IntrospectionAction::LookupCompatSession(id) => IntrospectionEvent::Session(
                    self.compat_sessions.iter().find(|s| s.id == id).map(|s| {
                        FoundSession::Compat(CompatSession {
                            id: s.id,
                            state: s.state,
                            user_id: s.user_id,
                            device: Device::new(s.device.as_str()).unwrap(),
                            created_at: s.created_at,
                        })
                    }),
                ),
                IntrospectionAction::LookupBrowserSession(id) => IntrospectionEvent::Owner(
                    self.browser_sessions.iter().find(|b| b.id == id).map(|b| {
                        FoundOwner::Browser(BrowserSession {
                            id: b.id,
                            user: b.user.duplicate(),
                            created_at: b.created_at,
                            finished_at: b.finished_at,
                        })
                    }),
                ),
                IntrospectionAction::LookupUser(id) => IntrospectionEvent::Owner(
                    self.users.iter().find(|u| u.id == id).map(|u| FoundOwner::User(u.duplicate())),
                ),
            };
            let (next_stage, next_action) = step(stage, event, now);
            stage = next_stage;
            action = next_action;
        }
    }
}

const INTROSPECTING: &str = "introspecting";

#[test]
fn test_introspect_oauth_tokens() {
    let mut store = Store::default();
    // A client which will be used to do introspection requests, and one
    // which will be used to generate tokens
    store.add_client(1, INTROSPECTING, ClientAuthMethod::ClientSecretBasic);
    let client_id: u128 = 0x0168d3ff00cf8659add49a16d369c5ff;
    store.add_client(client_id, "01D39ZY06FGSCTVN4T2V9PKHFZ", ClientAuthMethod::NoAuthentication);

    // A user, a browser session, an OAuth session and a token pair
    let now = at(1_000);
    let alice = User { id: 3, username: "alice".to_owned(), sub: "alice-sub".to_owned() };
    store.browser_sessions.push(BrowserSession { id: 4, user: alice.duplicate(), created_at: now, finished_at: None });
    store.users.push(alice);
    store.sessions.push(Session {
        id: 5,
        state: SessionState::Valid,
        created_at: now,
        user_session_id: 4,
        client_id,
        scope: Scope::from_tokens(vec![ScopeToken::openid()]),
    });
    let access_token = "mat_aaaa";
    let refresh_token = "mar_bbbb";
    store.access_tokens.push(AccessToken {
        id: 6,
        state: AccessTokenState::Valid,
        session_id: 5,
        access_token: access_token.to_owned(),
        created_at: now,
        expires_at: at(1_300),
    });
    store.refresh_tokens.push(RefreshToken {
        id: 7,
        state: RefreshTokenState::Valid,
        session_id: 5,
        refresh_token: refresh_token.to_owned(),
        access_token_id: Some(6),
        created_at: now,
    });

    // Now that we have a token, we can introspect it
    let (status, response) = store.introspect(INTROSPECTING, access_token, None, now);
    assert_eq!(status, 200);
    assert!(response.active);
    assert_eq!(response.username, Some("alice".to_owned()));
    assert_eq!(response.client_id, Some("01D39ZY06FGSCTVN4T2V9PKHFZ".to_owned()));
    assert_eq!(response.token_type, Some(TokenTypeHint::AccessToken));
    assert_eq!(response.scope.unwrap().to_string(), "openid");

    // Do the same request, but with a token_type_hint
    let (status, response) = store.introspect(INTROSPECTING, access_token, Some("access_token"), now);
    assert_eq!(status, 200);
    assert!(response.active);

    // Do the same request, but with the wrong token_type_hint
    let (status, response) = store.introspect(INTROSPECTING, access_token, Some("refresh_token"), now);
    assert_eq!(status, 200);
    assert!(!response.active); // It shouldn't be active

    // Do the same, but with a refresh token
    let (status, response) = store.introspect(INTROSPECTING, refresh_token, None, now);
    assert_eq!(status, 200);
    assert!(response.active);
    assert_eq!(response.username, Some("alice".to_owned()));
    assert_eq!(response.client_id, Some("01D39ZY06FGSCTVN4T2V9PKHFZ".to_owned()));
    assert_eq!(response.token_type, Some(TokenTypeHint::RefreshToken));
    assert_eq!(response.scope.unwrap().to_string(), "openid");

    // Do the same request, but with a token_type_hint
    let (status, response) = store.introspect(INTROSPECTING, refresh_token, Some("refresh_token"), now);
    assert_eq!(status, 200);
    assert!(response.active);

    // Do the same request, but with the wrong token_type_hint
    let (status, response) = store.introspect(INTROSPECTING, refresh_token, Some("access_token"), now);
    assert_eq!(status, 200);
    assert!(!response.active); // It shouldn't be active

    // Advance the clock to invalidate the access token
    let later = at(1_000 + 3_600);
    let (status, response) = store.introspect(INTROSPECTING, access_token, None, later);
    assert_eq!(status, 200);
    assert!(!response.active); // It shouldn't be active anymore

    // But the refresh token should still be valid
    let (status, response) = store.introspect(INTROSPECTING, refresh_token, None, later);
    assert_eq!(status, 200);
    assert!(response.active);
}

#[test]
fn test_introspect_compat_tokens() {
    let mut store = Store::default();
    store.add_client(1, INTROSPECTING, ClientAuthMethod::ClientSecretBasic);

    // A user with a compat session and its tokens
    let now = at(1_000);
    store.users.push(User { id: 3, username: "alice".to_owned(), sub: "alice-sub".to_owned() });
    let device_id = "ABCDEFGHIJ";
    store.compat_sessions.push(CompatSession {
        id: 8,
        state: CompatSessionState::Valid,
        user_id: 3,
        device: Device::new(device_id).unwrap(),
        created_at: now,
    });
    let access_token = "mct_aaaa";
    let refresh_token = "mcr_bbbb";
    store.compat_access_tokens.push(CompatAccessToken {
        id: 9,
        state: AccessTokenState::Valid,
        session_id: 8,
        token: access_token.to_owned(),
        created_at: now,
        expires_at: Some(at(1_300)),
    });
    store.compat_refresh_tokens.push(CompatRefreshToken {
        id: 10,
        state: RefreshTokenState::Valid,
        session_id: 8,
        token: refresh_token.to_owned(),
        access_token_id: 9,
        created_at: now,
    });
    let expected_scope = format!(
        "urn:matrix:org.matrix.msc2967.client:api:* urn:matrix:org.matrix.msc2967.client:device:{device_id}"
    );

    // Now that we have a token, we can introspect it
    let (status, response) = store.introspect(INTROSPECTING, access_token, None, now);
    assert_eq!(status, 200);
    assert!(response.active);
    assert_eq!(response.username, Some("alice".to_owned()));
    assert_eq!(response.client_id, Some("legacy".to_owned()));
    assert_eq!(response.token_type, Some(TokenTypeHint::AccessToken));
    assert_eq!(response.scope.unwrap().to_string(), expected_scope);

    // Do the same request, but with a token_type_hint
    let (status, response) = store.introspect(INTROSPECTING, access_token, Some("access_token"), now);
    assert_eq!(status, 200);
    assert!(response.active);

    // Do the same request, but with the wrong token_type_hint
    let (status, response) = store.introspect(INTROSPECTING, access_token, Some("refresh_token"), now);
    assert_eq!(status, 200);
    assert!(!response.active); // It shouldn't be active

    // Do the same, but with a refresh token
    let (status, response) = store.introspect(INTROSPECTING, refresh_token, None, now);
    assert_eq!(status, 200);
    assert!(response.active);
    assert_eq!(response.username, Some("alice".to_owned()));
    assert_eq!(response.client_id, Some("legacy".to_owned()));
    assert_eq!(response.token_type, Some(TokenTypeHint::RefreshToken));
    assert_eq!(response.scope.unwrap().to_string(), expected_scope);

    // Do the same request, but with a token_type_hint
    let (status, response) = store.introspect(INTROSPECTING, refresh_token, Some("refresh_token"), now);
    assert_eq!(status, 200);
    assert!(response.active);

    // Do the same request, but with the wrong token_type_hint
    let (status, response) = store.introspect(INTROSPECTING, refresh_token, Some("access_token"), now);
    assert_eq!(status, 200);
    assert!(!response.active); // It shouldn't be active

    // Advance the clock to invalidate the access token
    let later = at(1_000 + 3_600);
    let (status, response) = store.introspect(INTROSPECTING, access_token, None, later);
    assert_eq!(status, 200);
    assert!(!response.active); // It shouldn't be active anymore

    // But the refresh token should still be valid
    let (status, response) = store.introspect(INTROSPECTING, refresh_token, None, later);
    assert_eq!(status, 200);
    assert!(response.active);
}

#[test]
fn unknown_token_text_is_inactive() {
    let mut store = Store::default();
    store.add_client(1, INTROSPECTING, ClientAuthMethod::ClientSecretBasic);
    let (status, response) = store.introspect(INTROSPECTING, "not-a-token", None, at(0));
    assert_eq!(status, 200);
    assert!(!response.active);
    let (status, response) = store.introspect(INTROSPECTING, "mat_missing", None, at(0));
    assert_eq!(status, 200);
    assert!(!response.active);
}
