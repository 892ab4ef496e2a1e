use mas_core::client::{Client, ClientAuthMethod, ClientErrorCode};
use mas_core::scope::{Scope, ScopeToken};
use mas_core::session::{Session, SessionState};
use mas_core::time::Timestamp;
use mas_core::token::{
    no_cache_headers, check_client, check_code_exchange, check_refresh_grant, consume_refresh_token, decide_code,
    end_replayed_session, needs_id_token, pkce_outcome, require_browser_session,
    revoke_previous_access_token, select_grant, start_code_exchange, token_response,
    AccessTokenRequest, AuthorizationCode, AuthorizationCodeGrant, AuthorizationGrant,
    AuthorizationGrantStage, CodeDecision, Pkce, PkceCheck, RefreshTokenGrant, RouteError,
    SupportedGrant, ACCESS_TOKEN_TTL_SECONDS,
};
use mas_core::tokens::{AccessToken, AccessTokenState, RefreshToken, RefreshTokenState};

const CLIENT: u128 = 5;

fn at(secs: i64) -> Timestamp {
    Timestamp::new(secs, 0)
}

fn client(method: Option<ClientAuthMethod>) -> Client {
    Client {
        id: CLIENT,
        client_id: "client".to_owned(),
        client_name: None,
        client_uri: Some("https://example.com/".to_owned()),
        tos_uri: None,
        policy_uri: None,
        redirect_uris: vec!["https://example.com/callback".to_owned()],
        token_endpoint_auth_method: method,
    }
}

fn session(id: u128) -> Session {
    Session {
        id,
        state: SessionState::Valid,
        created_at: at(0),
        user_session_id: 2,
        client_id: CLIENT,
        scope: Scope::from_tokens(vec![ScopeToken::openid()]),
    }
}

fn grant(stage: AuthorizationGrantStage, code: &str) -> AuthorizationGrant {
    AuthorizationGrant {
        id: 40,
        stage,
        code: Some(AuthorizationCode { code: code.to_owned(), pkce: None }),
        client_id: CLIENT,
        scope: Scope::from_tokens(vec![ScopeToken::openid()]),
    }
}

fn refused_with_invalid_grant(e: RouteError) {
    let (status, body) = e.into_response();
    assert_eq!(status, 400);
    assert_eq!(body.error, ClientErrorCode::InvalidGrant);
}

#[test]
fn code_exchange_decisions_in_sequence() {
    let public_client = client(Some(ClientAuthMethod::NoAuthentication));
    let public_client = check_client(Some(public_client)).unwrap();
    let code = "thisisaverysecurecode";

    // The grant is fulfilled with a session at t = 100
    let stage = AuthorizationGrantStage::Pending.fulfill(10, at(100)).unwrap();
    let g = grant(stage, code);
    let grant_form = AccessTokenRequest::AuthorizationCode(AuthorizationCodeGrant {
        code: code.to_owned(),
        redirect_uri: Some("https://example.com/redirect".to_owned()),
        code_verifier: None,
    });
    let form = select_grant(Some(grant_form)).unwrap();
    let verifier = match form {
        SupportedGrant::AuthorizationCode(f) => f.code_verifier,
        SupportedGrant::RefreshToken(_) => panic!("wrong grant"),
    };

    // Exchanging the code right away works
    let found = Some(g);
    let decision = start_code_exchange(&found, at(100)).unwrap();
    assert_eq!(decision, CodeDecision::Proceed { session_id: 10 });
    let g = found.unwrap();
    let (s, check) = check_code_exchange(&g, Some(session(10)), &public_client, verifier).unwrap();
    assert!(matches!(check, PkceCheck::NotRequired));
    assert!(require_browser_session(Some(2u128)).is_ok());
    assert!(needs_id_token(&s.scope));
    let response = token_response("mat_a".to_owned(), "mar_r".to_owned(), s.scope, Some("id.token".to_owned()));
    assert_eq!(response.expires_in, Some(ACCESS_TOKEN_TTL_SECONDS));
    assert_eq!(response.expires_in, Some(300));
    assert_eq!(response.token_type, "Bearer");
    assert_eq!(response.refresh_token.as_deref(), Some("mar_r"));
    assert_eq!(response.scope.unwrap().to_string(), "openid");
    assert_eq!(response.id_token.as_deref(), Some("id.token"));
    let exchanged = stage.exchange(at(100)).unwrap();

    // Exchanging it again fails, and the session is kept
    let decision = decide_code(exchanged, at(100));
    assert_eq!(decision, CodeDecision::Refuse);
    refused_with_invalid_grant(RouteError::InvalidGrant);

    // A minute later it fails again, and the session is ended
    let decision = decide_code(exchanged, at(160));
    assert_eq!(decision, CodeDecision::RefuseAndEndSession { session_id: 10 });
    let ended = end_replayed_session(Some(session(10)), at(160)).unwrap();
    assert_eq!(ended.state, SessionState::Finished { finished_at: at(160) });
    refused_with_invalid_grant(RouteError::InvalidGrant);

    // Another code, exchanged fifteen minutes after it was fulfilled
    let stage = AuthorizationGrantStage::Pending.fulfill(11, at(160)).unwrap();
    let found = Some(grant(stage, "thisisanothercode"));
    let decision = start_code_exchange(&found, at(160 + 15 * 60)).unwrap();
    assert_eq!(decision, CodeDecision::Refuse);
    refused_with_invalid_grant(RouteError::InvalidGrant);
}

fn access_token(id: u128) -> AccessToken {
    AccessToken {
        id,
        state: AccessTokenState::Valid,
        session_id: 10,
        access_token: "mat_old".to_owned(),
        created_at: at(0),
        expires_at: at(300),
    }
}

fn refresh_token(id: u128, access: u128) -> RefreshToken {
    RefreshToken {
        id,
        state: RefreshTokenState::Valid,
        session_id: 10,
        refresh_token: "mar_old".to_owned(),
        access_token_id: Some(access),
        created_at: at(0),
    }
}

#[test]
fn refresh_grant_decisions_in_sequence() {
    let c = check_client(Some(client(Some(ClientAuthMethod::NoAuthentication)))).unwrap();
    let form = AccessTokenRequest::RefreshToken(RefreshTokenGrant { refresh_token: "mar_old".to_owned(), scope: None });
    assert!(matches!(select_grant(Some(form)), Ok(SupportedGrant::RefreshToken(_))));

    // The old token is accepted
    let (old, s) = check_refresh_grant(Some(refresh_token(50, 60)), Some(session(10)), &c).unwrap();
    assert_eq!(old.id, 50);
    let response = token_response("mat_new".to_owned(), "mar_new".to_owned(), s.scope, None);
    assert_eq!(response.refresh_token.as_deref(), Some("mar_new"));
    assert_eq!(response.id_token, None);

    // It is consumed, and the access token it came with is revoked
    let consumed = consume_refresh_token(old, at(10)).unwrap();
    assert_eq!(consumed.state, RefreshTokenState::Consumed { consumed_at: at(10) });
    assert_eq!(consumed.access_token_id, Some(60));
    let revoked = revoke_previous_access_token(Some(access_token(60)), at(10)).unwrap().unwrap();
    assert!(!revoked.is_valid(at(10)));

    // Using the old refresh token again fails
    let r = check_refresh_grant(Some(consumed), Some(session(10)), &c);
    match r {
        Err(e) => refused_with_invalid_grant(e),
        Ok(_) => panic!("a consumed refresh token was accepted"),
    }

    // The new one works
    assert!(check_refresh_grant(Some(refresh_token(51, 61)), Some(session(10)), &c).is_ok());
}

#[test]
fn unsupported_grant_is_refused() {
    let c = check_client(Some(client(Some(ClientAuthMethod::ClientSecretPost))));
    assert!(c.is_ok());
    let e = select_grant(Some(AccessTokenRequest::ClientCredentials)).err().unwrap();
    let (status, body) = e.into_response();
    assert_eq!(status, 400);
    assert_eq!(body.error, ClientErrorCode::UnsupportedGrantType);
    assert_eq!(body.error.as_str(), "unsupported_grant_type");
}

#[test]
fn missing_form_and_clients_are_refused() {
    assert!(matches!(select_grant(None), Err(RouteError::BadRequest)));
    assert!(matches!(select_grant(Some(AccessTokenRequest::Unsupported)), Err(RouteError::UnsupportedGrantType)));
    assert!(matches!(check_client(None), Err(RouteError::ClientNotFound)));
    assert!(matches!(check_client(Some(client(None))), Err(RouteError::ClientNotAllowed)));
}

#[test]
fn code_decisions_by_stage() {
    assert_eq!(decide_code(AuthorizationGrantStage::Pending, at(0)), CodeDecision::Refuse);
    assert_eq!(decide_code(AuthorizationGrantStage::Cancelled { cancelled_at: at(0) }, at(1)), CodeDecision::Refuse);
    let fulfilled = AuthorizationGrantStage::Fulfilled { session_id: 3, fulfilled_at: at(0) };
    assert_eq!(decide_code(fulfilled, at(600)), CodeDecision::Proceed { session_id: 3 });
    assert_eq!(decide_code(fulfilled, Timestamp::new(600, 1)), CodeDecision::Refuse);
    let exchanged = AuthorizationGrantStage::Exchanged { session_id: 3, fulfilled_at: at(0), exchanged_at: at(5) };
    assert_eq!(decide_code(exchanged, at(25)), CodeDecision::Refuse);
    assert_eq!(decide_code(exchanged, Timestamp::new(25, 1)), CodeDecision::RefuseAndEndSession { session_id: 3 });
    assert!(matches!(start_code_exchange(&None, at(0)), Err(RouteError::GrantNotFound)));
    assert!(AuthorizationGrantStage::Pending.exchange(at(0)).is_err());
    assert!(exchanged.exchange(at(30)).is_err());
    assert!(fulfilled.fulfill(4, at(1)).is_err());
}

#[test]
fn replayed_session_must_exist_and_be_valid() {
    assert!(matches!(end_replayed_session(None, at(0)), Err(RouteError::NoSuchOAuthSession)));
    let mut s = session(1);
    s.state = SessionState::Finished { finished_at: at(0) };
    assert!(matches!(end_replayed_session(Some(s), at(1)), Err(RouteError::Internal(_))));
}

#[test]
fn code_exchange_checks() {
    let c = client(Some(ClientAuthMethod::NoAuthentication));
    let fulfilled = AuthorizationGrantStage::Fulfilled { session_id: 10, fulfilled_at: at(0) };
    assert!(matches!(check_code_exchange(&grant(fulfilled, "c"), None, &c, None), Err(RouteError::NoSuchOAuthSession)));
    let mut no_code = grant(fulfilled, "c");
    no_code.code = None;
    assert!(matches!(check_code_exchange(&no_code, Some(session(10)), &c, None), Err(RouteError::InvalidGrant)));
    let mut other = session(10);
    other.client_id = 99;
    assert!(matches!(check_code_exchange(&grant(fulfilled, "c"), Some(other), &c, None), Err(RouteError::UnauthorizedClient)));
    // a verifier without a challenge, and a challenge without a verifier
    assert!(matches!(check_code_exchange(&grant(fulfilled, "c"), Some(session(10)), &c, Some("v".to_owned())), Err(RouteError::BadRequest)));
    let mut with_pkce = grant(fulfilled, "c");
    with_pkce.code = Some(AuthorizationCode {
        code: "c".to_owned(),
        pkce: Some(Pkce { challenge_method: "S256".to_owned(), challenge: "abc".to_owned() }),
    });
    assert!(matches!(check_code_exchange(&with_pkce, Some(session(10)), &c, None), Err(RouteError::BadRequest)));
    let mut with_pkce = grant(fulfilled, "c");
    with_pkce.code = Some(AuthorizationCode {
        code: "c".to_owned(),
        pkce: Some(Pkce { challenge_method: "S256".to_owned(), challenge: "abc".to_owned() }),
    });
    match check_code_exchange(&with_pkce, Some(session(10)), &c, Some("verifier".to_owned())) {
        Ok((_, PkceCheck::Verify { challenge, verifier })) => {
            assert_eq!(challenge.challenge, "abc");
            assert_eq!(verifier, "verifier");
        }
        _ => panic!("expected a PKCE check"),
    }
    assert!(pkce_outcome(Ok(())).is_ok());
    let e = pkce_outcome(Err("mismatch".to_owned())).err().unwrap();
    let (status, body) = e.into_response();
    assert_eq!(status, 400);
    assert_eq!(body.error, ClientErrorCode::InvalidGrant);
    assert_eq!(body.error_description.as_deref(), Some("PKCE verification failed: mismatch"));
    assert!(matches!(require_browser_session::<u128>(None), Err(RouteError::NoSuchBrowserSession)));
}

#[test]
fn refresh_grant_checks() {
    let c = client(Some(ClientAuthMethod::NoAuthentication));
    assert!(matches!(check_refresh_grant(None, Some(session(10)), &c), Err(RouteError::InvalidGrant)));
    assert!(matches!(check_refresh_grant(Some(refresh_token(1, 2)), None, &c), Err(RouteError::NoSuchOAuthSession)));
    let mut other = session(10);
    other.client_id = 99;
    assert!(matches!(check_refresh_grant(Some(refresh_token(1, 2)), Some(other), &c), Err(RouteError::InvalidGrant)));
    let mut finished = session(10);
    finished.state = SessionState::Finished { finished_at: at(1) };
    assert!(matches!(check_refresh_grant(Some(refresh_token(1, 2)), Some(finished), &c), Err(RouteError::InvalidGrant)));
    let consumed = consume_refresh_token(refresh_token(1, 2), at(1)).unwrap();
    assert!(matches!(consume_refresh_token(consumed, at(2)), Err(RouteError::Internal(_))));
    assert!(revoke_previous_access_token(None, at(1)).unwrap().is_none());
    let mut revoked = access_token(3);
    revoked.state = AccessTokenState::Revoked { revoked_at: at(0) };
    assert!(matches!(revoke_previous_access_token(Some(revoked), at(1)), Err(RouteError::Internal(_))));
}

#[test]
fn token_error_replies() {
    let check = |e: RouteError, status: u16, code: ClientErrorCode| {
        let (s, body) = e.into_response();
        assert_eq!(s, status);
        assert_eq!(body.error, code);
        assert_eq!(body.error_description, None);
    };
    check(RouteError::Internal("x".to_owned()), 500, ClientErrorCode::ServerError);
    check(RouteError::NoSuchBrowserSession, 500, ClientErrorCode::ServerError);
    check(RouteError::NoSuchOAuthSession, 500, ClientErrorCode::ServerError);
    check(RouteError::BadRequest, 400, ClientErrorCode::InvalidRequest);
    check(RouteError::ClientNotFound, 401, ClientErrorCode::InvalidClient);
    check(RouteError::ClientCredentialsVerification("x".to_owned()), 401, ClientErrorCode::InvalidClient);
    check(RouteError::ClientNotAllowed, 401, ClientErrorCode::UnauthorizedClient);
    check(RouteError::UnauthorizedClient, 401, ClientErrorCode::UnauthorizedClient);
    check(RouteError::GrantNotFound, 400, ClientErrorCode::InvalidGrant);
    check(RouteError::UnsupportedGrantType, 400, ClientErrorCode::UnsupportedGrantType);
}

#[test]
fn id_token_only_for_openid() {
    let mut s = Scope::new();
    s.insert(ScopeToken::parse("profile").unwrap());
    assert!(!needs_id_token(&s));
    s.insert(ScopeToken::openid());
    assert!(needs_id_token(&s));
}

#[test]
fn token_responses_are_not_cached() {
    assert_eq!(no_cache_headers(), vec![("cache-control", "no-store"), ("pragma", "no-cache")]);
}
