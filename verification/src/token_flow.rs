//! The token endpoint as a sequence of steps: each step takes what the
//! previous action fetched, stored or computed outside the core, and says
//! what to do next, or answers.
use vstd::prelude::*;
use crate::client::{Client, ClientError, ClientErrorCode};
use crate::scope::Scope;
use crate::session::Session;
use crate::time::Timestamp;
use crate::token::{
    check_client, check_code_exchange, check_refresh_grant, code_decision, consume_refresh_token,
    consumes, end_replayed_session, ends_session, forbids_caching, hands_out, is_error_reply,
    needs_id_token, no_cache_headers,
    pkce_outcome, require_browser_session, revoke_previous_access_token, revokes, select_grant,
    start_code_exchange, token_response, AccessTokenRequest, AccessTokenResponse,
    AuthorizationGrant, AuthorizationGrantStage, CodeDecision, Pkce, PkceCheck, RouteError,
    SupportedGrant, ACCESS_TOKEN_TTL_SECONDS,
};
use crate::tokens::{AccessToken, BrowserSession, RefreshToken};

verus! {

/// The texts of a newly issued access and refresh token.
#[derive(Debug)]
pub struct IssuedTokens {
    pub access_token: String,
    pub refresh_token: String,
}

/// Where the endpoint stands.
#[derive(Debug)]
pub enum TokenStage {
    /// Waiting for the client named by the request's credentials.
    AwaitClient,
    /// Waiting for the outcome of verifying the client's credentials.
    AwaitCredentials { client: Client },
    /// Waiting for the request form.
    AwaitForm { client: Client },
    /// Waiting for the grant that issued the presented code.
    AwaitGrant { client: Client, code_verifier: Option<String> },
    /// Waiting for the session of a replayed code, to end it.
    AwaitReplayedSession,
    /// Waiting for the ended session to be stored.
    AwaitEndedSessionSaved,
    /// Waiting for the ended session to be committed.
    AwaitReplayCommitted,
    /// Waiting for the session of a code that may be exchanged.
    AwaitCodeSession { client: Client, grant: AuthorizationGrant, code_verifier: Option<String> },
    /// Waiting for the PKCE verifier to be checked against the challenge.
    AwaitPkce { client: Client, grant: AuthorizationGrant, session: Session },
    /// Waiting for the browser session of the code's session.
    AwaitOwner { client: Client, grant: AuthorizationGrant, session: Session },
    /// Waiting for the tokens issued for the code's session.
    AwaitCodeTokens { client: Client, grant: AuthorizationGrant, scope: Scope, owner: BrowserSession },
    /// Waiting for the signed ID token.
    AwaitIdToken {
        grant_id: u128,
        grant_stage: AuthorizationGrantStage,
        tokens: IssuedTokens,
        scope: Scope,
    },
    /// Waiting for the grant, now exchanged, to be stored.
    AwaitGrantSaved { response: AccessTokenResponse },
    /// Waiting for the presented refresh token.
    AwaitRefreshToken { client: Client },
    /// Waiting for the session of the refresh token.
    AwaitRefreshSession { client: Client, token: RefreshToken },
    /// Waiting for the tokens issued in exchange for the refresh token.
    AwaitRefreshTokens { token: RefreshToken, scope: Scope },
    /// Waiting for the consumed refresh token to be stored.
    AwaitConsumedSaved { previous: Option<u128>, response: AccessTokenResponse },
    /// Waiting for the access token issued with the consumed refresh token.
    AwaitPreviousAccessToken { response: AccessTokenResponse },
    /// Waiting for the revoked access token to be stored.
    AwaitRevokedSaved { response: AccessTokenResponse },
    /// Waiting for everything to be committed.
    AwaitCommit { response: AccessTokenResponse },
    /// The endpoint has answered.
    Done,
}

/// What an action fetched, stored or computed.
#[derive(Debug)]
pub enum TokenEvent {
    Client(Option<Client>),
    Credentials(Result<(), String>),
    Form(Option<AccessTokenRequest>),
    Grant(Option<AuthorizationGrant>),
    Session(Option<Session>),
    /// The outcome of PKCE verification, with the reason of a failure.
    Pkce(Result<(), String>),
    Owner(Option<BrowserSession>),
    Tokens(IssuedTokens),
    IdToken(String),
    RefreshToken(Option<RefreshToken>),
    AccessToken(Option<AccessToken>),
    /// A write, or the commit, went through.
    Stored,
    /// Storage, token issuance or signing failed, with the reason.
    Failed(String),
}

/// What the endpoint asks for next, or its answer.
#[derive(Debug)]
pub enum TokenAction {
    /// Find the client named by the request's credentials.
    FindClient,
    /// Verify the credentials of this client.
    VerifyCredentials(Client),
    /// Read the request form.
    ReadForm,
    /// Find the grant that issued this code.
    FindGrant(String),
    /// Look up the OAuth 2.0 session with this identifier.
    LookupSession(u128),
    /// Store this session.
    SaveSession(Session),
    /// Commit what was stored.
    Commit,
    /// Verify `verifier` against `challenge`.
    VerifyPkce { challenge: Pkce, verifier: String },
    /// Look up the browser session with this identifier.
    LookupBrowserSession(u128),
    /// Issue and store an access token that lives `ttl_seconds`, and its
    /// refresh token, for the session with this identifier.
    IssueTokens { session_id: u128, ttl_seconds: i64 },
    /// Sign an ID token for the grant's user, bound to the access token.
    SignIdToken {
        client: Client,
        grant: AuthorizationGrant,
        owner: BrowserSession,
        access_token: String,
    },
    /// Store the grant's new stage.
    SaveGrantStage { grant_id: u128, stage: AuthorizationGrantStage },
    /// Find the refresh token with this text.
    FindRefreshToken(String),
    /// Store this refresh token.
    SaveRefreshToken(RefreshToken),
    /// Look up the access token with this identifier.
    LookupAccessToken(u128),
    /// Store this access token.
    SaveAccessToken(AccessToken),
    /// Answer with this status, these headers and this body.
    Reply(u16, Vec<(&'static str, &'static str)>, Result<AccessTokenResponse, ClientError>),
}

/// How far the exchange has gone: each step that does not end it moves to a
/// later stage.
pub open spec fn stage_rank(stage: TokenStage) -> nat {
    match stage {
        TokenStage::AwaitClient => 0,
        TokenStage::AwaitCredentials { .. } => 1,
        TokenStage::AwaitForm { .. } => 2,
        TokenStage::AwaitGrant { .. } => 3,
        TokenStage::AwaitRefreshToken { .. } => 3,
        TokenStage::AwaitReplayedSession => 4,
        TokenStage::AwaitCodeSession { .. } => 4,
        TokenStage::AwaitRefreshSession { .. } => 4,
        TokenStage::AwaitEndedSessionSaved => 5,
        TokenStage::AwaitPkce { .. } => 5,
        TokenStage::AwaitRefreshTokens { .. } => 5,
        TokenStage::AwaitReplayCommitted => 6,
        TokenStage::AwaitOwner { .. } => 6,
        TokenStage::AwaitConsumedSaved { .. } => 6,
        TokenStage::AwaitCodeTokens { .. } => 7,
        TokenStage::AwaitPreviousAccessToken { .. } => 7,
        TokenStage::AwaitIdToken { .. } => 8,
        TokenStage::AwaitRevokedSaved { .. } => 8,
        TokenStage::AwaitGrantSaved { .. } => 9,
        TokenStage::AwaitCommit { .. } => 10,
        TokenStage::Done => 11,
    }
}

/// The stage waits on storage, token issuance or signing, which may fail.
pub open spec fn may_fail(stage: TokenStage) -> bool {
    !(stage is Done || stage is AwaitCredentials || stage is AwaitForm || stage is AwaitPkce)
}

/// The event an action's result comes back as.
pub open spec fn answers(stage: TokenStage, event: TokenEvent) -> bool {
    if event is Failed {
        may_fail(stage)
    } else {
        match stage {
            TokenStage::AwaitClient => event is Client,
            TokenStage::AwaitCredentials { .. } => event is Credentials,
            TokenStage::AwaitForm { .. } => event is Form,
            TokenStage::AwaitGrant { .. } => event is Grant,
            TokenStage::AwaitReplayedSession => event is Session,
            TokenStage::AwaitEndedSessionSaved => event is Stored,
            TokenStage::AwaitReplayCommitted => event is Stored,
            TokenStage::AwaitCodeSession { .. } => event is Session,
            TokenStage::AwaitPkce { .. } => event is Pkce,
            TokenStage::AwaitOwner { .. } => event is Owner,
            TokenStage::AwaitCodeTokens { .. } => event is Tokens,
            TokenStage::AwaitIdToken { .. } => event is IdToken,
            TokenStage::AwaitGrantSaved { .. } => event is Stored,
            TokenStage::AwaitRefreshToken { .. } => event is RefreshToken,
            TokenStage::AwaitRefreshSession { .. } => event is Session,
            TokenStage::AwaitRefreshTokens { .. } => event is Tokens,
            TokenStage::AwaitConsumedSaved { .. } => event is Stored,
            TokenStage::AwaitPreviousAccessToken { .. } => event is AccessToken,
            TokenStage::AwaitRevokedSaved { .. } => event is Stored,
            TokenStage::AwaitCommit { .. } => event is Stored,
            TokenStage::Done => false,
        }
    }
}

/// The answer to `e`, without headers.
pub open spec fn refuses_with(a: TokenAction, e: RouteError) -> bool {
    a matches TokenAction::Reply(status, headers, Err(body)) && headers@.len() == 0
        && is_error_reply(e, status, body)
}

/// A server error answer (500), without headers or description.
pub open spec fn fails(a: TokenAction) -> bool {
    a matches TokenAction::Reply(status, headers, Err(body)) && headers@.len() == 0 && status == 500
        && body.error == ClientErrorCode::ServerError && body.error_description is None
}

/// After the tokens and the ID token (if any) were made: the grant is marked
/// exchanged, and the response waits for that to be stored.
pub open spec fn saves_exchanged_grant(
    grant_id: u128,
    grant_stage: AuthorizationGrantStage,
    now: Timestamp,
    tokens: IssuedTokens,
    scope: Scope,
    id_token: Option<String>,
    r: (TokenStage, TokenAction),
) -> bool {
    match grant_stage.exchange_outcome(now) {
        Ok(stage) => {
            &&& r.1 == (TokenAction::SaveGrantStage { grant_id, stage })
            &&& r.0 matches TokenStage::AwaitGrantSaved { response } && hands_out(
                response,
                tokens.access_token,
                tokens.refresh_token,
                scope,
                id_token,
            )
        },
        Err(_) => r.0 is Done && fails(r.1),
    }
}

/// What `step` does with an event that answers the last action, on the
/// client and form.
pub open spec fn request_outcome(stage: TokenStage, event: TokenEvent, r: (TokenStage, TokenAction)) -> bool {
    match (stage, event) {
        (TokenStage::AwaitClient, TokenEvent::Client(c)) => match c {
            None => r.0 is Done && refuses_with(r.1, RouteError::ClientNotFound),
            Some(c) => if c.token_endpoint_auth_method is Some {
                &&& r.0 == (TokenStage::AwaitCredentials { client: c })
                &&& r.1 matches TokenAction::VerifyCredentials(d) && c.same_registration(d)
            } else {
                r.0 is Done && refuses_with(r.1, RouteError::ClientNotAllowed)
            },
        },
        (TokenStage::AwaitCredentials { client }, TokenEvent::Credentials(v)) => match v {
            Ok(_) => r.0 == (TokenStage::AwaitForm { client }) && r.1 is ReadForm,
            Err(m) => r.0 is Done && refuses_with(r.1, RouteError::ClientCredentialsVerification(m)),
        },
        (TokenStage::AwaitForm { client }, TokenEvent::Form(f)) => match f {
            None => r.0 is Done && refuses_with(r.1, RouteError::BadRequest),
            Some(AccessTokenRequest::AuthorizationCode(g)) => {
                &&& r.0 == (TokenStage::AwaitGrant { client, code_verifier: g.code_verifier })
                &&& r.1 == TokenAction::FindGrant(g.code)
            },
            Some(AccessTokenRequest::RefreshToken(g)) => {
                &&& r.0 == (TokenStage::AwaitRefreshToken { client })
                &&& r.1 == TokenAction::FindRefreshToken(g.refresh_token)
            },
            Some(_) => r.0 is Done && refuses_with(r.1, RouteError::UnsupportedGrantType),
        },
        _ => true,
    }
}

/// What `step` does with an event that answers the last action, on the way
/// of an authorization code.
pub open spec fn code_outcome(
    stage: TokenStage,
    event: TokenEvent,
    now: Timestamp,
    r: (TokenStage, TokenAction),
) -> bool {
    match (stage, event) {
        (TokenStage::AwaitGrant { client, code_verifier }, TokenEvent::Grant(g)) => match g {
            None => r.0 is Done && refuses_with(r.1, RouteError::GrantNotFound),
            Some(g) => match code_decision(g.stage, now) {
                CodeDecision::Refuse => r.0 is Done && refuses_with(r.1, RouteError::InvalidGrant),
                CodeDecision::RefuseAndEndSession { session_id } => {
                    r.0 is AwaitReplayedSession && r.1 == TokenAction::LookupSession(session_id)
                },
                CodeDecision::Proceed { session_id } => {
                    &&& r.0 == (TokenStage::AwaitCodeSession { client, grant: g, code_verifier })
                    &&& r.1 == TokenAction::LookupSession(session_id)
                },
            },
        },
        (TokenStage::AwaitReplayedSession, TokenEvent::Session(s)) => match s {
            None => r.0 is Done && refuses_with(r.1, RouteError::NoSuchOAuthSession),
            Some(s) => if s.state is Valid {
                r.0 is AwaitEndedSessionSaved && (r.1 matches TokenAction::SaveSession(f)
                    && ends_session(f, s, now))
            } else {
                r.0 is Done && fails(r.1)
            },
        },
        (TokenStage::AwaitEndedSessionSaved, TokenEvent::Stored) => r.0 is AwaitReplayCommitted
            && r.1 is Commit,
        (TokenStage::AwaitReplayCommitted, TokenEvent::Stored) => r.0 is Done && refuses_with(
            r.1,
            RouteError::InvalidGrant,
        ),
        (TokenStage::AwaitCodeSession { client, grant, code_verifier }, TokenEvent::Session(s)) => match s {
            None => r.0 is Done && refuses_with(r.1, RouteError::NoSuchOAuthSession),
            Some(s) => match grant.code {
                None => r.0 is Done && refuses_with(r.1, RouteError::InvalidGrant),
                Some(c) => if client.id != s.client_id {
                    r.0 is Done && refuses_with(r.1, RouteError::UnauthorizedClient)
                } else {
                    match (c.pkce, code_verifier) {
                        (None, None) => {
                            &&& r.0 == (TokenStage::AwaitOwner { client, grant, session: s })
                            &&& r.1 == TokenAction::LookupBrowserSession(s.user_session_id)
                        },
                        (Some(p), Some(v)) => {
                            &&& r.0 == (TokenStage::AwaitPkce { client, grant, session: s })
                            &&& r.1 == (TokenAction::VerifyPkce { challenge: p, verifier: v })
                        },
                        _ => r.0 is Done && refuses_with(r.1, RouteError::BadRequest),
                    }
                },
            },
        },
        (TokenStage::AwaitPkce { client, grant, session }, TokenEvent::Pkce(v)) => match v {
            Ok(_) => {
                &&& r.0 == (TokenStage::AwaitOwner { client, grant, session })
                &&& r.1 == TokenAction::LookupBrowserSession(session.user_session_id)
            },
            Err(m) => r.0 is Done && refuses_with(r.1, RouteError::PkceVerification(m)),
        },
        (TokenStage::AwaitOwner { client, grant, session }, TokenEvent::Owner(o)) => match o {
            None => r.0 is Done && refuses_with(r.1, RouteError::NoSuchBrowserSession),
            Some(o) => {
                &&& r.0 == (TokenStage::AwaitCodeTokens { client, grant, scope: session.scope, owner: o })
                &&& r.1 == (TokenAction::IssueTokens {
                    session_id: session.id,
                    ttl_seconds: ACCESS_TOKEN_TTL_SECONDS,
                })
            },
        },
        (TokenStage::AwaitCodeTokens { client, grant, scope, owner }, TokenEvent::Tokens(t)) => {
            if scope@.contains("openid"@) {
                &&& r.0 == (TokenStage::AwaitIdToken {
                    grant_id: grant.id,
                    grant_stage: grant.stage,
                    tokens: t,
                    scope,
                })
                &&& r.1 == (TokenAction::SignIdToken {
                    client,
                    grant,
                    owner,
                    access_token: t.access_token,
                })
            } else {
                saves_exchanged_grant(grant.id, grant.stage, now, t, scope, None, r)
            }
        },
        (TokenStage::AwaitIdToken { grant_id, grant_stage, tokens, scope }, TokenEvent::IdToken(id)) => {
            saves_exchanged_grant(grant_id, grant_stage, now, tokens, scope, Some(id), r)
        },
        (TokenStage::AwaitGrantSaved { response }, TokenEvent::Stored) => {
            r.0 == (TokenStage::AwaitCommit { response }) && r.1 is Commit
        },
        _ => true,
    }
}

/// What `step` does with an event that answers the last action, on the way
/// of a refresh token.
pub open spec fn refresh_outcome(
    stage: TokenStage,
    event: TokenEvent,
    now: Timestamp,
    r: (TokenStage, TokenAction),
) -> bool {
    match (stage, event) {
        (TokenStage::AwaitRefreshToken { client }, TokenEvent::RefreshToken(t)) => match t {
            None => r.0 is Done && refuses_with(r.1, RouteError::InvalidGrant),
            Some(t) => {
                &&& r.0 == (TokenStage::AwaitRefreshSession { client, token: t })
                &&& r.1 == TokenAction::LookupSession(t.session_id)
            },
        },
        (TokenStage::AwaitRefreshSession { client, token }, TokenEvent::Session(s)) => match s {
            None => r.0 is Done && refuses_with(r.1, RouteError::NoSuchOAuthSession),
            Some(s) => if token.valid() && s.state is Valid && client.id == s.client_id {
                &&& r.0 == (TokenStage::AwaitRefreshTokens { token, scope: s.scope })
                &&& r.1 == (TokenAction::IssueTokens {
                    session_id: s.id,
                    ttl_seconds: ACCESS_TOKEN_TTL_SECONDS,
                })
            } else {
                r.0 is Done && refuses_with(r.1, RouteError::InvalidGrant)
            },
        },
        (TokenStage::AwaitRefreshTokens { token, scope }, TokenEvent::Tokens(t)) => if token.valid() {
            &&& r.0 matches TokenStage::AwaitConsumedSaved { previous, response } && previous
                == token.access_token_id && hands_out(
                response,
                t.access_token,
                t.refresh_token,
                scope,
                None,
            )
            &&& r.1 matches TokenAction::SaveRefreshToken(c) && consumes(c, token, now)
        } else {
            r.0 is Done && fails(r.1)
        },
        (TokenStage::AwaitConsumedSaved { previous, response }, TokenEvent::Stored) => match previous {
            Some(id) => {
                &&& r.0 == (TokenStage::AwaitPreviousAccessToken { response })
                &&& r.1 == TokenAction::LookupAccessToken(id)
            },
            None => r.0 == (TokenStage::AwaitCommit { response }) && r.1 is Commit,
        },
        (TokenStage::AwaitPreviousAccessToken { response }, TokenEvent::AccessToken(t)) => match t {
            None => r.0 == (TokenStage::AwaitCommit { response }) && r.1 is Commit,
            Some(t) => if t.state is Valid {
                &&& r.0 == (TokenStage::AwaitRevokedSaved { response })
                &&& r.1 matches TokenAction::SaveAccessToken(u) && revokes(u, t, now)
            } else {
                r.0 is Done && fails(r.1)
            },
        },
        (TokenStage::AwaitRevokedSaved { response }, TokenEvent::Stored) => {
            r.0 == (TokenStage::AwaitCommit { response }) && r.1 is Commit
        },
        (TokenStage::AwaitCommit { response }, TokenEvent::Stored) => {
            r.0 is Done && (r.1 matches TokenAction::Reply(status, headers, Ok(sent)) && status == 200
                && forbids_caching(headers@) && sent == response)
        },
        _ => true,
    }
}

/// What `step` does with an event that answers the last action.
pub open spec fn step_outcome(
    stage: TokenStage,
    event: TokenEvent,
    now: Timestamp,
    r: (TokenStage, TokenAction),
) -> bool {
    if event is Failed {
        r.0 is Done && fails(r.1)
    } else {
        &&& request_outcome(stage, event, r)
        &&& code_outcome(stage, event, now, r)
        &&& refresh_outcome(stage, event, now, r)
    }
}

fn refuse(e: RouteError) -> (r: (TokenStage, TokenAction))
    ensures
        r.0 is Done,
        refuses_with(r.1, e),
{
    let (status, body) = e.into_response();
    (TokenStage::Done, TokenAction::Reply(status, Vec::new(), Err(body)))
}

fn fail(reason: String) -> (r: (TokenStage, TokenAction))
    ensures
        r.0 is Done,
        fails(r.1),
{
    refuse(RouteError::Internal(reason))
}

/// The first step: the endpoint asks for the client named by the request's
/// credentials.
pub fn start() -> (r: (TokenStage, TokenAction))
    ensures
        r.0 is AwaitClient,
        r.1 is FindClient,
{
    (TokenStage::AwaitClient, TokenAction::FindClient)
}

/// After the tokens and the ID token (if any) were made: marks the grant
/// exchanged and asks for that to be stored.
fn save_exchanged_grant(
    grant_id: u128,
    grant_stage: AuthorizationGrantStage,
    now: Timestamp,
    tokens: IssuedTokens,
    scope: Scope,
    id_token: Option<String>,
) -> (r: (TokenStage, TokenAction))
    ensures
        saves_exchanged_grant(grant_id, grant_stage, now, tokens, scope, id_token, r),
        r.0 is Done || r.0 is AwaitGrantSaved,
        r.1 is Reply <==> r.0 is Done,
{
    match grant_stage.exchange(now) {
        Ok(stage) => {
            let response = token_response(tokens.access_token, tokens.refresh_token, scope, id_token);
            (TokenStage::AwaitGrantSaved { response }, TokenAction::SaveGrantStage { grant_id, stage })
        },
        Err(_) => fail(String::from_str("invalid grant state transition")),
    }
}

fn step_request(stage: TokenStage, event: TokenEvent) -> (r: (TokenStage, TokenAction))
    requires
        answers(stage, event),
        !(event is Failed),
        stage is AwaitClient || stage is AwaitCredentials || stage is AwaitForm,
    ensures
        request_outcome(stage, event, r),
        stage_rank(r.0) > stage_rank(stage),
        r.1 is Reply <==> r.0 is Done,
{
    match (stage, event) {
        (TokenStage::AwaitClient, TokenEvent::Client(c)) => match check_client(c) {
            Ok(c) => {
                let d = c.duplicate();
                (TokenStage::AwaitCredentials { client: c }, TokenAction::VerifyCredentials(d))
            },
            Err(e) => refuse(e),
        },
        (TokenStage::AwaitCredentials { client }, TokenEvent::Credentials(v)) => match v {
            Ok(()) => (TokenStage::AwaitForm { client }, TokenAction::ReadForm),
            Err(m) => refuse(RouteError::ClientCredentialsVerification(m)),
        },
        (TokenStage::AwaitForm { client }, TokenEvent::Form(f)) => match select_grant(f) {
            Ok(SupportedGrant::AuthorizationCode(g)) => (
                TokenStage::AwaitGrant { client, code_verifier: g.code_verifier },
                TokenAction::FindGrant(g.code),
            ),
            Ok(SupportedGrant::RefreshToken(g)) => (
                TokenStage::AwaitRefreshToken { client },
                TokenAction::FindRefreshToken(g.refresh_token),
            ),
            Err(e) => refuse(e),
        },
        _ => fail(String::from_str("token event out of step")),
    }
}

fn step_code(stage: TokenStage, event: TokenEvent, now: Timestamp) -> (r: (TokenStage, TokenAction))
    requires
        answers(stage, event),
        !(event is Failed),
        stage is AwaitGrant || stage is AwaitReplayedSession || stage is AwaitEndedSessionSaved
            || stage is AwaitReplayCommitted || stage is AwaitCodeSession || stage is AwaitPkce
            || stage is AwaitOwner || stage is AwaitCodeTokens || stage is AwaitIdToken
            || stage is AwaitGrantSaved,
    ensures
        code_outcome(stage, event, now, r),
        stage_rank(r.0) > stage_rank(stage),
        r.1 is Reply <==> r.0 is Done,
{
    match (stage, event) {
        (TokenStage::AwaitGrant { client, code_verifier }, TokenEvent::Grant(g)) => {
            match start_code_exchange(&g, now) {
                Err(e) => refuse(e),
                Ok(CodeDecision::Refuse) => refuse(RouteError::InvalidGrant),
                Ok(CodeDecision::RefuseAndEndSession { session_id }) => (
                    TokenStage::AwaitReplayedSession,
                    TokenAction::LookupSession(session_id),
                ),
                Ok(CodeDecision::Proceed { session_id }) => match g {
                    Some(grant) => (
                        TokenStage::AwaitCodeSession { client, grant, code_verifier },
                        TokenAction::LookupSession(session_id),
                    ),
                    None => refuse(RouteError::GrantNotFound),
                },
            }
        },
        (TokenStage::AwaitReplayedSession, TokenEvent::Session(s)) => match end_replayed_session(s, now) {
            Ok(ended) => (TokenStage::AwaitEndedSessionSaved, TokenAction::SaveSession(ended)),
            Err(e) => refuse(e),
        },
        (TokenStage::AwaitEndedSessionSaved, TokenEvent::Stored) => (
            TokenStage::AwaitReplayCommitted,
            TokenAction::Commit,
        ),
        (TokenStage::AwaitReplayCommitted, TokenEvent::Stored) => refuse(RouteError::InvalidGrant),
        (TokenStage::AwaitCodeSession { client, grant, code_verifier }, TokenEvent::Session(s)) => {
            match check_code_exchange(&grant, s, &client, code_verifier) {
                Ok((session, PkceCheck::NotRequired)) => {
                    let id = session.user_session_id;
                    (TokenStage::AwaitOwner { client, grant, session }, TokenAction::LookupBrowserSession(id))
                },
                Ok((session, PkceCheck::Verify { challenge, verifier })) => (
                    TokenStage::AwaitPkce { client, grant, session },
                    TokenAction::VerifyPkce { challenge, verifier },
                ),
                Err(e) => refuse(e),
            }
        },
        (TokenStage::AwaitPkce { client, grant, session }, TokenEvent::Pkce(v)) => match pkce_outcome(v) {
            Ok(()) => {
                let id = session.user_session_id;
                (TokenStage::AwaitOwner { client, grant, session }, TokenAction::LookupBrowserSession(id))
            },
            Err(e) => refuse(e),
        },
        (TokenStage::AwaitOwner { client, grant, session }, TokenEvent::Owner(o)) => {
            match require_browser_session(o) {
                Ok(owner) => {
                    let session_id = session.id;
                    (
                        TokenStage::AwaitCodeTokens { client, grant, scope: session.scope, owner },
                        TokenAction::IssueTokens { session_id, ttl_seconds: ACCESS_TOKEN_TTL_SECONDS },
                    )
                },
                Err(e) => refuse(e),
            }
        },
        (TokenStage::AwaitCodeTokens { client, grant, scope, owner }, TokenEvent::Tokens(t)) => {
            if needs_id_token(&scope) {
                let access_token = t.access_token.clone();
                (
                    TokenStage::AwaitIdToken {
                        grant_id: grant.id,
                        grant_stage: grant.stage,
                        tokens: t,
                        scope,
                    },
                    TokenAction::SignIdToken { client, grant, owner, access_token },
                )
            } else {
                save_exchanged_grant(grant.id, grant.stage, now, t, scope, None)
            }
        },
        (TokenStage::AwaitIdToken { grant_id, grant_stage, tokens, scope }, TokenEvent::IdToken(id)) => {
            save_exchanged_grant(grant_id, grant_stage, now, tokens, scope, Some(id))
        },
        (TokenStage::AwaitGrantSaved { response }, TokenEvent::Stored) => (
            TokenStage::AwaitCommit { response },
            TokenAction::Commit,
        ),
        _ => fail(String::from_str("token event out of step")),
    }
}

fn step_refresh(stage: TokenStage, event: TokenEvent, now: Timestamp) -> (r: (TokenStage, TokenAction))
    requires
        answers(stage, event),
        !(event is Failed),
        stage is AwaitRefreshToken || stage is AwaitRefreshSession || stage is AwaitRefreshTokens
            || stage is AwaitConsumedSaved || stage is AwaitPreviousAccessToken
            || stage is AwaitRevokedSaved || stage is AwaitCommit,
    ensures
        refresh_outcome(stage, event, now, r),
        stage_rank(r.0) > stage_rank(stage),
        r.1 is Reply <==> r.0 is Done,
{
    match (stage, event) {
        (TokenStage::AwaitRefreshToken { client }, TokenEvent::RefreshToken(t)) => match t {
            None => refuse(RouteError::InvalidGrant),
            Some(token) => {
                let session_id = token.session_id;
                (TokenStage::AwaitRefreshSession { client, token }, TokenAction::LookupSession(session_id))
            },
        },
        (TokenStage::AwaitRefreshSession { client, token }, TokenEvent::Session(s)) => {
            match check_refresh_grant(Some(token), s, &client) {
                Ok((token, session)) => {
                    let session_id = session.id;
                    (
                        TokenStage::AwaitRefreshTokens { token, scope: session.scope },
                        TokenAction::IssueTokens { session_id, ttl_seconds: ACCESS_TOKEN_TTL_SECONDS },
                    )
                },
                Err(e) => refuse(e),
            }
        },
        (TokenStage::AwaitRefreshTokens { token, scope }, TokenEvent::Tokens(t)) => {
            match consume_refresh_token(token, now) {
                Ok(consumed) => {
                    let previous = consumed.access_token_id;
                    let response = token_response(t.access_token, t.refresh_token, scope, None);
                    (
                        TokenStage::AwaitConsumedSaved { previous, response },
                        TokenAction::SaveRefreshToken(consumed),
                    )
                },
                Err(e) => refuse(e),
            }
        },
        (TokenStage::AwaitConsumedSaved { previous, response }, TokenEvent::Stored) => match previous {
            Some(id) => (TokenStage::AwaitPreviousAccessToken { response }, TokenAction::LookupAccessToken(id)),
            None => (TokenStage::AwaitCommit { response }, TokenAction::Commit),
        },
        (TokenStage::AwaitPreviousAccessToken { response }, TokenEvent::AccessToken(t)) => {
            match revoke_previous_access_token(t, now) {
                Ok(Some(revoked)) => (
                    TokenStage::AwaitRevokedSaved { response },
                    TokenAction::SaveAccessToken(revoked),
                ),
                Ok(None) => (TokenStage::AwaitCommit { response }, TokenAction::Commit),
                Err(e) => refuse(e),
            }
        },
        (TokenStage::AwaitRevokedSaved { response }, TokenEvent::Stored) => (
            TokenStage::AwaitCommit { response },
            TokenAction::Commit,
        ),
        (TokenStage::AwaitCommit { response }, TokenEvent::Stored) => (
            TokenStage::Done,
            TokenAction::Reply(200, no_cache_headers(), Ok(response)),
        ),
        _ => fail(String::from_str("token event out of step")),
    }
}

/// Takes what the last action fetched, stored or computed, and moves on.
/// The client must exist and have an authentication method, its
/// credentials must verify, and the form must ask for a served grant. A
/// code is exchanged only from a fulfilled grant younger than ten minutes,
/// for a session of the requesting client, with a matching PKCE verifier
/// when the code has a challenge; a code replayed more than twenty seconds
/// after its exchange ends the session it produced. A refresh token is
/// exchanged only while it and its session are valid, for the session's
/// client; it is then consumed and the access token issued with it revoked.
/// Every failure of storage, token issuance or signing is a server error,
/// and so is an event that does not answer the last action.
pub fn step(stage: TokenStage, event: TokenEvent, now: Timestamp) -> (r: (TokenStage, TokenAction))
    ensures
        !(stage is Done) ==> stage_rank(r.0) > stage_rank(stage),
        r.1 is Reply <==> r.0 is Done,
        !answers(stage, event) ==> r.0 is Done && fails(r.1),
        answers(stage, event) ==> step_outcome(stage, event, now, r),
{
    if !answers_exec(&stage, &event) {
        return fail(String::from_str("token event out of step"));
    }
    if let TokenEvent::Failed(reason) = event {
        return fail(reason);
    }
    match stage {
        TokenStage::AwaitClient | TokenStage::AwaitCredentials { .. } | TokenStage::AwaitForm { .. } => {
            step_request(stage, event)
        },
        TokenStage::AwaitRefreshToken { .. }
        | TokenStage::AwaitRefreshSession { .. }
        | TokenStage::AwaitRefreshTokens { .. }
        | TokenStage::AwaitConsumedSaved { .. }
        | TokenStage::AwaitPreviousAccessToken { .. }
        | TokenStage::AwaitRevokedSaved { .. }
        | TokenStage::AwaitCommit { .. } => step_refresh(stage, event, now),
        _ => step_code(stage, event, now),
    }
}

/// Whether `event` answers the last action of `stage`.
fn answers_exec(stage: &TokenStage, event: &TokenEvent) -> (r: bool)
    ensures
        r == answers(*stage, *event),
{
    if let TokenEvent::Failed(_) = event {
        return !matches!(
            stage,
            TokenStage::Done | TokenStage::AwaitCredentials { .. } | TokenStage::AwaitForm { .. } | TokenStage::AwaitPkce { .. }
        );
    }
    match stage {
        TokenStage::AwaitClient => matches!(event, TokenEvent::Client(_)),
        TokenStage::AwaitCredentials { .. } => matches!(event, TokenEvent::Credentials(_)),
        TokenStage::AwaitForm { .. } => matches!(event, TokenEvent::Form(_)),
        TokenStage::AwaitGrant { .. } => matches!(event, TokenEvent::Grant(_)),
        TokenStage::AwaitReplayedSession => matches!(event, TokenEvent::Session(_)),
        TokenStage::AwaitEndedSessionSaved => matches!(event, TokenEvent::Stored),
        TokenStage::AwaitReplayCommitted => matches!(event, TokenEvent::Stored),
        TokenStage::AwaitCodeSession { .. } => matches!(event, TokenEvent::Session(_)),
        TokenStage::AwaitPkce { .. } => matches!(event, TokenEvent::Pkce(_)),
        TokenStage::AwaitOwner { .. } => matches!(event, TokenEvent::Owner(_)),
        TokenStage::AwaitCodeTokens { .. } => matches!(event, TokenEvent::Tokens(_)),
        TokenStage::AwaitIdToken { .. } => matches!(event, TokenEvent::IdToken(_)),
        TokenStage::AwaitGrantSaved { .. } => matches!(event, TokenEvent::Stored),
        TokenStage::AwaitRefreshToken { .. } => matches!(event, TokenEvent::RefreshToken(_)),
        TokenStage::AwaitRefreshSession { .. } => matches!(event, TokenEvent::Session(_)),
        TokenStage::AwaitRefreshTokens { .. } => matches!(event, TokenEvent::Tokens(_)),
        TokenStage::AwaitConsumedSaved { .. } => matches!(event, TokenEvent::Stored),
        TokenStage::AwaitPreviousAccessToken { .. } => matches!(event, TokenEvent::AccessToken(_)),
        TokenStage::AwaitRevokedSaved { .. } => matches!(event, TokenEvent::Stored),
        TokenStage::AwaitCommit { .. } => matches!(event, TokenEvent::Stored),
        TokenStage::Done => false,
    }
}

} // verus!
