//! The token endpoint (RFC 6749, section 3.2): which clients and grants it
//! accepts, the life of an authorization code, refresh token rotation, and
//! the replies it sends.
use vstd::prelude::*;
use crate::client::{Client, ClientError, ClientErrorCode};
use crate::scope::Scope;
use crate::session::{InvalidTransitionError, Session};
use crate::time::{Timestamp, NANOS_PER_SECOND};
use crate::tokens::{AccessToken, AccessTokenState, RefreshToken, RefreshTokenState};

verus! {

/// How long a replayed authorization code may trail its first exchange
/// before the session it produced is ended, in nanoseconds (20 seconds).
pub const REPLAY_GRACE_NANOS: i128 = 20 * NANOS_PER_SECOND;

/// How long a fulfilled authorization code may wait before it is exchanged,
/// in nanoseconds (10 minutes).
pub const CODE_LIFETIME_NANOS: i128 = 600 * NANOS_PER_SECOND;

/// The lifetime of the access tokens the endpoint issues, in seconds
/// (5 minutes).
pub const ACCESS_TOKEN_TTL_SECONDS: i64 = 300;

/// Why a token request was refused.
#[derive(Debug)]
pub enum RouteError {
    /// A storage or other internal failure, with its message.
    Internal(String),
    BadRequest,
    /// PKCE verification failed, with the reason.
    PkceVerification(String),
    ClientNotFound,
    ClientNotAllowed,
    /// The client's credentials did not verify, with the reason.
    ClientCredentialsVerification(String),
    GrantNotFound,
    InvalidGrant,
    UnsupportedGrantType,
    UnauthorizedClient,
    NoSuchBrowserSession,
    NoSuchOAuthSession,
}

/// The description sent when PKCE verification fails:
/// `PKCE verification failed: ` followed by the reason.
pub open spec fn pkce_failure_text(reason: Seq<char>) -> Seq<char> {
    "PKCE verification failed: "@ + reason
}

/// `status` and `body` answer `e`: storage and other internal failures, and
/// sessions that cannot be loaded, are server errors (500); a malformed
/// request is an invalid request (400); a failed PKCE verification is an
/// invalid grant (400) whose description gives the reason; a missing client
/// or bad credentials are an invalid client (401); a client without an
/// authentication method, or one presenting another client's session, is
/// an unauthorized client (401); a missing or unusable grant is an invalid
/// grant (400); and an unsupported grant type says so (400).
pub open spec fn is_error_reply(e: RouteError, status: u16, body: ClientError) -> bool {
    match e {
        RouteError::Internal(_) | RouteError::NoSuchBrowserSession | RouteError::NoSuchOAuthSession => status == 500
            && body.error == ClientErrorCode::ServerError && body.error_description is None,
        RouteError::BadRequest => status == 400 && body.error == ClientErrorCode::InvalidRequest
            && body.error_description is None,
        RouteError::PkceVerification(reason) => status == 400 && body.error == ClientErrorCode::InvalidGrant
            && (body.error_description matches Some(d) && d@ == pkce_failure_text(reason@)),
        RouteError::ClientNotFound | RouteError::ClientCredentialsVerification(_) => status == 401
            && body.error == ClientErrorCode::InvalidClient && body.error_description is None,
        RouteError::ClientNotAllowed | RouteError::UnauthorizedClient => status == 401 && body.error
            == ClientErrorCode::UnauthorizedClient && body.error_description is None,
        RouteError::InvalidGrant | RouteError::GrantNotFound => status == 400 && body.error
            == ClientErrorCode::InvalidGrant && body.error_description is None,
        RouteError::UnsupportedGrantType => status == 400 && body.error
            == ClientErrorCode::UnsupportedGrantType && body.error_description is None,
    }
}

impl RouteError {
    /// The HTTP status and error body that answer this error.
    pub fn into_response(self) -> (r: (u16, ClientError))
        ensures
            is_error_reply(self, r.0, r.1),
    {
        match self {
            RouteError::Internal(_) | RouteError::NoSuchBrowserSession | RouteError::NoSuchOAuthSession => (
                500,
                ClientError::from_code(ClientErrorCode::ServerError),
            ),
            RouteError::BadRequest => (400, ClientError::from_code(ClientErrorCode::InvalidRequest)),
            RouteError::PkceVerification(err) => {
                let prefix = "PKCE verification failed: ";
                let mut text = String::from_str(prefix);
                text.append(err.as_str());
                (400, ClientError::with_description(ClientErrorCode::InvalidGrant, text))
            },
            RouteError::ClientNotFound | RouteError::ClientCredentialsVerification(_) => (
                401,
                ClientError::from_code(ClientErrorCode::InvalidClient),
            ),
            RouteError::ClientNotAllowed | RouteError::UnauthorizedClient => (
                401,
                ClientError::from_code(ClientErrorCode::UnauthorizedClient),
            ),
            RouteError::InvalidGrant | RouteError::GrantNotFound => (
                400,
                ClientError::from_code(ClientErrorCode::InvalidGrant),
            ),
            RouteError::UnsupportedGrantType => (
                400,
                ClientError::from_code(ClientErrorCode::UnsupportedGrantType),
            ),
        }
    }
}

/// An `authorization_code` grant request (RFC 6749, section 4.1.3).
#[derive(Debug)]
pub struct AuthorizationCodeGrant {
    pub code: String,
    pub redirect_uri: Option<String>,
    pub code_verifier: Option<String>,
}

/// A `refresh_token` grant request (RFC 6749, section 6).
#[derive(Debug)]
pub struct RefreshTokenGrant {
    pub refresh_token: String,
    pub scope: Option<Scope>,
}

/// A token request, by grant type.
#[derive(Debug)]
pub enum AccessTokenRequest {
    AuthorizationCode(AuthorizationCodeGrant),
    RefreshToken(RefreshTokenGrant),
    ClientCredentials,
    Unsupported,
}

/// The grants the endpoint serves.
#[derive(Debug)]
pub enum SupportedGrant {
    AuthorizationCode(AuthorizationCodeGrant),
    RefreshToken(RefreshTokenGrant),
}

/// Checks the client presenting a token request: it must exist and have a
/// token endpoint authentication method.
pub fn check_client(client: Option<Client>) -> (r: Result<Client, RouteError>)
    ensures
        client is None ==> (r matches Err(RouteError::ClientNotFound)),
        client matches Some(c) ==> {
            &&& c.token_endpoint_auth_method is Some ==> r == Ok::<Client, RouteError>(c)
            &&& c.token_endpoint_auth_method is None ==> (r matches Err(RouteError::ClientNotAllowed))
        },
{
    match client {
        None => Err(RouteError::ClientNotFound),
        Some(c) => {
            if c.token_endpoint_auth_method.is_some() {
                Ok(c)
            } else {
                Err(RouteError::ClientNotAllowed)
            }
        },
    }
}

/// Selects the grant to serve: a request without a form is a bad request,
/// and only authorization code and refresh token grants are served.
pub fn select_grant(form: Option<AccessTokenRequest>) -> (r: Result<SupportedGrant, RouteError>)
    ensures
        form is None ==> (r matches Err(RouteError::BadRequest)),
        form matches Some(AccessTokenRequest::AuthorizationCode(g)) ==> r
            == Ok::<SupportedGrant, RouteError>(SupportedGrant::AuthorizationCode(g)),
        form matches Some(AccessTokenRequest::RefreshToken(g)) ==> r == Ok::<SupportedGrant, RouteError>(
            SupportedGrant::RefreshToken(g),
        ),
        (form matches Some(f) && (f is ClientCredentials || f is Unsupported)) ==> (r matches Err(
            RouteError::UnsupportedGrantType,
        )),
{
    match form {
        None => Err(RouteError::BadRequest),
        Some(AccessTokenRequest::AuthorizationCode(g)) => Ok(SupportedGrant::AuthorizationCode(g)),
        Some(AccessTokenRequest::RefreshToken(g)) => Ok(SupportedGrant::RefreshToken(g)),
        Some(_) => Err(RouteError::UnsupportedGrantType),
    }
}

/// A PKCE code challenge (RFC 7636) attached to an authorization code.
#[derive(Debug)]
pub struct Pkce {
    pub challenge_method: String,
    pub challenge: String,
}

impl Pkce {
    /// A copy of the challenge.
    pub fn duplicate(&self) -> (r: Pkce)
        ensures
            r == *self,
    {
        Pkce { challenge_method: self.challenge_method.clone(), challenge: self.challenge.clone() }
    }
}

/// The authorization code issued for a grant.
#[derive(Debug)]
pub struct AuthorizationCode {
    pub code: String,
    pub pkce: Option<Pkce>,
}

/// The stages of an authorization grant.
#[derive(Clone, Copy, Debug, PartialEq, Eq, Structural)]
pub enum AuthorizationGrantStage {
    Pending,
    Fulfilled { session_id: u128, fulfilled_at: Timestamp },
    Exchanged { session_id: u128, fulfilled_at: Timestamp, exchanged_at: Timestamp },
    Cancelled { cancelled_at: Timestamp },
}

impl AuthorizationGrantStage {
    /// What fulfilling a pending grant with `session_id` yields.
    pub open spec fn fulfill_outcome(self, session_id: u128, fulfilled_at: Timestamp) -> Result<
        AuthorizationGrantStage,
        InvalidTransitionError,
    > {
        match self {
            AuthorizationGrantStage::Pending => Ok(
                AuthorizationGrantStage::Fulfilled { session_id, fulfilled_at },
            ),
            _ => Err(InvalidTransitionError),
        }
    }

    /// What exchanging a fulfilled grant's code yields.
    pub open spec fn exchange_outcome(self, exchanged_at: Timestamp) -> Result<
        AuthorizationGrantStage,
        InvalidTransitionError,
    > {
        match self {
            AuthorizationGrantStage::Fulfilled { session_id, fulfilled_at } => Ok(
                AuthorizationGrantStage::Exchanged { session_id, fulfilled_at, exchanged_at },
            ),
            _ => Err(InvalidTransitionError),
        }
    }

    /// Fulfils a pending grant: the user authorized it and `session_id` was
    /// opened for it.
    pub fn fulfill(self, session_id: u128, fulfilled_at: Timestamp) -> (r: Result<
        AuthorizationGrantStage,
        InvalidTransitionError,
    >)
        ensures
            r == self.fulfill_outcome(session_id, fulfilled_at),
    {
        match self {
            AuthorizationGrantStage::Pending => Ok(
                AuthorizationGrantStage::Fulfilled { session_id, fulfilled_at },
            ),
            _ => Err(InvalidTransitionError),
        }
    }

    /// Marks a fulfilled grant's code as exchanged for tokens.
    pub fn exchange(self, exchanged_at: Timestamp) -> (r: Result<
        AuthorizationGrantStage,
        InvalidTransitionError,
    >)
        ensures
            r == self.exchange_outcome(exchanged_at),
    {
        match self {
            AuthorizationGrantStage::Fulfilled { session_id, fulfilled_at } => Ok(
                AuthorizationGrantStage::Exchanged { session_id, fulfilled_at, exchanged_at },
            ),
            _ => Err(InvalidTransitionError),
        }
    }
}

/// An authorization grant, as far as the token endpoint reads it.
#[derive(Debug)]
pub struct AuthorizationGrant {
    pub id: u128,
    pub stage: AuthorizationGrantStage,
    pub code: Option<AuthorizationCode>,
    pub client_id: u128,
    pub scope: Scope,
}

/// What the endpoint does with a presented authorization code, by the stage
/// of its grant.
#[derive(Clone, Copy, Debug, PartialEq, Eq, Structural)]
pub enum CodeDecision {
    /// Exchange the code for tokens of this session.
    Proceed { session_id: u128 },
    /// Refuse the code.
    Refuse,
    /// Refuse the code, and end this session: the code was replayed long
    /// after its exchange, so the tokens it produced may be compromised.
    RefuseAndEndSession { session_id: u128 },
}

/// The decision for a code whose grant is at `stage`, presented at `now`.
pub open spec fn code_decision(stage: AuthorizationGrantStage, now: Timestamp) -> CodeDecision {
    match stage {
        AuthorizationGrantStage::Cancelled { .. } => CodeDecision::Refuse,
        AuthorizationGrantStage::Pending => CodeDecision::Refuse,
        AuthorizationGrantStage::Exchanged { session_id, exchanged_at, .. } => {
            if now.instant() - exchanged_at.instant() > REPLAY_GRACE_NANOS {
                CodeDecision::RefuseAndEndSession { session_id }
            } else {
                CodeDecision::Refuse
            }
        },
        AuthorizationGrantStage::Fulfilled { session_id, fulfilled_at } => {
            if now.instant() - fulfilled_at.instant() > CODE_LIFETIME_NANOS {
                CodeDecision::Refuse
            } else {
                CodeDecision::Proceed { session_id }
            }
        },
    }
}

/// Decides what to do with a code whose grant is at `stage`: only a
/// fulfilled grant younger than ten minutes proceeds; a code replayed more
/// than twenty seconds after its exchange also ends the session it
/// produced.
pub fn decide_code(stage: AuthorizationGrantStage, now: Timestamp) -> (d: CodeDecision)
    ensures
        d == code_decision(stage, now),
{
    match stage {
        AuthorizationGrantStage::Cancelled { .. } => CodeDecision::Refuse,
        AuthorizationGrantStage::Pending => CodeDecision::Refuse,
        AuthorizationGrantStage::Exchanged { session_id, exchanged_at, .. } => {
            if now.nanos_since(exchanged_at) > REPLAY_GRACE_NANOS {
                CodeDecision::RefuseAndEndSession { session_id }
            } else {
                CodeDecision::Refuse
            }
        },
        AuthorizationGrantStage::Fulfilled { session_id, fulfilled_at } => {
            if now.nanos_since(fulfilled_at) > CODE_LIFETIME_NANOS {
                CodeDecision::Refuse
            } else {
                CodeDecision::Proceed { session_id }
            }
        },
    }
}

/// Looks at the grant found for a presented code (`None` when no grant has
/// that code): a missing grant is refused as not found; otherwise the
/// grant's stage decides.
pub fn start_code_exchange(grant: &Option<AuthorizationGrant>, now: Timestamp) -> (r: Result<
    CodeDecision,
    RouteError,
>)
    ensures
        grant is None ==> (r matches Err(RouteError::GrantNotFound)),
        grant matches Some(g) ==> r == Ok::<CodeDecision, RouteError>(code_decision(g.stage, now)),
{
    match grant {
        None => Err(RouteError::GrantNotFound),
        Some(g) => Ok(decide_code(g.stage, now)),
    }
}

/// `f` is session `s` finished at `now`, every other field kept.
pub open spec fn ends_session(f: Session, s: Session, now: Timestamp) -> bool {
    &&& f.state == (crate::session::SessionState::Finished { finished_at: now })
    &&& f.id == s.id
    &&& f.client_id == s.client_id
    &&& f.created_at == s.created_at
    &&& f.user_session_id == s.user_session_id
    &&& f.scope@ == s.scope@
}

/// Ends the session of a replayed code: the session must exist and be
/// valid; it is finished at `now`. A missing session is reported as such;
/// one already finished cannot be finished again, an internal error.
pub fn end_replayed_session(session: Option<Session>, now: Timestamp) -> (r: Result<
    Session,
    RouteError,
>)
    ensures
        session is None ==> (r matches Err(RouteError::NoSuchOAuthSession)),
        session matches Some(s) ==> {
            &&& s.state is Valid <==> r is Ok
            &&& s.state is Finished ==> (r matches Err(RouteError::Internal(_)))
            &&& r matches Ok(f) ==> ends_session(f, s, now)
        },
{
    match session {
        None => Err(RouteError::NoSuchOAuthSession),
        Some(s) => match s.finish(now) {
            Ok(f) => Ok(f),
            Err(_) => Err(RouteError::Internal(String::from_str("invalid session state transition"))),
        },
    }
}

/// What is left to check of a PKCE-protected code: the presented verifier
/// against the code's challenge.
#[derive(Debug)]
pub enum PkceCheck {
    /// The code was issued without a challenge and none is presented.
    NotRequired,
    /// Verify `verifier` against `challenge`.
    Verify { challenge: Pkce, verifier: String },
}

/// Checks a code exchange that may proceed: the session must exist, the
/// grant must carry its code, the session must belong to the requesting
/// client, and a PKCE challenge and verifier must come together.
pub fn check_code_exchange(
    grant: &AuthorizationGrant,
    session: Option<Session>,
    client: &Client,
    code_verifier: Option<String>,
) -> (r: Result<(Session, PkceCheck), RouteError>)
    ensures
        session is None ==> (r matches Err(RouteError::NoSuchOAuthSession)),
        session matches Some(s) ==> {
            &&& grant.code is None ==> (r matches Err(RouteError::InvalidGrant))
            &&& (grant.code is Some && client.id != s.client_id) ==> (r matches Err(RouteError::UnauthorizedClient))
            &&& grant.code matches Some(c) ==> client.id == s.client_id ==> {
                &&& (c.pkce is Some) != (code_verifier is Some) ==> (r matches Err(RouteError::BadRequest))
                &&& (c.pkce is None && code_verifier is None) ==> (r matches Ok((s2, PkceCheck::NotRequired)) && s2 == s)
                &&& c.pkce matches Some(p) ==> code_verifier matches Some(v) ==> (r matches Ok((s2, PkceCheck::Verify { challenge, verifier })) && s2 == s && challenge == p && verifier == v)
            }
        },
{
    let s = match session {
        Some(s) => s,
        None => return Err(RouteError::NoSuchOAuthSession),
    };
    let code = match &grant.code {
        Some(c) => c,
        None => return Err(RouteError::InvalidGrant),
    };
    if client.id != s.client_id {
        return Err(RouteError::UnauthorizedClient);
    }
    match (&code.pkce, code_verifier) {
        (None, None) => Ok((s, PkceCheck::NotRequired)),
        (Some(p), Some(v)) => Ok((s, PkceCheck::Verify { challenge: p.duplicate(), verifier: v })),
        _ => Err(RouteError::BadRequest),
    }
}

/// Maps the outcome of PKCE verification: a failure, with its reason, is a
/// PKCE verification error.
pub fn pkce_outcome(verified: Result<(), String>) -> (r: Result<(), RouteError>)
    ensures
        verified is Ok <==> r is Ok,
        verified matches Err(e) ==> (r matches Err(RouteError::PkceVerification(e2)) && e2 == e),
{
    match verified {
        Ok(()) => Ok(()),
        Err(e) => Err(RouteError::PkceVerification(e)),
    }
}

/// The session's browser session must exist.
pub fn require_browser_session<B>(browser_session: Option<B>) -> (r: Result<B, RouteError>)
    ensures
        browser_session is None ==> (r matches Err(RouteError::NoSuchBrowserSession)),
        browser_session matches Some(b) ==> r == Ok::<B, RouteError>(b),
{
    match browser_session {
        Some(b) => Ok(b),
        None => Err(RouteError::NoSuchBrowserSession),
    }
}

/// Whether the tokens for `scope` come with an ID token: they do when the
/// scope holds `openid`.
pub fn needs_id_token(scope: &Scope) -> (r: bool)
    ensures
        r == scope@.contains("openid"@),
{
    scope.contains("openid")
}

/// A successful token response (RFC 6749, section 5.1).
#[derive(Debug)]
pub struct AccessTokenResponse {
    pub access_token: String,
    pub token_type: String,
    pub expires_in: Option<i64>,
    pub refresh_token: Option<String>,
    pub scope: Option<Scope>,
    pub id_token: Option<String>,
}

/// `r` hands out `access_token` and `refresh_token` for `scope`: a bearer
/// access token that expires in five minutes, its refresh token, the scope,
/// and `id_token`.
pub open spec fn hands_out(
    r: AccessTokenResponse,
    access_token: String,
    refresh_token: String,
    scope: Scope,
    id_token: Option<String>,
) -> bool {
    &&& r.access_token == access_token
    &&& r.token_type@ == "Bearer"@
    &&& r.expires_in == Some(ACCESS_TOKEN_TTL_SECONDS)
    &&& r.refresh_token == Some(refresh_token)
    &&& r.scope == Some(scope)
    &&& r.id_token == id_token
}

/// The response that hands out a new token pair for `scope`: a bearer
/// access token that expires in five minutes, its refresh token, the scope,
/// and an ID token when one was made.
pub fn token_response(
    access_token: String,
    refresh_token: String,
    scope: Scope,
    id_token: Option<String>,
) -> (r: AccessTokenResponse)
    ensures
        hands_out(r, access_token, refresh_token, scope, id_token),
{
    AccessTokenResponse {
        access_token,
        token_type: String::from_str("Bearer"),
        expires_in: Some(ACCESS_TOKEN_TTL_SECONDS),
        refresh_token: Some(refresh_token),
        scope: Some(scope),
        id_token,
    }
}

/// `headers` are exactly `Cache-Control: no-store` and `Pragma: no-cache`,
/// as name and value pairs.
pub open spec fn forbids_caching(headers: Seq<(&'static str, &'static str)>) -> bool {
    &&& headers.len() == 2
    &&& headers[0].0@ == "cache-control"@ && headers[0].1@ == "no-store"@
    &&& headers[1].0@ == "pragma"@ && headers[1].1@ == "no-cache"@
}

/// The headers of a successful token response, which must not be cached
/// (RFC 6749, section 5.1): `Cache-Control: no-store` and
/// `Pragma: no-cache`, as name and value pairs.
pub fn no_cache_headers() -> (r: Vec<(&'static str, &'static str)>)
    ensures
        forbids_caching(r@),
{
    vec![("cache-control", "no-store"), ("pragma", "no-cache")]
}

/// Checks a refresh token grant: the token must exist, its session must
/// exist, both must still be valid, and the session must belong to the
/// requesting client (RFC 6749, section 5.2: otherwise the grant is
/// invalid).
pub fn check_refresh_grant(
    token: Option<RefreshToken>,
    session: Option<Session>,
    client: &Client,
) -> (r: Result<(RefreshToken, Session), RouteError>)
    ensures
        token is None ==> (r matches Err(RouteError::InvalidGrant)),
        token is Some && session is None ==> (r matches Err(RouteError::NoSuchOAuthSession)),
        token matches Some(t) ==> session matches Some(s) ==> {
            &&& (t.valid() && s.state is Valid && client.id == s.client_id) ==> r == Ok::<
                (RefreshToken, Session),
                RouteError,
            >((t, s))
            &&& !(t.valid() && s.state is Valid && client.id == s.client_id) ==> (r matches Err(
                RouteError::InvalidGrant,
            ))
        },
{
    let t = match token {
        Some(t) => t,
        None => return Err(RouteError::InvalidGrant),
    };
    let s = match session {
        Some(s) => s,
        None => return Err(RouteError::NoSuchOAuthSession),
    };
    if !t.is_valid() || !s.is_valid() {
        return Err(RouteError::InvalidGrant);
    }
    if client.id != s.client_id {
        return Err(RouteError::InvalidGrant);
    }
    Ok((t, s))
}

/// `c` is refresh token `t` consumed at `now`, every other field kept.
pub open spec fn consumes(c: RefreshToken, t: RefreshToken, now: Timestamp) -> bool {
    &&& c.state == (RefreshTokenState::Consumed { consumed_at: now })
    &&& c.id == t.id
    &&& c.session_id == t.session_id
    &&& c.refresh_token == t.refresh_token
    &&& c.access_token_id == t.access_token_id
    &&& c.created_at == t.created_at
}

/// Consumes a refresh token that was just exchanged, at `now`; a token
/// already consumed cannot be consumed again, an internal error. Every other
/// field is kept.
pub fn consume_refresh_token(token: RefreshToken, now: Timestamp) -> (r: Result<RefreshToken, RouteError>)
    ensures
        token.valid() <==> r is Ok,
        !token.valid() ==> (r matches Err(RouteError::Internal(_))),
        r matches Ok(t) ==> consumes(t, token, now),
{
    let RefreshToken { id, state, session_id, refresh_token, access_token_id, created_at } = token;
    match state.consume(now) {
        Ok(state) => Ok(RefreshToken { id, state, session_id, refresh_token, access_token_id, created_at }),
        Err(_) => Err(RouteError::Internal(String::from_str("invalid refresh token state transition"))),
    }
}

/// `u` is access token `t` revoked at `now`, every other field kept.
pub open spec fn revokes(u: AccessToken, t: AccessToken, now: Timestamp) -> bool {
    &&& u.state == (AccessTokenState::Revoked { revoked_at: now })
    &&& u.id == t.id
    &&& u.session_id == t.session_id
    &&& u.access_token == t.access_token
    &&& u.created_at == t.created_at
    &&& u.expires_at == t.expires_at
}

/// Revokes, at `now`, the access token that the consumed refresh token had
/// been issued with, when it is still found; a token already revoked
/// cannot be revoked again, an internal error. Every other field is kept.
pub fn revoke_previous_access_token(token: Option<AccessToken>, now: Timestamp) -> (r: Result<
    Option<AccessToken>,
    RouteError,
>)
    ensures
        token is None ==> r == Ok::<Option<AccessToken>, RouteError>(None),
        token matches Some(t) ==> {
            &&& t.state is Valid <==> r is Ok
            &&& !(t.state is Valid) ==> (r matches Err(RouteError::Internal(_)))
            &&& r matches Ok(Some(u)) ==> revokes(u, t, now)
            &&& r matches Ok(o) ==> o is Some
        },
{
    match token {
        None => Ok(None),
        Some(t) => {
            let AccessToken { id, state, session_id, access_token, created_at, expires_at } = t;
            match state.revoke(now) {
                Ok(state) => Ok(Some(AccessToken { id, state, session_id, access_token, created_at, expires_at })),
                Err(_) => Err(RouteError::Internal(String::from_str("invalid access token state transition"))),
            }
        },
    }
}

/// An authorization code is exchanged at most once: once its grant is
/// marked exchanged, no later presentation of the code proceeds.
pub proof fn law_code_exchanged_at_most_once(
    stage: AuthorizationGrantStage,
    exchanged_at: Timestamp,
    now: Timestamp,
)
    requires
        stage.exchange_outcome(exchanged_at) is Ok,
    ensures
        !(code_decision(stage.exchange_outcome(exchanged_at).unwrap(), now) is Proceed),
{
}

/// A code replayed within twenty seconds of its exchange is refused and the
/// session it produced is kept; replayed later, it is refused and that
/// session is ended.
pub proof fn law_code_replay(
    session_id: u128,
    fulfilled_at: Timestamp,
    exchanged_at: Timestamp,
    now: Timestamp,
)
    ensures
        now.instant() - exchanged_at.instant() <= 20_000_000_000 ==> code_decision(
            (AuthorizationGrantStage::Exchanged { session_id, fulfilled_at, exchanged_at }),
            now,
        ) == CodeDecision::Refuse,
        now.instant() - exchanged_at.instant() > 20_000_000_000 ==> code_decision(
            (AuthorizationGrantStage::Exchanged { session_id, fulfilled_at, exchanged_at }),
            now,
        ) == (CodeDecision::RefuseAndEndSession { session_id }),
{
}

/// A code proceeds only from a fulfilled grant, for the grant's session, and
/// no more than ten minutes after fulfilment; a pending or cancelled grant's
/// code never proceeds.
pub proof fn law_code_proceeds_only_when_fresh(stage: AuthorizationGrantStage, now: Timestamp)
    ensures
        code_decision(stage, now) matches CodeDecision::Proceed { session_id } ==> (
        stage matches AuthorizationGrantStage::Fulfilled { session_id: sid, fulfilled_at } && sid
            == session_id && now.instant() - fulfilled_at.instant() <= 600_000_000_000),
        stage matches AuthorizationGrantStage::Fulfilled { session_id, fulfilled_at } ==> (
        now.instant() - fulfilled_at.instant() <= 600_000_000_000 <==> (code_decision(stage, now)
            is Proceed)),
{
}

/// A refresh token is exchanged at most once: consuming a valid token
/// leaves it invalid, so the grant check refuses it, and it cannot be
/// consumed again.
pub proof fn law_refresh_token_single_use(
    state: RefreshTokenState,
    consumed_at: Timestamp,
    later: Timestamp,
)
    requires
        state is Valid,
    ensures
        state.consume_outcome(consumed_at) == Ok::<RefreshTokenState, InvalidTransitionError>(
            (RefreshTokenState::Consumed { consumed_at }),
        ),
        !(state.consume_outcome(consumed_at).unwrap() is Valid),
        (state.consume_outcome(consumed_at).unwrap().consume_outcome(later) is Err),
{
}

} // verus!
