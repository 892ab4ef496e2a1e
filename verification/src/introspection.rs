//! Token introspection (RFC 7662): which clients may introspect, which
//! tokens are reported active, and what is reported about them.
use vstd::prelude::*;
use crate::client::{Client, ClientAuthMethod, ClientError, ClientErrorCode};
use crate::ids::{id_text, write_id};
use crate::scope::{is_scope_token, Scope, ScopeToken};
use crate::session::Session;
use crate::time::Timestamp;
use crate::tokens::{
    device_scope_prefix, AccessToken, BrowserSession, CompatAccessToken, CompatRefreshToken,
    CompatSession, RefreshToken, TokenType, TokenTypeHint, User,
};

verus! {

/// Why an introspection request was not answered with an active token.
#[derive(Debug)]
pub enum RouteError {
    /// A storage or other internal failure, with its message.
    Internal(String),
    ClientNotFound,
    NotAllowed,
    UnknownToken,
    BadRequest,
    /// The client's credentials did not verify, with the reason.
    ClientCredentialsVerification(String),
}

/// An introspection request (RFC 7662, section 2.1).
#[derive(Debug)]
pub struct IntrospectionRequest {
    pub token: String,
    pub token_type_hint: Option<TokenTypeHint>,
}

/// An introspection response (RFC 7662, section 2.2).
#[derive(Debug)]
pub struct IntrospectionResponse {
    pub active: bool,
    pub scope: Option<Scope>,
    pub client_id: Option<String>,
    pub username: Option<String>,
    pub token_type: Option<TokenTypeHint>,
    pub exp: Option<Timestamp>,
    pub iat: Option<Timestamp>,
    pub nbf: Option<Timestamp>,
    pub sub: Option<String>,
    pub aud: Option<String>,
    pub iss: Option<String>,
    pub jti: Option<String>,
}

/// The body of a reply from the introspection endpoint.
#[derive(Debug)]
pub enum IntrospectionBody {
    Error(ClientError),
    Introspection(IntrospectionResponse),
}

/// The text of the scope token that grants access to the Matrix
/// client-server API.
pub open spec fn api_scope_text() -> Seq<char> {
    "urn:matrix:org.matrix.msc2967.client:api:*"@
}

/// The client identifier reported for compat tokens.
pub open spec fn legacy_client_id() -> Seq<char> {
    "legacy"@
}

/// The response for a token that is not active: `active` is false and no
/// other member is present.
pub open spec fn is_inactive(r: IntrospectionResponse) -> bool {
    &&& !r.active
    &&& r.scope is None
    &&& r.client_id is None
    &&& r.username is None
    &&& r.token_type is None
    &&& r.exp is None
    &&& r.iat is None
    &&& r.nbf is None
    &&& r.sub is None
    &&& r.aud is None
    &&& r.iss is None
    &&& r.jti is None
}

/// The response for a token that is not active.
pub fn inactive() -> (r: IntrospectionResponse)
    ensures
        is_inactive(r),
{
    IntrospectionResponse {
        active: false,
        scope: None,
        client_id: None,
        username: None,
        token_type: None,
        exp: None,
        iat: None,
        nbf: None,
        sub: None,
        aud: None,
        iss: None,
        jti: None,
    }
}

/// The scope token that grants access to the Matrix client-server API.
pub fn api_scope_token() -> (t: ScopeToken)
    ensures
        t@ == api_scope_text(),
{
    let s = "urn:matrix:org.matrix.msc2967.client:api:*";
    proof {
        reveal_strlit("urn:matrix:org.matrix.msc2967.client:api:*");
        assert(is_scope_token(s@));
    }
    match ScopeToken::parse(s) {
        Ok(t) => t,
        Err(_) => vstd::pervasive::unreached(),
    }
}

impl RouteError {
    /// The HTTP status and body that answer this error. An unknown token is
    /// answered as an inactive token, with status 200.
    pub fn into_response(self) -> (r: (u16, IntrospectionBody))
        ensures
            self matches RouteError::Internal(e) ==> r.0 == 500 && (r.1 matches IntrospectionBody::Error(b)
                && b.error == ClientErrorCode::ServerError && b.error_description == Some(e)),
            self is ClientNotFound ==> r.0 == 401 && (r.1 matches IntrospectionBody::Error(b)
                && b.error == ClientErrorCode::InvalidClient && b.error_description is None),
            self matches RouteError::ClientCredentialsVerification(e) ==> r.0 == 401 && (r.1 matches IntrospectionBody::Error(b)
                && b.error == ClientErrorCode::InvalidClient && b.error_description == Some(e)),
            self is UnknownToken ==> r.0 == 200 && (r.1 matches IntrospectionBody::Introspection(b)
                && is_inactive(b)),
            self is NotAllowed ==> r.0 == 401 && (r.1 matches IntrospectionBody::Error(b)
                && b.error == ClientErrorCode::AccessDenied && b.error_description is None),
            self is BadRequest ==> r.0 == 400 && (r.1 matches IntrospectionBody::Error(b)
                && b.error == ClientErrorCode::InvalidRequest && b.error_description is None),
    {
        match self {
            RouteError::Internal(e) => (
                500,
                IntrospectionBody::Error(ClientError::with_description(ClientErrorCode::ServerError, e)),
            ),
            RouteError::ClientNotFound => (
                401,
                IntrospectionBody::Error(ClientError::from_code(ClientErrorCode::InvalidClient)),
            ),
            RouteError::ClientCredentialsVerification(e) => (
                401,
                IntrospectionBody::Error(ClientError::with_description(ClientErrorCode::InvalidClient, e)),
            ),
            RouteError::UnknownToken => (200, IntrospectionBody::Introspection(inactive())),
            RouteError::NotAllowed => (
                401,
                IntrospectionBody::Error(ClientError::from_code(ClientErrorCode::AccessDenied)),
            ),
            RouteError::BadRequest => (
                400,
                IntrospectionBody::Error(ClientError::from_code(ClientErrorCode::InvalidRequest)),
            ),
        }
    }
}

/// A client may introspect when it authenticates at the token endpoint with
/// some method other than `none`.
pub open spec fn may_introspect(c: Client) -> bool {
    c.token_endpoint_auth_method matches Some(m) && !(m is NoAuthentication)
}

/// Checks the client that asks to introspect: it must exist and must not be
/// a public client.
pub fn check_client(client: Option<Client>) -> (r: Result<Client, RouteError>)
    ensures
        client is None ==> (r matches Err(RouteError::ClientNotFound)),
        client matches Some(c) ==> {
            &&& may_introspect(c) ==> r == Ok::<Client, RouteError>(c)
            &&& !may_introspect(c) ==> (r matches Err(RouteError::NotAllowed))
        },
{
    match client {
        None => Err(RouteError::ClientNotFound),
        Some(c) => match &c.token_endpoint_auth_method {
            None | Some(ClientAuthMethod::NoAuthentication) => Err(RouteError::NotAllowed),
            Some(_) => Ok(c),
        },
    }
}

/// A request without a form is a bad request.
pub fn require_form(form: Option<IntrospectionRequest>) -> (r: Result<IntrospectionRequest, RouteError>)
    ensures
        form is None ==> (r matches Err(RouteError::BadRequest)),
        form matches Some(f) ==> r == Ok::<IntrospectionRequest, RouteError>(f),
{
    match form {
        Some(f) => Ok(f),
        None => Err(RouteError::BadRequest),
    }
}

/// Checks the kind of the presented token (`None` when the token is not
/// in any of the service's formats) against the request's hint: a
/// malformed token, or one of another kind than hinted, is unknown.
pub fn check_token_kind(kind: Option<TokenType>, hint: &Option<TokenTypeHint>) -> (r: Result<TokenType, RouteError>)
    ensures
        r is Ok <==> (kind matches Some(k) && (*hint matches Some(h) ==> k.matches_hint(h))),
        r matches Ok(k) ==> kind == Some(k),
        r matches Err(e) ==> e is UnknownToken,
{
    match kind {
        None => Err(RouteError::UnknownToken),
        Some(k) => match hint {
            Some(h) => {
                if k.is_hinted_by(h) {
                    Ok(k)
                } else {
                    Err(RouteError::UnknownToken)
                }
            },
            None => Ok(k),
        },
    }
}

/// The response describes an active OAuth 2.0 token of `session`, owned by
/// `owner`, of kind `kind`, with the given times and JWT ID.
pub open spec fn describes_oauth2_token(
    r: IntrospectionResponse,
    kind: TokenTypeHint,
    session: Session,
    owner: User,
    exp: Option<Timestamp>,
    created_at: Timestamp,
    id: u128,
) -> bool {
    &&& r.active
    &&& (r.scope matches Some(sc) && sc@ == session.scope@)
    &&& (r.client_id matches Some(c) && c@ == id_text(session.client_id))
    &&& (r.username matches Some(u) && u@ == owner.username@)
    &&& r.token_type == Some(kind)
    &&& r.exp == exp
    &&& r.iat == Some(created_at)
    &&& r.nbf == Some(created_at)
    &&& (r.sub matches Some(s) && s@ == owner.sub@)
    &&& r.aud is None
    &&& r.iss is None
    &&& (r.jti matches Some(j) && j@ == id_text(id))
}

/// The response describes an active compat token of `session`, owned by
/// `user`: its scope is the API scope and the session's device.
pub open spec fn describes_compat_token(
    r: IntrospectionResponse,
    kind: TokenTypeHint,
    session: CompatSession,
    user: User,
    exp: Option<Timestamp>,
    created_at: Timestamp,
) -> bool {
    &&& r.active
    &&& (r.scope matches Some(sc) && sc@.to_set() == set![
        api_scope_text(),
        device_scope_prefix() + session.device@,
    ])
    &&& (r.client_id matches Some(c) && c@ == legacy_client_id())
    &&& (r.username matches Some(u) && u@ == user.username@)
    &&& r.token_type == Some(kind)
    &&& r.exp == exp
    &&& r.iat == Some(created_at)
    &&& r.nbf == Some(created_at)
    &&& (r.sub matches Some(s) && s@ == user.sub@)
    &&& r.aud is None
    &&& r.iss is None
    &&& r.jti is None
}

pub(crate) fn oauth2_response(
    kind: TokenTypeHint,
    session: Session,
    owner: User,
    exp: Option<Timestamp>,
    created_at: Timestamp,
    id: u128,
) -> (r: IntrospectionResponse)
    ensures
        describes_oauth2_token(r, kind, session, owner, exp, created_at, id),
{
    let client_id = write_id(session.client_id);
    let jti = write_id(id);
    IntrospectionResponse {
        active: true,
        scope: Some(session.scope),
        client_id: Some(client_id),
        username: Some(owner.username),
        token_type: Some(kind),
        exp,
        iat: Some(created_at),
        nbf: Some(created_at),
        sub: Some(owner.sub),
        aud: None,
        iss: None,
        jti: Some(jti),
    }
}

pub(crate) fn compat_response(
    kind: TokenTypeHint,
    session: CompatSession,
    user: User,
    exp: Option<Timestamp>,
    created_at: Timestamp,
) -> (r: IntrospectionResponse)
    ensures
        describes_compat_token(r, kind, session, user, exp, created_at),
{
    let device_scope = session.device.to_scope_token();
    let api = api_scope_token();
    let ghost a = api@;
    let ghost d = device_scope@;
    let tokens = vec![api, device_scope];
    assert(tokens@.map_values(|t: ScopeToken| t@) =~= seq![a, d]);
    let scope = Scope::from_tokens(tokens);
    assert(seq![a, d].to_set() =~= set![a, d]) by {
        assert(seq![a, d][0] == a);
        assert(seq![a, d][1] == d);
    }
    IntrospectionResponse {
        active: true,
        scope: Some(scope),
        client_id: Some(String::from_str("legacy")),
        username: Some(user.username),
        token_type: Some(kind),
        exp,
        iat: Some(created_at),
        nbf: Some(created_at),
        sub: Some(user.sub),
        aud: None,
        iss: None,
        jti: None,
    }
}

/// Introspects an OAuth 2.0 access token. `token` is the stored token with
/// the presented text, `session` the session it names and `owner` the
/// browser session that session names, each `None` when not found (and
/// not consulted when an earlier one is refused). The token is active only
/// if it is valid at `now`, its session is valid and the browser session
/// exists.
pub fn introspect_access_token(
    token: Option<AccessToken>,
    session: Option<Session>,
    owner: Option<BrowserSession>,
    now: Timestamp,
) -> (r: Result<IntrospectionResponse, RouteError>)
    ensures
        r is Ok <==> {
            &&& token matches Some(t) && t.valid_at(now)
            &&& session matches Some(s) && s.state is Valid
            &&& owner is Some
        },
        r matches Err(e) ==> e is UnknownToken,
        r matches Ok(resp) ==> describes_oauth2_token(
            resp,
            TokenTypeHint::AccessToken,
            session.unwrap(),
            owner.unwrap().user,
            Some(token.unwrap().expires_at),
            token.unwrap().created_at,
            token.unwrap().id,
        ),
{
    let t = match token {
        Some(t) => {
            if !t.is_valid(now) {
                return Err(RouteError::UnknownToken);
            }
            t
        },
        None => return Err(RouteError::UnknownToken),
    };
    let s = match session {
        Some(s) => {
            if !s.is_valid() {
                return Err(RouteError::UnknownToken);
            }
            s
        },
        None => return Err(RouteError::UnknownToken),
    };
    let b = match owner {
        Some(b) => b,
        None => return Err(RouteError::UnknownToken),
    };
    Ok(
        oauth2_response(
            TokenTypeHint::AccessToken,
            s,
            b.user,
            Some(t.expires_at),
            t.created_at,
            t.id,
        ),
    )
}

/// Introspects an OAuth 2.0 refresh token, as for access tokens: active only
/// if the token is not consumed, its session is valid and the browser
/// session exists. No expiry is reported.
pub fn introspect_refresh_token(
    token: Option<RefreshToken>,
    session: Option<Session>,
    owner: Option<BrowserSession>,
) -> (r: Result<IntrospectionResponse, RouteError>)
    ensures
        r is Ok <==> {
            &&& token matches Some(t) && t.valid()
            &&& session matches Some(s) && s.state is Valid
            &&& owner is Some
        },
        r matches Err(e) ==> e is UnknownToken,
        r matches Ok(resp) ==> describes_oauth2_token(
            resp,
            TokenTypeHint::RefreshToken,
            session.unwrap(),
            owner.unwrap().user,
            None,
            token.unwrap().created_at,
            token.unwrap().id,
        ),
{
    let t = match token {
        Some(t) => {
            if !t.is_valid() {
                return Err(RouteError::UnknownToken);
            }
            t
        },
        None => return Err(RouteError::UnknownToken),
    };
    let s = match session {
        Some(s) => {
            if !s.is_valid() {
                return Err(RouteError::UnknownToken);
            }
            s
        },
        None => return Err(RouteError::UnknownToken),
    };
    let b = match owner {
        Some(b) => b,
        None => return Err(RouteError::UnknownToken),
    };
    Ok(oauth2_response(TokenTypeHint::RefreshToken, s, b.user, None, t.created_at, t.id))
}

/// Introspects a compat access token: active only if the token is valid at
/// `now`, its compat session is valid and the session's user exists.
pub fn introspect_compat_access_token(
    token: Option<CompatAccessToken>,
    session: Option<CompatSession>,
    user: Option<User>,
    now: Timestamp,
) -> (r: Result<IntrospectionResponse, RouteError>)
    ensures
        r is Ok <==> {
            &&& token matches Some(t) && t.valid_at(now)
            &&& session matches Some(s) && s.valid()
            &&& user is Some
        },
        r matches Err(e) ==> e is UnknownToken,
        r matches Ok(resp) ==> describes_compat_token(
            resp,
            TokenTypeHint::AccessToken,
            session.unwrap(),
            user.unwrap(),
            token.unwrap().expires_at,
            token.unwrap().created_at,
        ),
{
    let t = match token {
        Some(t) => {
            if !t.is_valid(now) {
                return Err(RouteError::UnknownToken);
            }
            t
        },
        None => return Err(RouteError::UnknownToken),
    };
    let s = match session {
        Some(s) => {
            if !s.is_valid() {
                return Err(RouteError::UnknownToken);
            }
            s
        },
        None => return Err(RouteError::UnknownToken),
    };
    let u = match user {
        Some(u) => u,
        None => return Err(RouteError::UnknownToken),
    };
    Ok(compat_response(TokenTypeHint::AccessToken, s, u, t.expires_at, t.created_at))
}

/// Introspects a compat refresh token: active only if the token is not
/// consumed, its compat session is valid and the session's user exists.
/// No expiry is reported.
pub fn introspect_compat_refresh_token(
    token: Option<CompatRefreshToken>,
    session: Option<CompatSession>,
    user: Option<User>,
) -> (r: Result<IntrospectionResponse, RouteError>)
    ensures
        r is Ok <==> {
            &&& token matches Some(t) && t.valid()
            &&& session matches Some(s) && s.valid()
            &&& user is Some
        },
        r matches Err(e) ==> e is UnknownToken,
        r matches Ok(resp) ==> describes_compat_token(
            resp,
            TokenTypeHint::RefreshToken,
            session.unwrap(),
            user.unwrap(),
            None,
            token.unwrap().created_at,
        ),
{
    let t = match token {
        Some(t) => {
            if !t.is_valid() {
                return Err(RouteError::UnknownToken);
            }
            t
        },
        None => return Err(RouteError::UnknownToken),
    };
    let s = match session {
        Some(s) => {
            if !s.is_valid() {
                return Err(RouteError::UnknownToken);
            }
            s
        },
        None => return Err(RouteError::UnknownToken),
    };
    let u = match user {
        Some(u) => u,
        None => return Err(RouteError::UnknownToken),
    };
    Ok(compat_response(TokenTypeHint::RefreshToken, s, u, None, t.created_at))
}

} // verus!
