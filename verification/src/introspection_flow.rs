//! The introspection endpoint as a sequence of steps: each step takes what
//! the previous action fetched and says what to fetch next, or answers.
use vstd::prelude::*;
use crate::client::{Client, ClientError, ClientErrorCode};
use crate::introspection::{
    check_client, check_token_kind, compat_response, describes_compat_token,
    describes_oauth2_token, is_inactive, may_introspect, oauth2_response, IntrospectionBody,
    IntrospectionRequest, RouteError,
};
use crate::session::Session;
use crate::time::Timestamp;
use crate::tokens::{
    AccessToken, BrowserSession, CompatAccessToken, CompatRefreshToken, CompatSession,
    RefreshToken, TokenType, TokenTypeHint, User,
};

verus! {

/// A stored token found for the presented text.
#[derive(Debug)]
pub enum FoundToken {
    Access(AccessToken),
    Refresh(RefreshToken),
    CompatAccess(CompatAccessToken),
    CompatRefresh(CompatRefreshToken),
}

/// A session found for a token.
#[derive(Debug)]
pub enum FoundSession {
    OAuth2(Session),
    Compat(CompatSession),
}

/// The owner found for a session: a browser session for OAuth 2.0
/// sessions, a user for compat sessions.
#[derive(Debug)]
pub enum FoundOwner {
    Browser(BrowserSession),
    User(User),
}

/// Where the endpoint stands.
#[derive(Debug)]
pub enum IntrospectionStage {
    /// Waiting for the client found for the request's credentials.
    AwaitClient,
    /// Waiting for the outcome of verifying that client's credentials.
    AwaitCredentials,
    /// Waiting for the request form, and the kind of its token.
    AwaitForm,
    /// Waiting for the stored token of this kind with the presented text.
    AwaitToken { kind: TokenType },
    /// Waiting for the session of a token that is still valid.
    AwaitSession { token: FoundToken },
    /// Waiting for the owner of a session that is still valid.
    AwaitOwner { token: FoundToken, session: FoundSession },
    /// The endpoint has answered.
    Done,
}

/// What an action fetched.
#[derive(Debug)]
pub enum IntrospectionEvent {
    Client(Option<Client>),
    Credentials(Result<(), String>),
    /// The request form, when there is one, with the kind of its token
    /// (`None` when the token has none of the service's formats).
    Form(Option<(IntrospectionRequest, Option<TokenType>)>),
    Token(Option<FoundToken>),
    Session(Option<FoundSession>),
    Owner(Option<FoundOwner>),
    /// A storage lookup (of the client, a token, a session or an owner)
    /// failed, with the reason.
    Failed(String),
}

/// What the endpoint asks for next, or its answer.
#[derive(Debug)]
pub enum IntrospectionAction {
    /// Find the client named by the request's credentials.
    FindClient,
    /// Verify the credentials of this client (with its authentication
    /// method).
    VerifyCredentials(Client),
    /// Read the request form and classify its token.
    ReadForm,
    /// Find the stored token of this kind with this text.
    FindToken { kind: TokenType, token: String },
    /// Look up the OAuth 2.0 session with this identifier.
    LookupSession(u128),
    /// Look up the compat session with this identifier.
    LookupCompatSession(u128),
    /// Look up the browser session with this identifier.
    LookupBrowserSession(u128),
    /// Look up the user with this identifier.
    LookupUser(u128),
    /// Answer with this status and body.
    Reply(u16, IntrospectionBody),
}

/// A stage is consistent: a session awaiting its owner is of the kind its
/// token belongs to.
pub open spec fn stage_consistent(stage: IntrospectionStage) -> bool {
    match stage {
        IntrospectionStage::AwaitOwner { token, session } => (token is Access || token is Refresh)
            <==> session is OAuth2,
        _ => true,
    }
}

/// How far the exchange has gone: each step that does not end it moves to a
/// later stage, so an exchange answers after at most six events.
pub open spec fn stage_rank(stage: IntrospectionStage) -> nat {
    match stage {
        IntrospectionStage::AwaitClient => 0,
        IntrospectionStage::AwaitCredentials => 1,
        IntrospectionStage::AwaitForm => 2,
        IntrospectionStage::AwaitToken { .. } => 3,
        IntrospectionStage::AwaitSession { .. } => 4,
        IntrospectionStage::AwaitOwner { .. } => 5,
        IntrospectionStage::Done => 6,
    }
}

/// The event an action's result comes back as.
pub open spec fn answers(stage: IntrospectionStage, event: IntrospectionEvent) -> bool {
    if event is Failed {
        stage is AwaitClient || stage is AwaitToken || stage is AwaitSession || stage is AwaitOwner
    } else {
        match stage {
            IntrospectionStage::AwaitClient => event is Client,
            IntrospectionStage::AwaitCredentials => event is Credentials,
            IntrospectionStage::AwaitForm => event is Form,
            IntrospectionStage::AwaitToken { kind } => event matches IntrospectionEvent::Token(t) && (
            t matches Some(f) ==> match kind {
                TokenType::AccessToken => f is Access,
                TokenType::RefreshToken => f is Refresh,
                TokenType::CompatAccessToken => f is CompatAccess,
                TokenType::CompatRefreshToken => f is CompatRefresh,
            }),
            IntrospectionStage::AwaitSession { token } => event matches IntrospectionEvent::Session(s) && (
            s matches Some(f) ==> ((token is Access || token is Refresh) <==> f is OAuth2)),
            IntrospectionStage::AwaitOwner { session, .. } => event matches IntrospectionEvent::Owner(o) && (
            o matches Some(f) ==> (session is OAuth2 <==> f is Browser)),
            IntrospectionStage::Done => false,
        }
    }
}

/// The answer to an inactive token: status 200 and the inactive response.
pub open spec fn replies_inactive(a: IntrospectionAction) -> bool {
    a matches IntrospectionAction::Reply(status, IntrospectionBody::Introspection(r)) && status == 200
        && is_inactive(r)
}

/// An error answer with this status, code and description.
pub open spec fn replies_error(
    a: IntrospectionAction,
    status: u16,
    code: ClientErrorCode,
    description: Option<String>,
) -> bool {
    a matches IntrospectionAction::Reply(s, IntrospectionBody::Error(b)) && s == status && b.error
        == code && b.error_description == description
}

/// A stored token is still valid at `now`.
pub open spec fn token_valid(t: FoundToken, now: Timestamp) -> bool {
    match t {
        FoundToken::Access(a) => a.valid_at(now),
        FoundToken::Refresh(r) => r.valid(),
        FoundToken::CompatAccess(a) => a.valid_at(now),
        FoundToken::CompatRefresh(r) => r.valid(),
    }
}

/// A found session is still valid.
pub open spec fn session_valid(s: FoundSession) -> bool {
    match s {
        FoundSession::OAuth2(s) => s.state is Valid,
        FoundSession::Compat(s) => s.valid(),
    }
}

/// The action that looks up a token's session.
pub open spec fn session_lookup(t: FoundToken) -> IntrospectionAction {
    match t {
        FoundToken::Access(a) => IntrospectionAction::LookupSession(a.session_id),
        FoundToken::Refresh(r) => IntrospectionAction::LookupSession(r.session_id),
        FoundToken::CompatAccess(a) => IntrospectionAction::LookupCompatSession(a.session_id),
        FoundToken::CompatRefresh(r) => IntrospectionAction::LookupCompatSession(r.session_id),
    }
}

/// The action that looks up a session's owner.
pub open spec fn owner_lookup(s: FoundSession) -> IntrospectionAction {
    match s {
        FoundSession::OAuth2(s) => IntrospectionAction::LookupBrowserSession(s.user_session_id),
        FoundSession::Compat(s) => IntrospectionAction::LookupUser(s.user_id),
    }
}

/// The answer for an active token: status 200 and the response describing
/// the token, its session and its owner.
pub open spec fn replies_active(a: IntrospectionAction, t: FoundToken, s: FoundSession, o: FoundOwner) -> bool {
    a matches IntrospectionAction::Reply(status, IntrospectionBody::Introspection(r)) && status == 200
        && match (t, s, o) {
        (FoundToken::Access(t), FoundSession::OAuth2(s), FoundOwner::Browser(b)) => describes_oauth2_token(
            r,
            TokenTypeHint::AccessToken,
            s,
            b.user,
            Some(t.expires_at),
            t.created_at,
            t.id,
        ),
        (FoundToken::Refresh(t), FoundSession::OAuth2(s), FoundOwner::Browser(b)) => describes_oauth2_token(
            r,
            TokenTypeHint::RefreshToken,
            s,
            b.user,
            None,
            t.created_at,
            t.id,
        ),
        (FoundToken::CompatAccess(t), FoundSession::Compat(s), FoundOwner::User(u)) => describes_compat_token(
            r,
            TokenTypeHint::AccessToken,
            s,
            u,
            t.expires_at,
            t.created_at,
        ),
        (FoundToken::CompatRefresh(t), FoundSession::Compat(s), FoundOwner::User(u)) => describes_compat_token(
            r,
            TokenTypeHint::RefreshToken,
            s,
            u,
            None,
            t.created_at,
        ),
        _ => false,
    }
}

fn reply(e: RouteError) -> (a: IntrospectionAction)
    ensures
        e matches RouteError::Internal(m) ==> replies_error(a, 500, ClientErrorCode::ServerError, Some(m)),
        e is ClientNotFound ==> replies_error(a, 401, ClientErrorCode::InvalidClient, None),
        e matches RouteError::ClientCredentialsVerification(m) ==> replies_error(
            a,
            401,
            ClientErrorCode::InvalidClient,
            Some(m),
        ),
        e is UnknownToken ==> replies_inactive(a),
        e is NotAllowed ==> replies_error(a, 401, ClientErrorCode::AccessDenied, None),
        e is BadRequest ==> replies_error(a, 400, ClientErrorCode::InvalidRequest, None),
{
    let (status, body) = e.into_response();
    IntrospectionAction::Reply(status, body)
}

/// Ends the exchange with an internal error: the event does not answer the
/// last action.
fn out_of_step() -> (r: (IntrospectionStage, IntrospectionAction))
    ensures
        r.0 is Done,
        r.1 matches IntrospectionAction::Reply(s, IntrospectionBody::Error(b)) && s == 500 && b.error
            == ClientErrorCode::ServerError,
{
    (
        IntrospectionStage::Done,
        reply(RouteError::Internal(String::from_str("introspection event out of step"))),
    )
}

fn inactive_reply() -> (r: (IntrospectionStage, IntrospectionAction))
    ensures
        r.0 is Done,
        replies_inactive(r.1),
{
    (IntrospectionStage::Done, reply(RouteError::UnknownToken))
}

/// The first step: the endpoint asks for the client named by the request's
/// credentials.
pub fn start() -> (r: (IntrospectionStage, IntrospectionAction))
    ensures
        r.0 is AwaitClient,
        r.1 is FindClient,
{
    (IntrospectionStage::AwaitClient, IntrospectionAction::FindClient)
}

/// What `step` does with an event that answers the last action of a
/// consistent stage.
pub open spec fn step_outcome(
    stage: IntrospectionStage,
    event: IntrospectionEvent,
    now: Timestamp,
    r: (IntrospectionStage, IntrospectionAction),
) -> bool {
    match (stage, event) {
        (_, IntrospectionEvent::Failed(m)) => r.0 is Done && replies_error(
            r.1,
            500,
            ClientErrorCode::ServerError,
            Some(m),
        ),
        (IntrospectionStage::AwaitClient, IntrospectionEvent::Client(c)) => match c {
            None => r.0 is Done && replies_error(r.1, 401, ClientErrorCode::InvalidClient, None),
            Some(c) => if may_introspect(c) {
                r.0 is AwaitCredentials && r.1 == IntrospectionAction::VerifyCredentials(c)
            } else {
                r.0 is Done && replies_error(r.1, 401, ClientErrorCode::AccessDenied, None)
            },
        },
        (IntrospectionStage::AwaitCredentials, IntrospectionEvent::Credentials(v)) => match v {
            Ok(_) => r.0 is AwaitForm && r.1 is ReadForm,
            Err(m) => r.0 is Done && replies_error(r.1, 401, ClientErrorCode::InvalidClient, Some(m)),
        },
        (IntrospectionStage::AwaitForm, IntrospectionEvent::Form(f)) => match f {
            None => r.0 is Done && replies_error(r.1, 400, ClientErrorCode::InvalidRequest, None),
            Some((req, kind)) => match kind {
                Some(k) => if (req.token_type_hint matches Some(h) ==> k.matches_hint(h)) {
                    &&& r.0 == (IntrospectionStage::AwaitToken { kind: k })
                    &&& r.1 == (IntrospectionAction::FindToken { kind: k, token: req.token })
                } else {
                    r.0 is Done && replies_inactive(r.1)
                },
                None => r.0 is Done && replies_inactive(r.1),
            },
        },
        (IntrospectionStage::AwaitToken { .. }, IntrospectionEvent::Token(t)) => match t {
            Some(t) => if token_valid(t, now) {
                r.0 == (IntrospectionStage::AwaitSession { token: t }) && r.1 == session_lookup(t)
            } else {
                r.0 is Done && replies_inactive(r.1)
            },
            None => r.0 is Done && replies_inactive(r.1),
        },
        (IntrospectionStage::AwaitSession { token }, IntrospectionEvent::Session(s)) => match s {
            Some(s) => if session_valid(s) {
                &&& r.0 == (IntrospectionStage::AwaitOwner { token, session: s })
                &&& r.1 == owner_lookup(s)
            } else {
                r.0 is Done && replies_inactive(r.1)
            },
            None => r.0 is Done && replies_inactive(r.1),
        },
        (IntrospectionStage::AwaitOwner { token, session }, IntrospectionEvent::Owner(o)) => match o {
            Some(o) => r.0 is Done && replies_active(r.1, token, session, o),
            None => r.0 is Done && replies_inactive(r.1),
        },
        _ => false,
    }
}

/// Takes what the last action fetched and moves on: a missing client, a
/// public client, failed credentials and a missing form are refused; a
/// token of another kind than hinted, one that is missing or no longer
/// valid, one whose session is missing or finished, and one whose owner is
/// missing are reported inactive; otherwise the token is reported active.
/// A failed lookup, and an event that does not answer the last action, are
/// internal errors.
pub fn step(stage: IntrospectionStage, event: IntrospectionEvent, now: Timestamp) -> (r: (
    IntrospectionStage,
    IntrospectionAction,
))
    ensures
        stage_consistent(r.0),
        !(stage is Done) ==> stage_rank(r.0) > stage_rank(stage),
        r.1 is Reply <==> r.0 is Done,
        !(answers(stage, event) && stage_consistent(stage)) ==> r.0 is Done && (r.1 matches IntrospectionAction::Reply(s, _) && s == 500),
        answers(stage, event) && stage_consistent(stage) ==> step_outcome(stage, event, now, r),
{
    if let IntrospectionEvent::Failed(reason) = event {
        if matches!(
            stage,
            IntrospectionStage::AwaitClient | IntrospectionStage::AwaitToken { .. } | IntrospectionStage::AwaitSession { .. } | IntrospectionStage::AwaitOwner { .. }
        ) {
            return (IntrospectionStage::Done, reply(RouteError::Internal(reason)));
        }
        return out_of_step();
    }
    match (stage, event) {
        (IntrospectionStage::AwaitClient, IntrospectionEvent::Client(c)) => match check_client(c) {
            Ok(c) => (IntrospectionStage::AwaitCredentials, IntrospectionAction::VerifyCredentials(c)),
            Err(e) => (IntrospectionStage::Done, reply(e)),
        },
        (IntrospectionStage::AwaitCredentials, IntrospectionEvent::Credentials(v)) => match v {
            Ok(()) => (IntrospectionStage::AwaitForm, IntrospectionAction::ReadForm),
            Err(m) => (IntrospectionStage::Done, reply(RouteError::ClientCredentialsVerification(m))),
        },
        (IntrospectionStage::AwaitForm, IntrospectionEvent::Form(f)) => match f {
            None => (IntrospectionStage::Done, reply(RouteError::BadRequest)),
            Some((req, kind)) => match check_token_kind(kind, &req.token_type_hint) {
                Ok(k) => (
                    IntrospectionStage::AwaitToken { kind: k },
                    IntrospectionAction::FindToken { kind: k, token: req.token },
                ),
                Err(e) => (IntrospectionStage::Done, reply(e)),
            },
        },
        (IntrospectionStage::AwaitToken { kind }, IntrospectionEvent::Token(t)) => match t {
            None => inactive_reply(),
            Some(t) => {
                let (kind_matches, valid, lookup) = match &t {
                    FoundToken::Access(a) => (
                        matches!(kind, TokenType::AccessToken),
                        a.is_valid(now),
                        IntrospectionAction::LookupSession(a.session_id),
                    ),
                    FoundToken::Refresh(a) => (
                        matches!(kind, TokenType::RefreshToken),
                        a.is_valid(),
                        IntrospectionAction::LookupSession(a.session_id),
                    ),
                    FoundToken::CompatAccess(a) => (
                        matches!(kind, TokenType::CompatAccessToken),
                        a.is_valid(now),
                        IntrospectionAction::LookupCompatSession(a.session_id),
                    ),
                    FoundToken::CompatRefresh(a) => (
                        matches!(kind, TokenType::CompatRefreshToken),
                        a.is_valid(),
                        IntrospectionAction::LookupCompatSession(a.session_id),
                    ),
                };
                if !kind_matches {
                    out_of_step()
                } else if valid {
                    (IntrospectionStage::AwaitSession { token: t }, lookup)
                } else {
                    inactive_reply()
                }
            },
        },
        (IntrospectionStage::AwaitSession { token }, IntrospectionEvent::Session(s)) => match s {
            None => inactive_reply(),
            Some(s) => {
                let oauth2_token = matches!(token, FoundToken::Access(_) | FoundToken::Refresh(_));
                let (oauth2_session, valid, lookup) = match &s {
                    FoundSession::OAuth2(x) => (
                        true,
                        x.is_valid(),
                        IntrospectionAction::LookupBrowserSession(x.user_session_id),
                    ),
                    FoundSession::Compat(x) => (
                        false,
                        x.is_valid(),
                        IntrospectionAction::LookupUser(x.user_id),
                    ),
                };
                if oauth2_token != oauth2_session {
                    out_of_step()
                } else if valid {
                    (IntrospectionStage::AwaitOwner { token, session: s }, lookup)
                } else {
                    inactive_reply()
                }
            },
        },
        (IntrospectionStage::AwaitOwner { token, session }, IntrospectionEvent::Owner(o)) => {
            let response = match (token, session, o) {
                (FoundToken::Access(_), FoundSession::Compat(_), _)
                | (FoundToken::Refresh(_), FoundSession::Compat(_), _)
                | (FoundToken::CompatAccess(_), FoundSession::OAuth2(_), _)
                | (FoundToken::CompatRefresh(_), FoundSession::OAuth2(_), _) => return out_of_step(),
                (_, _, None) => return inactive_reply(),
                (FoundToken::Access(t), FoundSession::OAuth2(s), Some(FoundOwner::Browser(b))) => oauth2_response(
                    TokenTypeHint::AccessToken,
                    s,
                    b.user,
                    Some(t.expires_at),
                    t.created_at,
                    t.id,
                ),
                (FoundToken::Refresh(t), FoundSession::OAuth2(s), Some(FoundOwner::Browser(b))) => oauth2_response(
                    TokenTypeHint::RefreshToken,
                    s,
                    b.user,
                    None,
                    t.created_at,
                    t.id,
                ),
                (FoundToken::CompatAccess(t), FoundSession::Compat(s), Some(FoundOwner::User(u))) => compat_response(
                    TokenTypeHint::AccessToken,
                    s,
                    u,
                    t.expires_at,
                    t.created_at,
                ),
                (FoundToken::CompatRefresh(t), FoundSession::Compat(s), Some(FoundOwner::User(u))) => compat_response(
                    TokenTypeHint::RefreshToken,
                    s,
                    u,
                    None,
                    t.created_at,
                ),
                _ => return out_of_step(),
            };
            (IntrospectionStage::Done, IntrospectionAction::Reply(200, IntrospectionBody::Introspection(response)))
        },
        _ => out_of_step(),
    }
}

} // verus!
