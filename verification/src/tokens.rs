//! The records that tokens and their owners are stored as, with the
//! validity rules the endpoints apply to them.
use vstd::prelude::*;
use crate::ids::{id_text, write_id};
use crate::scope::{is_nqchar, is_scope_token, ScopeToken};
use crate::session::InvalidTransitionError;
use crate::text::{compare_text, TextOrder};
use crate::time::Timestamp;

verus! {

/// The state of an OAuth 2.0 access token.
#[derive(Clone, Copy, Debug, PartialEq, Eq, Structural)]
pub enum AccessTokenState {
    Valid,
    Revoked { revoked_at: Timestamp },
}

/// The state of a refresh token.
#[derive(Clone, Copy, Debug, PartialEq, Eq, Structural)]
pub enum RefreshTokenState {
    Valid,
    Consumed { consumed_at: Timestamp },
}

/// An OAuth 2.0 access token.
#[derive(Debug)]
pub struct AccessToken {
    pub id: u128,
    pub state: AccessTokenState,
    pub session_id: u128,
    pub access_token: String,
    pub created_at: Timestamp,
    pub expires_at: Timestamp,
}

/// An OAuth 2.0 refresh token.
#[derive(Debug)]
pub struct RefreshToken {
    pub id: u128,
    pub state: RefreshTokenState,
    pub session_id: u128,
    pub refresh_token: String,
    pub access_token_id: Option<u128>,
    pub created_at: Timestamp,
}

/// A device of a Matrix client-server API ("compat") session; its
/// identifier is made of scope-token characters, so that the device can be
/// named in a scope.
#[derive(Debug)]
pub struct Device {
    id: String,
}

/// A device identifier with characters that a scope token cannot hold.
#[derive(Clone, Copy, Debug, PartialEq, Eq, Structural)]
pub struct InvalidDeviceId;

/// The prefix of the scope token that names a device.
pub open spec fn device_scope_prefix() -> Seq<char> {
    "urn:matrix:org.matrix.msc2967.client:device:"@
}

impl View for Device {
    type V = Seq<char>;

    closed spec fn view(&self) -> Seq<char> {
        self.id@
    }
}

impl Device {
    #[verifier::type_invariant]
    closed spec fn inv(self) -> bool {
        is_scope_token(self.id@)
    }

    /// A device named `id`; refused unless `id` is a non-empty string of
    /// scope-token characters.
    pub fn new(id: &str) -> (r: Result<Device, InvalidDeviceId>)
        ensures
            r is Ok <==> is_scope_token(id@),
            r matches Ok(d) ==> d@ == id@,
    {
        match ScopeToken::parse(id) {
            Ok(t) => Ok(Device { id: String::from_str(t.as_str()) }),
            Err(_) => Err(InvalidDeviceId),
        }
    }

    /// The device identifier.
    pub fn as_str(&self) -> (r: &str)
        ensures
            r@ == self@,
    {
        self.id.as_str()
    }

    /// The scope token that names this device:
    /// `urn:matrix:org.matrix.msc2967.client:device:` followed by its
    /// identifier.
    pub fn to_scope_token(&self) -> (t: ScopeToken)
        ensures
            t@ == device_scope_prefix() + self@,
    {
        proof {
            use_type_invariant(self);
        }
        let prefix = "urn:matrix:org.matrix.msc2967.client:device:";
        proof {
            reveal_strlit("urn:matrix:org.matrix.msc2967.client:device:");
        }
        let mut text = String::from_str(prefix);
        text.append(self.id.as_str());
        assert(is_scope_token(text@)) by {
            assert forall|i: int| 0 <= i < text@.len() implies is_nqchar(#[trigger] text@[i]) by {
                if i >= prefix@.len() {
                    assert(text@[i] == self.id@[i - prefix@.len()]);
                }
            }
        }
        match ScopeToken::parse(text.as_str()) {
            Ok(t) => t,
            Err(_) => vstd::pervasive::unreached(),
        }
    }
}

/// The state of a compat session.
#[derive(Clone, Copy, Debug, PartialEq, Eq, Structural)]
pub enum CompatSessionState {
    Valid,
    Finished { finished_at: Timestamp },
}

/// A session opened through the Matrix client-server login API.
#[derive(Debug)]
pub struct CompatSession {
    pub id: u128,
    pub state: CompatSessionState,
    pub user_id: u128,
    pub device: Device,
    pub created_at: Timestamp,
}

/// An access token of a compat session; it may never expire.
#[derive(Debug)]
pub struct CompatAccessToken {
    pub id: u128,
    pub state: AccessTokenState,
    pub session_id: u128,
    pub token: String,
    pub created_at: Timestamp,
    pub expires_at: Option<Timestamp>,
}

/// A refresh token of a compat session.
#[derive(Debug)]
pub struct CompatRefreshToken {
    pub id: u128,
    pub state: RefreshTokenState,
    pub session_id: u128,
    pub token: String,
    pub access_token_id: u128,
    pub created_at: Timestamp,
}

/// A user account.
#[derive(Debug)]
pub struct User {
    pub id: u128,
    pub username: String,
    pub sub: String,
}

/// A browser session: a user logged in to the service itself.
#[derive(Debug)]
pub struct BrowserSession {
    pub id: u128,
    pub user: User,
    pub created_at: Timestamp,
    pub finished_at: Option<Timestamp>,
}

impl AccessTokenState {
    /// What revoking this state at `revoked_at` yields.
    pub open spec fn revoke_outcome(self, revoked_at: Timestamp) -> Result<AccessTokenState, InvalidTransitionError> {
        match self {
            AccessTokenState::Valid => Ok(AccessTokenState::Revoked { revoked_at }),
            AccessTokenState::Revoked { .. } => Err(InvalidTransitionError),
        }
    }

    /// Whether the token has not been revoked.
    pub fn is_valid(&self) -> (r: bool)
        ensures
            r == (*self is Valid),
    {
        matches!(self, AccessTokenState::Valid)
    }

    /// Revokes a valid token; a revoked token cannot be revoked again.
    pub fn revoke(self, revoked_at: Timestamp) -> (r: Result<AccessTokenState, InvalidTransitionError>)
        ensures
            r == self.revoke_outcome(revoked_at),
    {
        match self {
            AccessTokenState::Valid => Ok(AccessTokenState::Revoked { revoked_at }),
            AccessTokenState::Revoked { .. } => Err(InvalidTransitionError),
        }
    }
}

impl RefreshTokenState {
    /// What consuming this state at `consumed_at` yields.
    pub open spec fn consume_outcome(self, consumed_at: Timestamp) -> Result<RefreshTokenState, InvalidTransitionError> {
        match self {
            RefreshTokenState::Valid => Ok(RefreshTokenState::Consumed { consumed_at }),
            RefreshTokenState::Consumed { .. } => Err(InvalidTransitionError),
        }
    }

    /// Whether the token has not been consumed.
    pub fn is_valid(&self) -> (r: bool)
        ensures
            r == (*self is Valid),
    {
        matches!(self, RefreshTokenState::Valid)
    }

    /// Consumes a valid token; a consumed token cannot be consumed again.
    pub fn consume(self, consumed_at: Timestamp) -> (r: Result<RefreshTokenState, InvalidTransitionError>)
        ensures
            r == self.consume_outcome(consumed_at),
    {
        match self {
            RefreshTokenState::Valid => Ok(RefreshTokenState::Consumed { consumed_at }),
            RefreshTokenState::Consumed { .. } => Err(InvalidTransitionError),
        }
    }
}

impl AccessToken {
    /// A token is valid at `now` if it was not revoked and has not expired.
    pub open spec fn valid_at(&self, now: Timestamp) -> bool {
        self.state is Valid && now.instant() < self.expires_at.instant()
    }

    /// Whether the token is valid at `now`.
    pub fn is_valid(&self, now: Timestamp) -> (r: bool)
        ensures
            r == self.valid_at(now),
    {
        self.state.is_valid() && now.is_before(self.expires_at)
    }

    /// The token's JWT ID: its identifier's text.
    pub fn jti(&self) -> (r: String)
        ensures
            r@ == id_text(self.id),
    {
        write_id(self.id)
    }
}

impl RefreshToken {
    /// A refresh token is valid until it is consumed.
    pub open spec fn valid(&self) -> bool {
        self.state is Valid
    }

    /// Whether the token is still valid.
    pub fn is_valid(&self) -> (r: bool)
        ensures
            r == self.valid(),
    {
        self.state.is_valid()
    }

    /// The token's JWT ID: its identifier's text.
    pub fn jti(&self) -> (r: String)
        ensures
            r@ == id_text(self.id),
    {
        write_id(self.id)
    }
}

impl CompatSessionState {
    /// Whether the session is still valid.
    pub fn is_valid(&self) -> (r: bool)
        ensures
            r == (*self is Valid),
    {
        matches!(self, CompatSessionState::Valid)
    }
}

impl CompatSession {
    /// A compat session is valid until it is finished.
    pub open spec fn valid(&self) -> bool {
        self.state is Valid
    }

    /// Whether the session is still valid.
    pub fn is_valid(&self) -> (r: bool)
        ensures
            r == self.valid(),
    {
        self.state.is_valid()
    }
}

impl CompatAccessToken {
    /// A compat access token is valid at `now` if it was not revoked and,
    /// when it has an expiry, that expiry lies after `now`.
    pub open spec fn valid_at(&self, now: Timestamp) -> bool {
        &&& self.state is Valid
        &&& (self.expires_at matches Some(e) ==> now.instant() < e.instant())
    }

    /// Whether the token is valid at `now`.
    pub fn is_valid(&self, now: Timestamp) -> (r: bool)
        ensures
            r == self.valid_at(now),
    {
        self.state.is_valid() && match self.expires_at {
            Some(e) => now.is_before(e),
            None => true,
        }
    }
}

impl CompatRefreshToken {
    /// A compat refresh token is valid until it is consumed.
    pub open spec fn valid(&self) -> bool {
        self.state is Valid
    }

    /// Whether the token is still valid.
    pub fn is_valid(&self) -> (r: bool)
        ensures
            r == self.valid(),
    {
        self.state.is_valid()
    }
}

/// The kinds of token the service issues.
#[derive(Clone, Copy, Debug, PartialEq, Eq, Structural)]
pub enum TokenType {
    AccessToken,
    RefreshToken,
    CompatAccessToken,
    CompatRefreshToken,
}

/// A `token_type_hint` value (RFC 7009, section 2.1, and the IANA OAuth
/// Token Type Hints registry).
#[derive(Debug, PartialEq, Eq)]
pub enum TokenTypeHint {
    AccessToken,
    RefreshToken,
    Pct,
    Unknown(String),
}

impl TokenType {
    /// A token kind matches a hint when both name an access token or both
    /// name a refresh token; compat tokens match the hint of their kind.
    pub open spec fn matches_hint(self, hint: TokenTypeHint) -> bool {
        match hint {
            TokenTypeHint::AccessToken => self is AccessToken || self is CompatAccessToken,
            TokenTypeHint::RefreshToken => self is RefreshToken || self is CompatRefreshToken,
            _ => false,
        }
    }

    /// Whether this kind of token matches `hint`.
    pub fn is_hinted_by(self, hint: &TokenTypeHint) -> (r: bool)
        ensures
            r == self.matches_hint(*hint),
    {
        match hint {
            TokenTypeHint::AccessToken => matches!(self, TokenType::AccessToken | TokenType::CompatAccessToken),
            TokenTypeHint::RefreshToken => matches!(self, TokenType::RefreshToken | TokenType::CompatRefreshToken),
            _ => false,
        }
    }
}

impl User {
    /// A copy of the user.
    pub fn duplicate(&self) -> (r: User)
        ensures
            r == *self,
    {
        User { id: self.id, username: self.username.clone(), sub: self.sub.clone() }
    }
}

impl TokenTypeHint {
    /// Reads a `token_type_hint` value.
    pub fn parse(s: &str) -> (r: TokenTypeHint)
        ensures
            s@ == "access_token"@ <==> r is AccessToken,
            s@ == "refresh_token"@ <==> r is RefreshToken,
            s@ == "pct"@ <==> r is Pct,
            r matches TokenTypeHint::Unknown(u) ==> u@ == s@,
    {
        proof {
            reveal_strlit("access_token");
            reveal_strlit("refresh_token");
            reveal_strlit("pct");
        }
        if let TextOrder::Same = compare_text(s, "access_token") {
            TokenTypeHint::AccessToken
        } else if let TextOrder::Same = compare_text(s, "refresh_token") {
            TokenTypeHint::RefreshToken
        } else if let TextOrder::Same = compare_text(s, "pct") {
            TokenTypeHint::Pct
        } else {
            TokenTypeHint::Unknown(String::from_str(s))
        }
    }
}

/// A revoked access token stays invalid: it is not valid at any time, and
/// it cannot be revoked again.
pub proof fn law_revoked_access_token_never_valid(t: AccessToken, revoked_at: Timestamp, now: Timestamp)
    requires
        t.state == (AccessTokenState::Revoked { revoked_at }),
    ensures
        !t.valid_at(now),
        (t.state.revoke_outcome(now) is Err),
{
}

} // verus!
