//! OAuth 2.0 clients and the error replies the endpoints send them.
use vstd::prelude::*;

verus! {

/// Token endpoint authentication methods (IANA OAuth Token Endpoint
/// Authentication Methods registry); `NoAuthentication` is the registry's
/// `none`, used by public clients.
#[derive(Debug, PartialEq, Eq)]
pub enum ClientAuthMethod {
    NoAuthentication,
    ClientSecretPost,
    ClientSecretBasic,
    ClientSecretJwt,
    PrivateKeyJwt,
    Unknown(String),
}

/// A registered OAuth 2.0 client.
#[derive(Debug)]
pub struct Client {
    pub id: u128,
    pub client_id: String,
    pub client_name: Option<String>,
    pub client_uri: Option<String>,
    pub tos_uri: Option<String>,
    pub policy_uri: Option<String>,
    pub redirect_uris: Vec<String>,
    pub token_endpoint_auth_method: Option<ClientAuthMethod>,
}

/// OAuth 2.0 error codes (RFC 6749, section 5.2; RFC 6749, section 4.1.2.1).
#[derive(Clone, Copy, Debug, PartialEq, Eq, Structural)]
pub enum ClientErrorCode {
    InvalidRequest,
    InvalidClient,
    InvalidGrant,
    UnauthorizedClient,
    UnsupportedGrantType,
    AccessDenied,
    ServerError,
}

/// The body of an OAuth 2.0 error reply.
#[derive(Debug)]
pub struct ClientError {
    pub error: ClientErrorCode,
    pub error_description: Option<String>,
}

impl ClientErrorCode {
    /// The error code as sent on the wire.
    pub open spec fn text(self) -> Seq<char> {
        match self {
            ClientErrorCode::InvalidRequest => "invalid_request"@,
            ClientErrorCode::InvalidClient => "invalid_client"@,
            ClientErrorCode::InvalidGrant => "invalid_grant"@,
            ClientErrorCode::UnauthorizedClient => "unauthorized_client"@,
            ClientErrorCode::UnsupportedGrantType => "unsupported_grant_type"@,
            ClientErrorCode::AccessDenied => "access_denied"@,
            ClientErrorCode::ServerError => "server_error"@,
        }
    }

    /// The error code as sent on the wire.
    pub fn as_str(self) -> (r: &'static str)
        ensures
            r@ == self.text(),
    {
        match self {
            ClientErrorCode::InvalidRequest => "invalid_request",
            ClientErrorCode::InvalidClient => "invalid_client",
            ClientErrorCode::InvalidGrant => "invalid_grant",
            ClientErrorCode::UnauthorizedClient => "unauthorized_client",
            ClientErrorCode::UnsupportedGrantType => "unsupported_grant_type",
            ClientErrorCode::AccessDenied => "access_denied",
            ClientErrorCode::ServerError => "server_error",
        }
    }
}

impl ClientError {
    /// An error reply without a description.
    pub fn from_code(error: ClientErrorCode) -> (r: ClientError)
        ensures
            r.error == error,
            r.error_description is None,
    {
        ClientError { error, error_description: None }
    }

    /// An error reply with a description.
    pub fn with_description(error: ClientErrorCode, description: String) -> (r: ClientError)
        ensures
            r.error == error,
            r.error_description == Some(description),
    {
        ClientError { error, error_description: Some(description) }
    }
}

impl ClientAuthMethod {
    /// A copy of the method.
    pub fn duplicate(&self) -> (r: ClientAuthMethod)
        ensures
            r == *self,
    {
        match self {
            ClientAuthMethod::NoAuthentication => ClientAuthMethod::NoAuthentication,
            ClientAuthMethod::ClientSecretPost => ClientAuthMethod::ClientSecretPost,
            ClientAuthMethod::ClientSecretBasic => ClientAuthMethod::ClientSecretBasic,
            ClientAuthMethod::ClientSecretJwt => ClientAuthMethod::ClientSecretJwt,
            ClientAuthMethod::PrivateKeyJwt => ClientAuthMethod::PrivateKeyJwt,
            ClientAuthMethod::Unknown(s) => ClientAuthMethod::Unknown(s.clone()),
        }
    }
}

impl Client {
    /// `other` holds the same registration as this client.
    pub open spec fn same_registration(self, other: Client) -> bool {
        &&& other.id == self.id
        &&& other.client_id == self.client_id
        &&& other.client_name == self.client_name
        &&& other.client_uri == self.client_uri
        &&& other.tos_uri == self.tos_uri
        &&& other.policy_uri == self.policy_uri
        &&& other.redirect_uris@ == self.redirect_uris@
        &&& other.token_endpoint_auth_method == self.token_endpoint_auth_method
    }

    /// A copy of the client.
    pub fn duplicate(&self) -> (r: Client)
        ensures
            self.same_registration(r),
    {
        let redirect_uris = self.redirect_uris.clone();
        assert(redirect_uris@ =~= self.redirect_uris@);
        Client {
            id: self.id,
            client_id: self.client_id.clone(),
            client_name: match &self.client_name {
                Some(n) => Some(n.clone()),
                None => None,
            },
            client_uri: match &self.client_uri {
                Some(n) => Some(n.clone()),
                None => None,
            },
            tos_uri: match &self.tos_uri {
                Some(n) => Some(n.clone()),
                None => None,
            },
            policy_uri: match &self.policy_uri {
                Some(n) => Some(n.clone()),
                None => None,
            },
            redirect_uris,
            token_endpoint_auth_method: match &self.token_endpoint_auth_method {
                Some(m) => Some(m.duplicate()),
                None => None,
            },
        }
    }
}

} // verus!
