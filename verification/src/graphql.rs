//! The GraphQL view of OAuth 2.0 sessions, clients and consents: global node
//! identifiers, rendered scopes, and the records a field resolves to.
use vstd::prelude::*;
use crate::client::Client;
use crate::ids::{id_text, write_id};
use crate::scope::{join_words, Scope};
use crate::session::Session;
use crate::tokens::{BrowserSession, User};

verus! {

/// A field that could not be resolved, with its message.
#[derive(Debug)]
pub struct GraphqlError {
    pub message: String,
}

/// The global identifier of a node: its type's prefix, a colon, and the
/// text of its identifier.
pub open spec fn node_id(prefix: Seq<char>, id: u128) -> Seq<char> {
    prefix + ":"@ + id_text(id)
}

fn write_node_id(prefix: &str, id: u128) -> (r: String)
    ensures
        r@ == node_id(prefix@, id),
{
    let mut r = String::from_str(prefix);
    r.append(":");
    let text = write_id(id);
    r.append(text.as_str());
    r
}

fn not_found(message: &str) -> (e: GraphqlError)
    ensures
        e.message@ == message@,
{
    GraphqlError { message: String::from_str(message) }
}

/// An OAuth 2.0 session represents a client session which used the OAuth
/// APIs to login.
#[derive(Debug)]
pub struct OAuth2Session(pub Session);

impl OAuth2Session {
    /// ID of the object.
    pub fn id(&self) -> (r: String)
        ensures
            r@ == node_id("oauth2_session"@, self.0.id),
    {
        write_node_id("oauth2_session", self.0.id)
    }

    /// OAuth 2.0 client used by this session, from the client looked up by
    /// the session's client identifier.
    pub fn client(&self, found: Option<Client>) -> (r: Result<OAuth2Client, GraphqlError>)
        requires
            found matches Some(c) ==> c.id == self.0.client_id,
        ensures
            found is None ==> (r matches Err(e) && e.message@ == "Could not load client"@),
            found matches Some(c) ==> (r matches Ok(oc) && oc.0 == c && oc.0.id == self.0.client_id),
    {
        match found {
            Some(c) => Ok(OAuth2Client(c)),
            None => Err(not_found("Could not load client")),
        }
    }

    /// Scope granted for this session.
    pub fn scope(&self) -> (r: String)
        ensures
            r@ == join_words(self.0.scope@),
    {
        self.0.scope.to_string()
    }

    /// The browser session which started this OAuth 2.0 session, from the
    /// browser session looked up by the session's user session identifier.
    pub fn browser_session(&self, found: Option<BrowserSession>) -> (r: Result<BrowserSession, GraphqlError>)
        requires
            found matches Some(b) ==> b.id == self.0.user_session_id,
        ensures
            r matches Ok(b) ==> b.id == self.0.user_session_id,
            found is None ==> (r matches Err(e) && e.message@ == "Could not load browser session"@),
            found matches Some(b) ==> r == Ok::<BrowserSession, GraphqlError>(b),
    {
        match found {
            Some(b) => Ok(b),
            None => Err(not_found("Could not load browser session")),
        }
    }

    /// User authorized for this session: the user of the browser session
    /// looked up by the session's user session identifier.
    pub fn user(&self, found: Option<BrowserSession>) -> (r: Result<User, GraphqlError>)
        requires
            found matches Some(b) ==> b.id == self.0.user_session_id,
        ensures
            found is None ==> (r matches Err(e) && e.message@ == "Could not load browser session"@),
            found matches Some(b) ==> r == Ok::<User, GraphqlError>(b.user),
    {
        match found {
            Some(b) => Ok(b.user),
            None => Err(not_found("Could not load browser session")),
        }
    }
}

/// An OAuth 2.0 client.
#[derive(Debug)]
pub struct OAuth2Client(pub Client);

fn optional_text(s: &Option<String>) -> (r: Option<&str>)
    ensures
        s is None <==> r is None,
        s matches Some(t) ==> (r matches Some(u) && u@ == t@),
{
    match s {
        Some(t) => Some(t.as_str()),
        None => None,
    }
}

impl OAuth2Client {
    /// ID of the object.
    pub fn id(&self) -> (r: String)
        ensures
            r@ == node_id("oauth2_client"@, self.0.id),
    {
        write_node_id("oauth2_client", self.0.id)
    }

    /// OAuth 2.0 client ID.
    pub fn client_id(&self) -> (r: &str)
        ensures
            r@ == self.0.client_id@,
    {
        self.0.client_id.as_str()
    }

    /// Client name advertised by the client.
    pub fn client_name(&self) -> (r: Option<&str>)
        ensures
            self.0.client_name is None <==> r is None,
            self.0.client_name matches Some(t) ==> (r matches Some(u) && u@ == t@),
    {
        optional_text(&self.0.client_name)
    }

    /// Client URI advertised by the client.
    pub fn client_uri(&self) -> (r: Option<&str>)
        ensures
            self.0.client_uri is None <==> r is None,
            self.0.client_uri matches Some(t) ==> (r matches Some(u) && u@ == t@),
    {
        optional_text(&self.0.client_uri)
    }

    /// Terms of services URI advertised by the client.
    pub fn tos_uri(&self) -> (r: Option<&str>)
        ensures
            self.0.tos_uri is None <==> r is None,
            self.0.tos_uri matches Some(t) ==> (r matches Some(u) && u@ == t@),
    {
        optional_text(&self.0.tos_uri)
    }

    /// Privacy policy URI advertised by the client.
    pub fn policy_uri(&self) -> (r: Option<&str>)
        ensures
            self.0.policy_uri is None <==> r is None,
            self.0.policy_uri matches Some(t) ==> (r matches Some(u) && u@ == t@),
    {
        optional_text(&self.0.policy_uri)
    }

    /// List of redirect URIs used for authorization grants by the client.
    pub fn redirect_uris(&self) -> (r: &Vec<String>)
        ensures
            r@ == self.0.redirect_uris@,
    {
        &self.0.redirect_uris
    }
}

/// An OAuth 2.0 consent represents the scope a user consented to grant to a
/// client.
#[derive(Debug)]
pub struct OAuth2Consent {
    scope: Scope,
    client_id: u128,
}

impl OAuth2Consent {
    /// The consent to `scope` granted to the client `client_id`.
    pub fn new(scope: Scope, client_id: u128) -> (c: OAuth2Consent)
        ensures
            c.scope_tokens() == scope@,
            c.client_identifier() == client_id,
    {
        OAuth2Consent { scope, client_id }
    }

    /// The consented scope's tokens.
    pub closed spec fn scope_tokens(&self) -> Seq<Seq<char>> {
        self.scope@
    }

    /// The identifier of the client the consent was granted to.
    pub closed spec fn client_identifier(&self) -> u128 {
        self.client_id
    }

    /// The identifier to look the consent's client up by.
    pub fn client_lookup_id(&self) -> (r: u128)
        ensures
            r == self.client_identifier(),
    {
        self.client_id
    }

    /// Scope consented by the user for this client.
    pub fn scope(&self) -> (r: String)
        ensures
            r@ == join_words(self.scope_tokens()),
    {
        self.scope.to_string()
    }

    /// OAuth 2.0 client for which the user granted access, from the client
    /// looked up by the consent's client identifier.
    pub fn client(&self, found: Option<Client>) -> (r: Result<OAuth2Client, GraphqlError>)
        requires
            found matches Some(c) ==> c.id == self.client_identifier(),
        ensures
            found is None ==> (r matches Err(e) && e.message@ == "Could not load client"@),
            found matches Some(c) ==> (r matches Ok(oc) && oc.0 == c && oc.0.id == self.client_identifier()),
    {
        match found {
            Some(c) => Ok(OAuth2Client(c)),
            None => Err(not_found("Could not load client")),
        }
    }
}

} // verus!
