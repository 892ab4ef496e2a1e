# mas_core

The decision logic of an OAuth 2.0 / OpenID Connect authorization service,
written in Verus and proved against its contracts.

- `time`, `ids`: instants and 128-bit identifiers (written in Crockford base 32
  through the `ulid` crate).
- `session`, `tokens`: sessions, access and refresh tokens, compat (Matrix
  client-server API) sessions and tokens, and their state changes.
- `text`, `scope`: text order and OAuth 2.0 scopes (sets of scope tokens),
  their parsing and rendering.
- `client`: registered clients and OAuth 2.0 error replies.
- `introspection`: RFC 7662 token introspection decisions and responses.
- `token`: the token endpoint's rules for authorization codes (freshness,
  replay) and refresh token rotation.
- `introspection_flow`, `token_flow`: the two endpoints as state machines;
  each step takes what the last action fetched or stored and says what to
  do next, or answers.
- `pagination`, `consent`, `consent_store`: keyset pagination (pages
  ordered by identifier), the query for a page of one user's consents, the
  stored form of consents, and what storing a consent does to the table.
- `graphql`: the GraphQL view of sessions, clients and consents.
- `telemetry`: which propagators and exporters a configuration selects.
- `routes`, `error_pages`: the route tables and cross-origin policies, and
  when and how a server error is replaced by the rendered error page.

`app/` holds the loops that run those machines: they perform each action
against storage, the credential and PKCE checks, token issuance and
signing, and hand the outcome back. The storage layer and HTTP framework
they stand in front of are not part of this crate.
