//! Verified core of an OAuth 2.0 / OpenID Connect authorization service:
//! session life cycle, scopes, token introspection and the token endpoint's
//! grant rules, consent storage rows, pagination, the GraphQL view of
//! sessions and clients, and telemetry selection.

pub mod time;
pub mod ids;
pub mod session;
pub mod text;
pub mod scope;
pub mod tokens;
pub mod client;
pub mod introspection;
pub mod introspection_flow;
pub mod token;
pub mod token_flow;
pub mod pagination;
pub mod consent;
pub mod consent_store;
pub mod graphql;
pub mod telemetry;
pub mod error_pages;
pub mod routes;
