use mas_core::routes::{
    api_routes, compat_routes, cors_policy, discovery_routes, graphql_routes, Endpoint,
    GraphqlHandler, Methods,
};

#[test]
fn graphql_playground_is_routed_only_when_enabled() {
    assert_eq!(graphql_routes(false), vec![("/graphql", GraphqlHandler::Api)]);
    assert_eq!(
        graphql_routes(true),
        vec![("/graphql", GraphqlHandler::Api), ("/graphql/playground", GraphqlHandler::Playground)]
    );
}

const GET: Methods = Methods { get: true, post: false };
const POST: Methods = Methods { get: false, post: true };
const BOTH: Methods = Methods { get: true, post: true };

#[test]
fn api_like_route_tables() {
    assert_eq!(discovery_routes(), vec![(Endpoint::OidcConfiguration, GET), (Endpoint::Webfinger, GET)]);
    assert_eq!(
        api_routes(),
        vec![
            (Endpoint::OAuth2Keys, GET),
            (Endpoint::OidcUserinfo, BOTH),
            (Endpoint::OAuth2Introspection, POST),
            (Endpoint::OAuth2Revocation, POST),
            (Endpoint::OAuth2Token, POST),
            (Endpoint::OAuth2Registration, POST),
        ]
    );
    assert_eq!(
        compat_routes(),
        vec![(Endpoint::CompatLogin, BOTH), (Endpoint::CompatLogout, POST), (Endpoint::CompatRefresh, POST)]
    );
}

#[test]
fn cross_origin_policies() {
    let api = cors_policy(false);
    assert!(api.any_origin && api.any_method);
    assert_eq!(api.max_age_seconds, 3600);
    assert_eq!(
        api.allowed_headers,
        vec!["authorization", "accept", "accept-language", "content-language", "content-type"]
    );
    let compat = cors_policy(true);
    assert_eq!(compat.allowed_headers.last(), Some(&"x-requested-with"));
    assert_eq!(compat.allowed_headers.len(), 6);
}
