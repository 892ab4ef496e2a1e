//! The route tables of the service's routers, as data: which endpoint
//! answers which methods, and the cross-origin policy of the API-like ones.
//! Endpoints are named here; their paths belong to the URL builder.
use vstd::prelude::*;

verus! {

/// The GraphQL handlers a route can lead to.
#[derive(Clone, Copy, Debug, PartialEq, Eq, Structural)]
pub enum GraphqlHandler {
    /// The GraphQL API, on GET and POST.
    Api,
    /// The interactive playground, on GET.
    Playground,
}

/// The GraphQL routes, as path and handler: the API at `/graphql`, and the
/// playground at `/graphql/playground` only when it is enabled.
pub fn graphql_routes(playground: bool) -> (r: Vec<(&'static str, GraphqlHandler)>)
    ensures
        r@.len() == (if playground { 2int } else { 1int }),
        r@[0].0@ == "/graphql"@ && r@[0].1 == GraphqlHandler::Api,
        playground ==> r@[1].0@ == "/graphql/playground"@ && r@[1].1 == GraphqlHandler::Playground,
{
    let mut routes = vec![("/graphql", GraphqlHandler::Api)];
    if playground {
        routes.push(("/graphql/playground", GraphqlHandler::Playground));
    }
    routes
}

/// An endpoint of the API-like routers.
#[derive(Clone, Copy, Debug, PartialEq, Eq, Structural)]
pub enum Endpoint {
    OidcConfiguration,
    Webfinger,
    OAuth2Keys,
    OidcUserinfo,
    OAuth2Introspection,
    OAuth2Revocation,
    OAuth2Token,
    OAuth2Registration,
    CompatLogin,
    CompatLogout,
    CompatRefresh,
}

/// The methods a route answers.
#[derive(Clone, Copy, Debug, PartialEq, Eq, Structural)]
pub struct Methods {
    pub get: bool,
    pub post: bool,
}

/// GET only.
pub open spec fn get_only() -> Methods {
    Methods { get: true, post: false }
}

/// POST only.
pub open spec fn post_only() -> Methods {
    Methods { get: false, post: true }
}

/// GET and POST.
pub open spec fn get_and_post() -> Methods {
    Methods { get: true, post: true }
}

/// A cross-origin policy: any origin and any method are allowed, these
/// request headers (to which the HTTP layer adds the tracing propagation
/// headers) may be sent, and preflight answers may be cached for
/// `max_age_seconds`.
#[derive(Debug)]
pub struct CorsPolicy {
    pub any_origin: bool,
    pub any_method: bool,
    pub allowed_headers: Vec<&'static str>,
    pub max_age_seconds: u64,
}

/// The headers a cross-origin request may send: `authorization`, `accept`,
/// `accept-language`, `content-language` and `content-type`, and
/// `x-requested-with` too where `requested_with` is set.
pub open spec fn allowed_header_texts(requested_with: bool) -> Seq<Seq<char>> {
    let common = seq![
        "authorization"@,
        "accept"@,
        "accept-language"@,
        "content-language"@,
        "content-type"@,
    ];
    if requested_with {
        common.push("x-requested-with"@)
    } else {
        common
    }
}

/// The compat router's headers are the API routers' headers with
/// `x-requested-with` added, and both allow sending credentials
/// (`authorization`) and the content headers.
pub proof fn law_cors_headers(requested_with: bool)
    ensures
        allowed_header_texts(true) == allowed_header_texts(false).push("x-requested-with"@),
        allowed_header_texts(requested_with).contains("authorization"@),
        allowed_header_texts(requested_with).contains("accept"@),
        allowed_header_texts(requested_with).contains("accept-language"@),
        allowed_header_texts(requested_with).contains("content-language"@),
        allowed_header_texts(requested_with).contains("content-type"@),
        allowed_header_texts(requested_with).contains("x-requested-with"@) <==> requested_with,
        forall|h: Seq<char>| allowed_header_texts(false).contains(h) ==> allowed_header_texts(true).contains(h),
{
    reveal_strlit("authorization");
    reveal_strlit("accept");
    reveal_strlit("accept-language");
    reveal_strlit("content-language");
    reveal_strlit("content-type");
    reveal_strlit("x-requested-with");
    let base = allowed_header_texts(false);
    assert(base[0] == "authorization"@);
    assert(base[1] == "accept"@);
    assert(base[2] == "accept-language"@);
    assert(base[3] == "content-language"@);
    assert(base[4] == "content-type"@);
    assert(allowed_header_texts(true)[5] == "x-requested-with"@);
    assert(allowed_header_texts(true)[0] == "authorization"@);
    assert(allowed_header_texts(true)[1] == "accept"@);
    assert(allowed_header_texts(true)[2] == "accept-language"@);
    assert(allowed_header_texts(true)[3] == "content-language"@);
    assert(allowed_header_texts(true)[4] == "content-type"@);
    if !requested_with {
        assert forall|k: int| 0 <= k < base.len() implies base[k] != "x-requested-with"@ by {
            assert(base[k][0] != "x-requested-with"@[0]);
        }
    }
    assert forall|h: Seq<char>| allowed_header_texts(false).contains(h) implies allowed_header_texts(
        true,
    ).contains(h) by {
        let k = choose|k: int| 0 <= k < base.len() && base[k] == h;
        assert(allowed_header_texts(true)[k] == h);
    }
}

/// The cross-origin policy of the discovery and API routers, and, with
/// `x-requested-with` allowed too, of the compat router: any origin, any
/// method, the allowed headers, and an hour for preflight caching.
pub fn cors_policy(requested_with: bool) -> (r: CorsPolicy)
    ensures
        r.any_origin,
        r.any_method,
        r.allowed_headers@.map_values(|h: &'static str| h@) == allowed_header_texts(requested_with),
        r.max_age_seconds == 3600,
        r.allowed_headers@.len() == if requested_with { 6int } else { 5int },
        r.allowed_headers@[0]@ == "authorization"@,
        r.allowed_headers@[1]@ == "accept"@,
        r.allowed_headers@[2]@ == "accept-language"@,
        r.allowed_headers@[3]@ == "content-language"@,
        r.allowed_headers@[4]@ == "content-type"@,
        requested_with ==> r.allowed_headers@[5]@ == "x-requested-with"@,
{
    let mut allowed_headers = vec![
        "authorization",
        "accept",
        "accept-language",
        "content-language",
        "content-type",
    ];
    if requested_with {
        allowed_headers.push("x-requested-with");
    }
    let r = CorsPolicy { any_origin: true, any_method: true, allowed_headers, max_age_seconds: 60 * 60 };
    assert(r.allowed_headers@.map_values(|h: &'static str| h@) =~= allowed_header_texts(requested_with));
    r
}

/// The discovery router: the OpenID configuration and WebFinger, on GET.
pub fn discovery_routes() -> (r: Vec<(Endpoint, Methods)>)
    ensures
        r@ == seq![(Endpoint::OidcConfiguration, get_only()), (Endpoint::Webfinger, get_only())],
        r@ == seq![
            (Endpoint::OidcConfiguration, (Methods { get: true, post: false })),
            (Endpoint::Webfinger, (Methods { get: true, post: false })),
        ],
{
    vec![
        (Endpoint::OidcConfiguration, Methods { get: true, post: false }),
        (Endpoint::Webfinger, Methods { get: true, post: false }),
    ]
}

/// The API router: the key set on GET, userinfo on GET and POST, and
/// introspection, revocation, the token endpoint and client registration on
/// POST.
pub fn api_routes() -> (r: Vec<(Endpoint, Methods)>)
    ensures
        r@ == seq![
            (Endpoint::OAuth2Keys, get_only()),
            (Endpoint::OidcUserinfo, get_and_post()),
            (Endpoint::OAuth2Introspection, post_only()),
            (Endpoint::OAuth2Revocation, post_only()),
            (Endpoint::OAuth2Token, post_only()),
            (Endpoint::OAuth2Registration, post_only()),
        ],
        r@ == seq![
            (Endpoint::OAuth2Keys, (Methods { get: true, post: false })),
            (Endpoint::OidcUserinfo, (Methods { get: true, post: true })),
            (Endpoint::OAuth2Introspection, (Methods { get: false, post: true })),
            (Endpoint::OAuth2Revocation, (Methods { get: false, post: true })),
            (Endpoint::OAuth2Token, (Methods { get: false, post: true })),
            (Endpoint::OAuth2Registration, (Methods { get: false, post: true })),
        ],
{
    vec![
        (Endpoint::OAuth2Keys, Methods { get: true, post: false }),
        (Endpoint::OidcUserinfo, Methods { get: true, post: true }),
        (Endpoint::OAuth2Introspection, Methods { get: false, post: true }),
        (Endpoint::OAuth2Revocation, Methods { get: false, post: true }),
        (Endpoint::OAuth2Token, Methods { get: false, post: true }),
        (Endpoint::OAuth2Registration, Methods { get: false, post: true }),
    ]
}

/// The compat router: login on GET and POST, logout and refresh on POST.
pub fn compat_routes() -> (r: Vec<(Endpoint, Methods)>)
    ensures
        r@ == seq![
            (Endpoint::CompatLogin, get_and_post()),
            (Endpoint::CompatLogout, post_only()),
            (Endpoint::CompatRefresh, post_only()),
        ],
        r@ == seq![
            (Endpoint::CompatLogin, (Methods { get: true, post: true })),
            (Endpoint::CompatLogout, (Methods { get: false, post: true })),
            (Endpoint::CompatRefresh, (Methods { get: false, post: true })),
        ],
{
    vec![
        (Endpoint::CompatLogin, Methods { get: true, post: true }),
        (Endpoint::CompatLogout, Methods { get: false, post: true }),
        (Endpoint::CompatRefresh, Methods { get: false, post: true }),
    ]
}

} // verus!
