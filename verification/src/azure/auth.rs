//! Who the clients authorize themselves as.

use vstd::prelude::*;
use vstd::utf8;

use crate::encoding;
use crate::error;
use crate::error::Error;
use crate::http_common;
use crate::http_common::{
    FromResponse, HeaderValue, Method, Request, RequestBody, RequestView, ResponseBody,
    ResponseHeaders, StatusCode, Uri,
};
use crate::log2::{Scope, ScopeView, ScopedObjectOperation, Secret};
use crate::text;

verus! {

/// Who a client authorizes itself as.
#[derive(Debug)]
pub enum Auth {
    /// The identity that the function app has been given.
    ManagedIdentity { endpoint: String, secret: HeaderValue },
    /// A service principal. Only for tests on a local machine.
    ServicePrincipal(ServicePrincipal),
}

/// A service principal.
#[derive(Debug)]
pub struct ServicePrincipal {
    /// The application ID.
    pub client_id: String,
    /// The password.
    pub client_secret: String,
    /// The tenant ID.
    pub tenant_id: String,
}

/// Who a client authorizes itself as.
pub enum AuthView {
    ManagedIdentity { endpoint: Seq<char>, secret: Seq<u8> },
    ServicePrincipal { client_id: Seq<char>, client_secret: Seq<char>, tenant_id: Seq<char> },
}

impl View for Auth {
    type V = AuthView;

    open spec fn view(&self) -> AuthView {
        match self {
            Auth::ManagedIdentity { endpoint, secret } => AuthView::ManagedIdentity {
                endpoint: endpoint@,
                secret: secret@,
            },
            Auth::ServicePrincipal(principal) => principal_view(*principal),
        }
    }
}

/// A client that authorizes itself as a service principal.
pub open spec fn principal_view(principal: ServicePrincipal) -> AuthView {
    AuthView::ServicePrincipal {
        client_id: principal.client_id@,
        client_secret: principal.client_secret@,
        tenant_id: principal.tenant_id@,
    }
}

/// Who a client authorizes itself as: the identity of the function app, where its endpoint and its
/// secret are in the environment; else, in a debug build, the service principal of the settings.
pub open spec fn chosen(
    identity: Option<(Seq<char>, Seq<char>)>,
    debug_build: bool,
    principal: Result<ServicePrincipal, String>,
) -> Result<AuthView, Seq<Seq<char>>> {
    match identity {
        Some((endpoint, secret)) => match http_common::header_value(secret) {
            Ok(secret) => Ok(AuthView::ManagedIdentity { endpoint, secret }),
            Err(err) => Err(
                error::message(
                    "could not parse MSI_SECRET as HeaderValue: failed to parse header value"@,
                ),
            ),
        },
        None => if !debug_build {
            Err(error::message("did not find MSI_ENDPOINT and MSI_SECRET env vars"@))
        } else {
            match principal {
                Ok(principal) => Ok(principal_view(principal)),
                Err(err) => Err(error::message(err@)),
            }
        },
    }
}

/// The response to a request for an authorization.
#[derive(Debug)]
pub struct TokenObject {
    pub access_token: String,
    pub token_type: String,
}

/// An authorization: the value of the header that carries it.
#[derive(Debug)]
pub struct TokenResponse {
    pub authorization: HeaderValue,
}

impl View for TokenResponse {
    type V = Seq<u8>;

    open spec fn view(&self) -> Seq<u8> {
        self.authorization@
    }
}

impl FromResponse for TokenResponse {
    type Content = Result<TokenObject, String>;

    open spec fn interpreted(
        status: u16,
        body: Option<ResponseBody<Result<TokenObject, String>>>,
        headers: ResponseHeaders,
        now: int,
    ) -> Result<Option<Seq<u8>>, Seq<Seq<char>>> {
        match http_common::guarded_json_if(status == 200, body) {
            Ok(Some(token)) => match http_common::header_value(
                token.token_type@ + " "@ + token.access_token@,
            ) {
                Ok(authorization) => Ok(Some(authorization)),
                Err(err) => Err(error::in_context("could not parse token as HeaderValue"@, err)),
            },
            Ok(None) => Ok(None),
            Err(err) => Err(err),
        }
    }

    fn from_response(
        status: StatusCode,
        body: Option<ResponseBody<Result<TokenObject, String>>>,
        headers: &ResponseHeaders,
        now: i128,
    ) -> (r: Result<Option<TokenResponse>, Error>) {
        match http_common::expect_guarded_json(status.as_u16() == 200, body) {
            Ok(Some(token)) => {
                let mut value = token.token_type;
                value.append(" ");
                value.append(token.access_token.as_str());
                match HeaderValue::from_text(value.as_str()) {
                    Ok(authorization) => Ok(Some(TokenResponse { authorization })),
                    Err(err) => Err(err.context("could not parse token as HeaderValue")),
                }
            },
            Ok(None) => Ok(None),
            Err(err) => Err(err),
        }
    }

    open spec fn reads(status: u16, content_type: Seq<u8>, headers: ResponseHeaders) -> bool {
        status == 200 && http_common::is_json(content_type)
    }

    fn reads_body(
        status: StatusCode,
        content_type: &HeaderValue,
        headers: &ResponseHeaders,
    ) -> (r: bool) {
        status.as_u16() == 200 && http_common::has_json_type(content_type)
    }

    proof fn unread_does_not_matter(
        status: u16,
        content_type: HeaderValue,
        in_one_piece: bool,
        one: Result<TokenObject, String>,
        other: Result<TokenObject, String>,
        headers: ResponseHeaders,
        now: int,
    ) {
    }
}

/// Where an authorization is asked for.
pub open spec fn token_url(auth: AuthView, resource: Seq<char>) -> Seq<char> {
    match auth {
        AuthView::ManagedIdentity { endpoint, .. } => endpoint + "?resource="@ + resource
            + "&api-version=2017-09-01"@,
        AuthView::ServicePrincipal { tenant_id, .. } => "https://login.microsoftonline.com/"@
            + tenant_id + "/oauth2/token"@,
    }
}

/// The request for an authorization, at the URI `uri`.
pub open spec fn token_request(auth: AuthView, resource: Seq<char>, uri: Seq<char>) -> RequestView {
    match auth {
        AuthView::ManagedIdentity { secret, .. } => RequestView {
            headers: seq![("secret"@, secret)],
            ..http_common::bare_request(Method::Get, uri)
        },
        AuthView::ServicePrincipal { client_id, client_secret, .. } => RequestView {
            body: utf8::encode_utf8(
                encoding::form_urlencoded_pairs(
                    seq![
                        ("grant_type"@, "client_credentials"@),
                        ("client_id"@, client_id),
                        ("client_secret"@, client_secret),
                        ("resource"@, resource),
                    ],
                ),
            ),
            ..http_common::bare_request(Method::Post, uri)
        },
    }
}

impl Auth {
    /// Who a client authorizes itself as. `identity` is the endpoint and the secret in the
    /// environment; `principal` is the service principal in the settings.
    pub fn from_settings(
        identity: Option<(String, String)>,
        debug_build: bool,
        principal: Result<ServicePrincipal, String>,
    ) -> (r: Result<Auth, Error>)
        ensures
            error::result_view(r) == chosen(
                match identity {
                    Some((endpoint, secret)) => Some((endpoint@, secret@)),
                    None => None,
                },
                debug_build,
                principal,
            ),
    {
        match identity {
            Some((endpoint, secret)) => match HeaderValue::from_text(secret.as_str()) {
                Ok(secret) => Ok(Auth::ManagedIdentity { endpoint, secret }),
                Err(_) => Err(
                    Error::new(
                        "could not parse MSI_SECRET as HeaderValue: failed to parse header value",
                    ),
                ),
            },
            None => {
                if !debug_build {
                    return Err(Error::new("did not find MSI_ENDPOINT and MSI_SECRET env vars"));
                }
                match principal {
                    Ok(principal) => Ok(Auth::ServicePrincipal(principal)),
                    Err(err) => Err(Error::new(err.as_str())),
                }
            },
        }
    }

    /// Asks for an authorization. The response goes to [`Auth::authorization_received`], within the
    /// operation.
    pub fn get_authorization(&self, resource: &str) -> (r: (Scope, Result<Request, Error>))
        ensures
            r.0@ == (ScopeView {
                object_type: "azure/authorization"@,
                object_id: resource@,
                operation: ScopedObjectOperation::Get,
            }),
            match http_common::uri_text(utf8::encode_utf8(token_url(self@, resource@))) {
                Ok(uri) => r.1 matches Ok(request) && request@ == token_request(
                    self@,
                    resource@,
                    uri,
                ),
                Err(err) => r.1 matches Err(e) && e@ == error::in_context(
                    "could not construct authorization request URI"@,
                    error::message(err),
                ),
            },
    {
        let scope = Scope::get("azure/authorization", resource.to_owned());
        (scope, self.make_request(resource))
    }

    /// The request for an authorization.
    fn make_request(&self, resource: &str) -> (r: Result<Request, Error>)
        ensures
            match http_common::uri_text(utf8::encode_utf8(token_url(self@, resource@))) {
                Ok(uri) => r matches Ok(request) && request@ == token_request(
                    self@,
                    resource@,
                    uri,
                ),
                Err(err) => r matches Err(e) && e@ == error::in_context(
                    "could not construct authorization request URI"@,
                    error::message(err),
                ),
            },
    {
        match self {
            Auth::ManagedIdentity { endpoint, secret } => {
                let mut url = endpoint.clone();
                url.append("?resource=");
                url.append(resource);
                url.append("&api-version=2017-09-01");
                match Uri::from_text(url.as_str()) {
                    Ok(uri) => {
                        let mut request = Request::new(Method::Get, uri, RequestBody::default());
                        request.push_header("secret", secret.clone());
                        assert(request@.headers =~= seq![("secret"@, secret@)]);
                        Ok(request)
                    },
                    Err(err) => Err(err.context("could not construct authorization request URI")),
                }
            },
            Auth::ServicePrincipal(ServicePrincipal { client_id, client_secret, tenant_id }) => {
                let pairs = vec![
                    ("grant_type".to_owned(), "client_credentials".to_owned()),
                    ("client_id".to_owned(), client_id.clone()),
                    ("client_secret".to_owned(), client_secret.clone()),
                    ("resource".to_owned(), resource.to_owned()),
                ];
                assert(encoding::text_pairs(pairs@) =~= seq![
                    ("grant_type"@, "client_credentials"@),
                    ("client_id"@, client_id@),
                    ("client_secret"@, client_secret@),
                    ("resource"@, resource@),
                ]);
                let body = encoding::form_urlencode(&pairs);
                let mut url = "https://login.microsoftonline.com/".to_owned();
                url.append(tenant_id.as_str());
                url.append("/oauth2/token");
                match Uri::from_text(url.as_str()) {
                    Ok(uri) => {
                        let body = RequestBody::from_bytes(text::bytes_of(body.as_str()));
                        Ok(Request::new(Method::Post, uri, body))
                    },
                    Err(err) => Err(err.context("could not construct authorization request URI")),
                }
            },
        }
    }

    /// The authorization that was asked for. It is a secret.
    pub fn authorization_received(response: Result<TokenResponse, Error>) -> (r: Result<
        Secret<HeaderValue>,
        Error,
    >)
        ensures
            error::result_view(r) == (match error::result_view(response) {
                Ok(authorization) => Ok(authorization),
                Err(err) => Err(error::in_context("could not get authorization"@, err)),
            }),
    {
        match response {
            Ok(response) => Ok(Secret(response.authorization)),
            Err(err) => Err(err.context("could not get authorization")),
        }
    }
}

/// A client authorizes itself as the identity that the function app has been given, wherever there is one;
/// as a service principal only in a debug build, and only where there is no such identity.
pub proof fn the_identity_of_the_app_comes_first(
    endpoint: Seq<char>,
    secret: Seq<char>,
    debug_build: bool,
    principal: Result<ServicePrincipal, String>,
)
    ensures
        chosen(Some((endpoint, secret)), debug_build, principal) == match http_common::header_value(secret) {
            Ok(bytes) => Ok::<AuthView, Seq<Seq<char>>>(
                AuthView::ManagedIdentity { endpoint, secret: bytes },
            ),
            Err(_) => Err(
                seq![
                    "could not parse MSI_SECRET as HeaderValue: failed to parse header value"@,
                ],
            ),
        },
        chosen(None, false, principal) == Err::<AuthView, Seq<Seq<char>>>(
            seq!["did not find MSI_ENDPOINT and MSI_SECRET env vars"@],
        ),
        chosen(None, true, principal) == match principal {
            Ok(principal) => Ok::<AuthView, Seq<Seq<char>>>(
                AuthView::ServicePrincipal {
                    client_id: principal.client_id@,
                    client_secret: principal.client_secret@,
                    tenant_id: principal.tenant_id@,
                },
            ),
            Err(err) => Err(seq![err@]),
        },
{
}

/// The identity of the app is shown by its secret in a header, at its endpoint and for one resource; a
/// service principal by its ID and its password in a form, at the endpoint of its tenant. The secret and the
/// password are in no URL.
pub proof fn an_authorization_is_asked_for_with_its_secret(
    endpoint: Seq<char>,
    secret: Seq<u8>,
    client_id: Seq<char>,
    client_secret: Seq<char>,
    tenant_id: Seq<char>,
    resource: Seq<char>,
    uri: Seq<char>,
)
    ensures
        ({
            let identity = AuthView::ManagedIdentity { endpoint, secret };
            let principal = AuthView::ServicePrincipal { client_id, client_secret, tenant_id };
            let by_identity = token_request(identity, resource, uri);
            let by_principal = token_request(principal, resource, uri);
            &&& token_url(identity, resource) == endpoint + "?resource="@ + resource
                + "&api-version=2017-09-01"@
            &&& token_url(principal, resource) == "https://login.microsoftonline.com/"@ + tenant_id
                + "/oauth2/token"@
            &&& by_identity.method == Method::Get
            &&& by_identity.uri == uri
            &&& by_identity.headers == seq![("secret"@, secret)]
            &&& by_identity.body.len() == 0
            &&& by_principal.method == Method::Post
            &&& by_principal.uri == uri
            &&& by_principal.headers.len() == 0
            &&& by_principal.body == utf8::encode_utf8(
                encoding::form_urlencoded_pairs(
                    seq![
                        ("grant_type"@, "client_credentials"@),
                        ("client_id"@, client_id),
                        ("client_secret"@, client_secret),
                        ("resource"@, resource),
                    ],
                ),
            )
        }),
{
}

/// An authorization is the type of the token and the token, with a space between them, of a response with
/// the status 200 alone.
pub proof fn an_authorization_is_its_token(
    status: u16,
    body: ResponseBody<Result<TokenObject, String>>,
    headers: ResponseHeaders,
    now: int,
)
    requires
        http_common::is_json(body.content_type@),
    ensures
        ({
            let read = TokenResponse::interpreted(status, Some(body), headers, now);
            if status == 200 {
                match body.content {
                    Ok(token) => match http_common::header_value(
                        token.token_type@ + seq![' '] + token.access_token@,
                    ) {
                        Ok(value) => read == Ok::<Option<Seq<u8>>, Seq<Seq<char>>>(Some(value)),
                        Err(err) => read == Err::<Option<Seq<u8>>, Seq<Seq<char>>>(
                            seq!["could not parse token as HeaderValue"@] + err,
                        ),
                    },
                    Err(err) => read == Err::<Option<Seq<u8>>, Seq<Seq<char>>>(seq![err@]),
                }
            } else {
                read == Ok::<Option<Seq<u8>>, Seq<Seq<char>>>(None)
            }
        }),
{
    reveal_strlit(" ");
    assert(" "@ =~= seq![' ']);
}

/// The body of a response counts where its status and its media type are the expected ones.
pub proof fn bodies_count_where_they_are_expected(status: u16, content_type: Seq<u8>, headers: ResponseHeaders)
    ensures
        <TokenResponse as FromResponse>::reads(status, content_type, headers)
            <==> status == 200 && http_common::is_json(content_type),
{
}

} // verus!
