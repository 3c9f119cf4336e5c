//! Turning an endpoint into a request, handing it to a transport, and reading
//! the service's answer.
use vstd::prelude::*;

use super::endpoint::{body_view, Endpoint, Method};
use super::error::{answer_error, describes_answer, error_message, json_at, ApiError, BodyError};
use super::params::{encode_pairs, form_encoded, pairs_view, Pairs};
use crate::auth::{Auth, AuthError};

verus! {

/// A request ready for the transport.
#[derive(Debug)]
pub struct PreparedRequest {
    pub method: Method,
    /// The path relative to the service's root, without leading `/`.
    pub path: String,
    /// The encoded query string, credentials included.
    pub query: String,
    /// The content type and bytes of the body, if any.
    pub body: Option<(&'static str, Vec<u8>)>,
}

/// What the transport brought back.
#[derive(Debug)]
pub struct RawResponse {
    pub status: u16,
    /// Header names and values, in the order received.
    pub headers: Vec<(String, Vec<u8>)>,
    pub body: Vec<u8>,
}

/// The credential pairs a request carries: the API key, then the OAuth token,
/// each when the endpoint needs it; an error when a needed one is missing.
pub open spec fn credential_pairs(needs_key: bool, needs_token: bool, auth: Auth) -> Result<
    Pairs,
    AuthError,
> {
    if needs_key && auth.api_key is None {
        Err(AuthError::MissingApiKey)
    } else if needs_token && auth.oauth_token is None {
        Err(AuthError::MissingOauthToken)
    } else {
        Ok(
            (if needs_key {
                seq![("key"@, auth.api_key->0@)]
            } else {
                seq![]
            }) + (if needs_token {
                seq![("access_token"@, auth.oauth_token->0@)]
            } else {
                seq![]
            }),
        )
    }
}

/// Every query pair of a request: the endpoint's own, then the credentials.
pub open spec fn request_pairs<E: Endpoint>(endpoint: &E, auth: Auth) -> Result<Pairs, AuthError> {
    match credential_pairs(
        endpoint.spec_requires_api_key(),
        endpoint.spec_requires_oauth_token(),
        auth,
    ) {
        Ok(c) => Ok(endpoint.spec_query() + c),
        Err(e) => Err(e),
    }
}

/// A path without its leading `/` characters.
pub open spec fn trim_leading_slashes(s: Seq<char>) -> Seq<char>
    decreases s.len(),
{
    if s.len() > 0 && s[0] == '/' {
        trim_leading_slashes(s.drop_first())
    } else {
        s
    }
}

/// Drops the leading `/` characters of a path.
pub fn trim_start_slashes(s: &str) -> (r: &str)
    ensures
        r@ == trim_leading_slashes(s@),
{
    let n = s.unicode_len();
    let mut i: usize = 0;
    assert(s@.skip(0) =~= s@);
    while i < n && s.get_char(i) == '/'
        invariant
            n == s@.len(),
            i <= n,
            trim_leading_slashes(s@) == trim_leading_slashes(s@.skip(i as int)),
        decreases n - i,
    {
        assert(s@.skip(i as int).drop_first() =~= s@.skip(i + 1));
        i = i + 1;
    }
    let r = s.substring_char(i, n);
    assert(r@ =~= s@.skip(i as int));
    r
}

/// Builds the request for `endpoint` with the credentials in `auth`; fails,
/// before anything is sent, when a credential the endpoint needs is missing.
pub fn prepare_request<E: Endpoint, C>(endpoint: &E, auth: &Auth) -> (r: Result<
    PreparedRequest,
    ApiError<C>,
>)
    ensures
        request_pairs(endpoint, *auth) is Err ==> r == Err::<PreparedRequest, ApiError<C>>(
            ApiError::Authentication { source: request_pairs(endpoint, *auth)->Err_0 },
        ),
        request_pairs(endpoint, *auth) is Ok ==> r is Ok,
        r is Ok ==> r->Ok_0.method == endpoint.spec_method() && r->Ok_0.path@
            == trim_leading_slashes(endpoint.spec_path()) && r->Ok_0.query@ == form_encoded(
            request_pairs(endpoint, *auth)->Ok_0,
        ) && body_view(r->Ok_0.body) == endpoint.spec_body(),
{
    let mut pairs = endpoint.query_pairs();
    let ghost own = pairs_view(pairs@);
    if endpoint.requires_api_key() {
        match auth.append_api_key_query_param(&mut pairs) {
            Ok(()) => {},
            Err(source) => {
                return Err(ApiError::Authentication { source });
            },
        }
    }
    let ghost with_key = pairs_view(pairs@);
    if endpoint.requires_oauth_token() {
        match auth.append_oauth_token_query_param(&mut pairs) {
            Ok(()) => {},
            Err(source) => {
                return Err(ApiError::Authentication { source });
            },
        }
    }
    proof {
        let c = credential_pairs(
            endpoint.spec_requires_api_key(),
            endpoint.spec_requires_oauth_token(),
            *auth,
        );
        assert(c is Ok);
        assert(pairs_view(pairs@) =~= own + c->Ok_0);
    }
    let query = match encode_pairs(&pairs) {
        Ok(q) => q,
        Err(source) => {
            return Err(ApiError::Body { source: BodyError::UrlEncoded { source } });
        },
    };
    let body = match endpoint.body() {
        Ok(b) => b,
        Err(source) => {
            return Err(ApiError::Body { source });
        },
    };
    let path = trim_start_slashes(endpoint.endpoint()).to_string();
    Ok(PreparedRequest { method: endpoint.method(), path, query, body })
}

#[verifier::external_type_specification]
#[verifier::external_body]
pub struct ExUrl(url::Url);

/// What `url::Url::parse` makes of a text: the URL, or why it is none.
pub uninterp spec fn parsed_url(s: Seq<char>) -> Result<url::Url, url::ParseError>;

/// What `url::Url::join` makes of a relative reference against a base URL.
pub uninterp spec fn joined_url(base: url::Url, s: Seq<char>) -> Result<url::Url, url::ParseError>;

/// Relies on url::Url::parse: reads an absolute URL; the outcome depends on
/// the text alone.
#[verifier::external_body]
pub(crate) fn parse_url(input: &str) -> (r: Result<url::Url, url::ParseError>)
    ensures
        r == parsed_url(input@),
{
    url::Url::parse(input)
}

/// Relies on url::Url::join: resolves a relative reference against a URL; the
/// outcome depends on the two alone.
#[verifier::external_body]
fn join_url(base: &url::Url, input: &str) -> (r: Result<url::Url, url::ParseError>)
    ensures
        r == joined_url(*base, input@),
{
    base.join(input)
}

/// The reference of a request relative to the service's root: its path, then
/// `?` and the query when there is one.
pub open spec fn request_target(path: Seq<char>, query: Seq<char>) -> Seq<char> {
    if query.len() == 0 {
        path
    } else {
        path + "?"@ + query
    }
}

/// The reference of `request` relative to the service's root.
pub fn target_of(request: &PreparedRequest) -> (r: String)
    ensures
        r@ == request_target(request.path@, request.query@),
{
    let mut target = request.path.clone();
    if request.query.as_str().unicode_len() > 0 {
        target.append("?");
        target.append(request.query.as_str());
    }
    target
}

/// The URL of `request` on the service rooted at `rest_url`.
pub fn request_url<C>(rest_url: &url::Url, request: &PreparedRequest) -> (r: Result<
    url::Url,
    ApiError<C>,
>)
    ensures
        joined_url(*rest_url, request_target(request.path@, request.query@)) is Ok ==> r
            == Ok::<url::Url, ApiError<C>>(
            joined_url(*rest_url, request_target(request.path@, request.query@))->Ok_0,
        ),
        joined_url(*rest_url, request_target(request.path@, request.query@)) is Err ==> r
            == Err::<url::Url, ApiError<C>>(
            ApiError::Parse {
                source: joined_url(*rest_url, request_target(request.path@, request.query@))->Err_0,
            },
        ),
{
    let target = target_of(request);
    match join_url(rest_url, target.as_str()) {
        Ok(url) => Ok(url),
        Err(source) => Err(ApiError::Parse { source }),
    }
}

/// A transport that sends prepared requests over HTTP.
pub trait Client {
    /// The error of the transport.
    type Error;

    /// Sends a request and returns the answer.
    fn rest(&self, request: PreparedRequest) -> Result<RawResponse, ApiError<Self::Error>>;
}

/// Prepares the request for `endpoint` and hands it to `client`; when the
/// request cannot be prepared, the client is not called and the error is
/// returned.
pub fn send<E: Endpoint, C: Client>(endpoint: &E, auth: &Auth, client: &C) -> (r: Result<
    RawResponse,
    ApiError<C::Error>,
>)
    ensures
        request_pairs(endpoint, *auth) is Err ==> r == Err::<RawResponse, ApiError<C::Error>>(
            ApiError::Authentication { source: request_pairs(endpoint, *auth)->Err_0 },
        ),
{
    match prepare_request::<E, C::Error>(endpoint, auth) {
        Ok(request) => client.rest(request),
        Err(e) => Err(e),
    }
}

/// The JSON document that `serde_json::from_slice` reads from some bytes, or
/// `None` when they hold none.
pub uninterp spec fn json_of(b: Seq<u8>) -> Option<serde_json::Value>;

/// Relies on serde_json::from_slice: reads bytes as one JSON document; the
/// outcome depends on the bytes alone.
#[verifier::external_body]
fn parse_json(bytes: &[u8]) -> (r: Result<serde_json::Value, serde_json::Error>)
    ensures
        r is Ok <==> json_of(bytes@) is Some,
        r is Ok ==> r->Ok_0 == json_of(bytes@)->0,
{
    serde_json::from_slice(bytes)
}

/// The payload of an answer: its `data` member when the status is a success
/// and the member is there, else the error the answer describes.
pub fn unwrap_envelope<C>(
    success: bool,
    data: Option<serde_json::Value>,
    message: Option<String>,
    answer: serde_json::Value,
) -> (r: Result<serde_json::Value, ApiError<C>>)
    ensures
        success && data is Some ==> r == Ok::<serde_json::Value, ApiError<C>>(data->0),
        !(success && data is Some) ==> r == Err::<serde_json::Value, ApiError<C>>(
            answer_error(message, answer),
        ),
{
    if success {
        if let Some(d) = data {
            return Ok(d);
        }
    }
    Err(ApiError::from_message(message, answer))
}

/// Whether a status is a success.
pub open spec fn is_success(status: u16) -> bool {
    200 <= status < 300
}

/// Reads an answer: the `data` member of a successful answer, or the error the
/// answer holds.
pub fn decode_response<C>(response: &RawResponse) -> (r: Result<serde_json::Value, ApiError<C>>)
    ensures
        json_of(response.body@) is None ==> r is Err && r->Err_0 is Json,
        json_of(response.body@) is Some && is_success(response.status) && json_at(
            json_of(response.body@)->0,
            "/data"@,
        ) is Some ==> r == Ok::<serde_json::Value, ApiError<C>>(
            json_at(json_of(response.body@)->0, "/data"@)->0,
        ),
        json_of(response.body@) is Some && !(is_success(response.status) && json_at(
            json_of(response.body@)->0,
            "/data"@,
        ) is Some) ==> r is Err && describes_answer(r->Err_0, json_of(response.body@)->0),
{
    let answer = match parse_json(response.body.as_slice()) {
        Ok(v) => v,
        Err(source) => {
            return Err(ApiError::Json { source });
        },
    };
    let success = 200 <= response.status && response.status < 300;
    let data = match answer.pointer("/data") {
        Some(d) => Some(d.clone()),
        None => None,
    };
    let message = error_message(&answer);
    unwrap_envelope(success, data, message, answer)
}

} // verus!
