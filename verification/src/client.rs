//! The dispatcher: what is sent for a request.

use crate::encode::{percent_encode, percent_encoded, EscapeClass};
use crate::error::{Error, ErrorView};
use crate::headers::Headers;
use crate::query::{pairs, Pair};
use crate::request::{header_pairs, Method, Request};
use crate::urls::{join_spec, outcome, parse_spec, then_join, then_segment, Url, UrlView};
use vstd::prelude::*;
use vstd::utf8::encode_utf8;

verus! {

/// The address of the service.
pub const DEFAULT_BASE_URL: &'static str = "https://storage.googleapis.com/storage/v1/";

/// `{base}/b/{bucket}`, the name escaped but for letters, digits and `*-._`.
pub open spec fn bucket_url_spec(base: UrlView, bucket: Seq<char>) -> Result<UrlView, ErrorView> {
    then_join(
        join_spec(base, "b/"@),
        percent_encoded(EscapeClass::Component, encode_utf8(bucket)),
    )
}

/// `{base}/b/{bucket}/o/{object}`, the names escaped but for letters, digits and `*-._`.
pub open spec fn object_url_spec(base: UrlView, bucket: Seq<char>, object: Seq<char>) -> Result<
    UrlView,
    ErrorView,
> {
    then_join(
        then_segment(bucket_url_spec(base, bucket), "o/"@),
        percent_encoded(EscapeClass::Component, encode_utf8(object)),
    )
}

/// The URL of a bucket, for a base that ends in `/`.
pub fn bucket_url(base_url: &Url, bucket: &str) -> (url: Result<Url, Error>)
    ensures
        outcome(url) == bucket_url_spec(base_url@, bucket@),
{
    let encoded = percent_encode(bucket);
    base_url.join("b/")?.join(encoded.as_str())
}

/// The URL of an object, for a base that ends in `/`.
pub fn object_url(base_url: &Url, bucket: &str, object: &str) -> (url: Result<Url, Error>)
    ensures
        outcome(url) == object_url_spec(base_url@, bucket@, object@),
{
    let encoded = percent_encode(object);
    bucket_url(base_url, bucket)?.join_segment("o/")?.join(encoded.as_str())
}

/// One call as it goes to the transport.
#[derive(Debug, PartialEq, Eq)]
pub struct HttpRequest {
    pub method: Method,
    pub url: Url,
    /// The headers in the order they are to be set: those of the credentials, then
    /// those of the request.
    pub headers: Vec<(String, String)>,
    /// The query string, parameter by parameter.
    pub query: Vec<(&'static str, String)>,
    /// The body; empty where the call carries none.
    pub body: Vec<u8>,
}

/// The call that a request, its target and the headers of its credentials make.
/// The parameters are drawn from the request, once.
pub fn assemble<R: Request>(
    url: Url,
    authorization: Vec<(String, String)>,
    request: &mut R,
) -> (call: HttpRequest)
    ensures
        call.method == R::method_spec(),
        call.url == url,
        header_pairs(call.headers@) == header_pairs(authorization@) + old(request).headers_spec(),
        pairs(call.query@) == old(request).query_spec(),
        call.body@.len() == 0,
        final(request).spent(),
        final(request).kept(old(request)),
        final(request).query_spec() == R::fixed_spec(),
{
    let mut headers = authorization;
    let mut own = request.request_headers();
    proof {
        assert(header_pairs(headers@ + own@) =~= header_pairs(headers@) + header_pairs(own@));
    }
    headers.append(&mut own);
    let query = request.request_query();
    HttpRequest { method: R::request_method(), url, headers, query, body: Vec::new() }
}

/// What the dispatcher owes for a request, whatever the body of the call.
///
/// On success the call goes to the request's target by the request's method; its
/// headers are those that the source of credentials gave for the request's
/// scope, followed by the request's own; its query is what the request's fields
/// give, and the request is left drawn from. On failure the request is as it
/// was, and the error is that of the target where there is no target, and else
/// the one that the source of credentials gave for the request's scope.
pub open spec fn dispatched<H: Headers, R: Request>(
    credentials: H,
    base: UrlView,
    before: R,
    after: R,
    built: Result<HttpRequest, Error>,
) -> bool {
    match built {
        Ok(call) => {
            &&& before.path_spec(base) == Ok::<UrlView, ErrorView>(call.url@)
            &&& call.method == R::method_spec()
            &&& exists|scope: &str, authorization: Vec<(String, String)>|
                scope@ == before.scope_spec() && #[trigger] call_ensures(
                    H::headers,
                    (&credentials, scope),
                    Ok::<Vec<(String, String)>, Error>(authorization),
                ) && header_pairs(call.headers@) == header_pairs(authorization@)
                    + before.headers_spec()
            &&& pairs(call.query@) == before.query_spec()
            &&& after.spent()
            &&& after.kept(&before)
            &&& after.query_spec() == R::fixed_spec()
        },
        Err(error) => {
            &&& after == before
            &&& match before.path_spec(base) {
                Err(failure) => failure == error@,
                Ok(_) => exists|scope: &str|
                    scope@ == before.scope_spec() && #[trigger] call_ensures(
                        H::headers,
                        (&credentials, scope),
                        Err::<Vec<(String, String)>, Error>(error),
                    ),
            }
        },
    }
}

/// The dispatcher's part before the transport: the address of the service and the
/// source of credentials.
pub struct Client<H: Headers> {
    headers: H,
    base_url: Url,
}

/// The parts of a `Client`, as far as they are given.
pub struct ClientBuilder<H: Headers> {
    headers: H,
    base_url: Option<Url>,
}

impl<H: Headers> ClientBuilder<H> {
    /// The address that `build` will use, where one was given.
    pub closed spec fn given_base_url(&self) -> Option<UrlView> {
        match self.base_url {
            Some(url) => Some(url@),
            None => None,
        }
    }

    /// The source of credentials that `build` will use.
    pub closed spec fn given_headers(&self) -> H {
        self.headers
    }

    /// Sets the source of credentials.
    pub fn headers<G: Headers>(self, headers: G) -> (builder: ClientBuilder<G>)
        ensures
            builder.given_headers() == headers,
            builder.given_base_url() == self.given_base_url(),
    {
        ClientBuilder { headers, base_url: self.base_url }
    }

    /// Sets the address of the service.
    pub fn base_url(self, base_url: Url) -> (builder: ClientBuilder<H>)
        ensures
            builder.given_headers() == self.given_headers(),
            builder.given_base_url() == Some(base_url@),
    {
        ClientBuilder { headers: self.headers, base_url: Some(base_url) }
    }

    /// Makes the client. Where no address was given it is `DEFAULT_BASE_URL`.
    pub fn build(self) -> (client: Result<Client<H>, Error>)
        ensures
            match client {
                Ok(made) => made.credentials() == self.given_headers() && Ok::<
                    UrlView,
                    ErrorView,
                >(made.base()) == match self.given_base_url() {
                    Some(url) => Ok(url),
                    None => parse_spec(DEFAULT_BASE_URL@),
                },
                Err(error) => self.given_base_url() is None && parse_spec(DEFAULT_BASE_URL@)
                    == Err::<UrlView, ErrorView>(error@),
            },
    {
        let base_url = match self.base_url {
            Some(url) => url,
            None => Url::parse(DEFAULT_BASE_URL)?,
        };
        Ok(Client { headers: self.headers, base_url })
    }
}

impl Client<()> {
    /// A builder without credentials and without an address.
    pub fn builder() -> (builder: ClientBuilder<()>)
        ensures
            builder.given_base_url() is None,
    {
        ClientBuilder { headers: (), base_url: None }
    }

    /// A client for the default address, without credentials.
    pub fn new() -> (client: Result<Client<()>, Error>)
        ensures
            match client {
                Ok(made) => parse_spec(DEFAULT_BASE_URL@) == Ok::<UrlView, ErrorView>(made.base()),
                Err(error) => parse_spec(DEFAULT_BASE_URL@) == Err::<UrlView, ErrorView>(error@),
            },
    {
        Client::builder().build()
    }
}

impl<H: Headers> Client<H> {
    /// The address of the service.
    pub closed spec fn base(&self) -> UrlView {
        self.base_url@
    }

    /// The source of credentials.
    pub closed spec fn credentials(&self) -> H {
        self.headers
    }

    /// The address of the service.
    pub fn base_url(&self) -> (url: &Url)
        ensures
            url@ == self.base(),
    {
        &self.base_url
    }

    /// The target of a request.
    pub fn target<R: Request>(&self, request: &R) -> (path: Result<Url, Error>)
        ensures
            outcome(path) == request.path_spec(self.base()),
    {
        request.request_path(self.base_url.clone())
    }

    /// Everything of a call but its body: the target, then the headers that the
    /// source of credentials gives for the request's scope, then the request's
    /// own headers and its query.
    ///
    /// Where the target cannot be made, that failure is returned and the source of
    /// credentials is not asked. Where the source fails, its error is returned as
    /// it came. In both cases the request has not been drawn from.
    pub fn request_builder<R: Request>(&self, request: &mut R) -> (built: Result<
        HttpRequest,
        Error,
    >)
        ensures
            dispatched(self.credentials(), self.base(), *old(request), *final(request), built),
            built matches Ok(call) ==> call.body@.len() == 0,
    {
        let url = match self.target(&*request) {
            Ok(url) => url,
            Err(error) => {
                return Err(error);
            },
        };
        let scope = request.scope();
        match self.headers.headers(scope) {
            Ok(authorization) => Ok(assemble(url, authorization, request)),
            Err(error) => Err(error),
        }
    }

    /// A call without a body.
    pub fn request<R: Request>(&self, request: &mut R) -> (built: Result<HttpRequest, Error>)
        ensures
            dispatched(self.credentials(), self.base(), *old(request), *final(request), built),
            built matches Ok(call) ==> call.body@.len() == 0,
    {
        self.request_body(request, Vec::new())
    }

    /// A call with `body` as its body.
    pub fn request_body<R: Request>(&self, request: &mut R, body: Vec<u8>) -> (built: Result<
        HttpRequest,
        Error,
    >)
        ensures
            dispatched(self.credentials(), self.base(), *old(request), *final(request), built),
            built matches Ok(call) ==> call.body == body,
    {
        match self.request_builder(request) {
            Ok(call) => Ok(
                HttpRequest {
                    method: call.method,
                    url: call.url,
                    headers: call.headers,
                    query: call.query,
                    body,
                },
            ),
            Err(error) => Err(error),
        }
    }
}

} // verus!
