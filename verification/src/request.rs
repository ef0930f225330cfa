//! What every request tells the dispatcher: method, scope, target and headers.

use crate::error::{Error, ErrorView};
use crate::query::Query;
use crate::urls::{outcome, Url, UrlView};
use vstd::prelude::*;

verus! {

/// The HTTP method of a request.
#[derive(Clone, Copy, Debug, PartialEq, Eq, Structural)]
pub enum Method {
    Get,
    Post,
    Put,
    Delete,
}

impl Method {
    /// The method as it is written on the wire.
    pub fn as_str(self) -> (name: &'static str)
        ensures
            name@ == match self {
                Method::Get => "GET"@,
                Method::Post => "POST"@,
                Method::Put => "PUT"@,
                Method::Delete => "DELETE"@,
            },
    {
        match self {
            Method::Get => "GET",
            Method::Post => "POST",
            Method::Put => "PUT",
            Method::Delete => "DELETE",
        }
    }
}


/// The permission scopes that credentials are asked for.
pub struct Scope;

impl Scope {
    pub const READ_ONLY: &'static str = "https://www.googleapis.com/auth/devstorage.read_only";

    pub const READ_WRITE: &'static str = "https://www.googleapis.com/auth/devstorage.read_write";

    pub const FULL_CONTROL: &'static str =
        "https://www.googleapis.com/auth/devstorage.full_control";
}

/// The scope of a request that asks for no other: reading for `GET`, writing for the rest.
pub open spec fn default_scope_spec(method: Method) -> Seq<char> {
    if method == Method::Get {
        Scope::READ_ONLY@
    } else {
        Scope::READ_WRITE@
    }
}

/// The scope of a request that asks for no other.
pub fn default_scope(method: Method) -> (scope: &'static str)
    ensures
        scope@ == default_scope_spec(method),
{
    match method {
        Method::Get => Scope::READ_ONLY,
        _ => Scope::READ_WRITE,
    }
}

/// Headers in order, each by the text of its name and value.
pub open spec fn header_pairs(headers: Seq<(String, String)>) -> Seq<(Seq<char>, Seq<char>)> {
    Seq::new(headers.len(), |i: int| (headers[i].0@, headers[i].1@))
}

/// No headers.
pub fn no_headers() -> (headers: Vec<(String, String)>)
    ensures
        header_pairs(headers@) == Seq::<(Seq<char>, Seq<char>)>::empty(),
{
    let headers = Vec::new();
    assert(header_pairs(headers@) =~= Seq::<(Seq<char>, Seq<char>)>::empty());
    headers
}

/// A description of one call to the service.
pub trait Request: Query {
    /// What a successful call returns.
    type Response;

    /// The method, the same for every request of the type.
    spec fn method_spec() -> Method;

    /// The scope that the call needs.
    spec fn scope_spec(&self) -> Seq<char>;

    /// The target below `base`, or why there is none.
    spec fn path_spec(&self, base: UrlView) -> Result<UrlView, ErrorView>;

    /// The headers of the request itself, each by the text of its name and value.
    spec fn headers_spec(&self) -> Seq<(Seq<char>, Seq<char>)>;

    fn request_method() -> (method: Method)
        ensures
            method == Self::method_spec(),
    ;

    fn scope(&self) -> (scope: &'static str)
        ensures
            scope@ == self.scope_spec(),
    ;

    fn request_path(&self, base_url: Url) -> (path: Result<Url, Error>)
        ensures
            outcome(path) == self.path_spec(base_url@),
    ;

    /// Headers that the request carries besides those of the credentials.
    fn request_headers(&self) -> (headers: Vec<(String, String)>)
        ensures
            header_pairs(headers@) == self.headers_spec(),
    ;
}

/// A request one field of which travels in the body of the call, and nowhere else.
pub trait Payload: Request {
    /// What the body holds.
    type Body;

    /// What travels in the body; `None` where nothing is left to send.
    spec fn body_spec(&self) -> Option<Self::Body>;

    /// Moves what travels in the body out of the request. Scope, target and query
    /// are what they were, and a second call finds nothing.
    fn take_body(&mut self) -> (body: Option<Self::Body>)
        ensures
            body == old(self).body_spec(),
            final(self).body_spec() is None,
            final(self).query_spec() == old(self).query_spec(),
            final(self).scope_spec() == old(self).scope_spec(),
            forall|base: UrlView| #[trigger]
                final(self).path_spec(base) == old(self).path_spec(base),
    ;
}

} // verus!
