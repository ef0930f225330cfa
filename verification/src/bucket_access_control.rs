//! Requests on the access-control entries of buckets.

use crate::client::{bucket_url, bucket_url_spec};
use crate::error::{Error, ErrorView};
use crate::google::storage::v1::{
    BucketAccessControl, DeleteBucketAccessControlRequest, GetBucketAccessControlRequest,
    InsertBucketAccessControlRequest, ListBucketAccessControlsRequest,
    ListBucketAccessControlsResponse, UpdateBucketAccessControlRequest,
};
use crate::query::{Pair, Query};
use crate::request::{
    default_scope, default_scope_spec, no_headers, Method, Payload, Request, Scope,
};
use crate::urls::{then_named, then_segment, Url, UrlView};
use vstd::prelude::*;

verus! {

impl Query for InsertBucketAccessControlRequest {
    open spec fn query_spec(&self) -> Seq<Pair> {
        self.common_request_params.query_spec()
    }

    open spec fn fixed_spec() -> Seq<Pair> {
        Seq::empty()
    }

    open spec fn spent(&self) -> bool {
        self.common_request_params is None
    }

    open spec fn kept(&self, before: &Self) -> bool {
        self.bucket == before.bucket && self.bucket_access_control == before.bucket_access_control
    }

    fn request_query(&mut self) -> (query: Vec<(&'static str, String)>) {
        let mut query = self.common_request_params.request_query();
        proof {
            assert(self.query_spec() =~= Self::fixed_spec());
        }
        query
    }
}

impl Request for InsertBucketAccessControlRequest {
    type Response = BucketAccessControl;

    open spec fn method_spec() -> Method {
        Method::Post
    }

    open spec fn scope_spec(&self) -> Seq<char> {
        Scope::FULL_CONTROL@
    }

    open spec fn path_spec(&self, base: UrlView) -> Result<UrlView, ErrorView> {
        then_segment(bucket_url_spec(base, self.bucket@), "acl"@)
    }

    open spec fn headers_spec(&self) -> Seq<Pair> {
        Seq::empty()
    }

    fn request_method() -> (method: Method) {
        Method::Post
    }

    fn request_headers(&self) -> (headers: Vec<(String, String)>) {
        no_headers()
    }

    fn scope(&self) -> (scope: &'static str) {
        Scope::FULL_CONTROL
    }

    fn request_path(&self, base_url: Url) -> (path: Result<Url, Error>) {
        bucket_url(&base_url, self.bucket.as_str())?.join_segment("acl")
    }
}

impl Payload for InsertBucketAccessControlRequest {
    type Body = BucketAccessControl;

    open spec fn body_spec(&self) -> Option<Self::Body> {
        self.bucket_access_control
    }

    fn take_body(&mut self) -> (body: Option<Self::Body>)
        ensures
            *final(self) == (InsertBucketAccessControlRequest {
                bucket_access_control: None,
                ..*old(self)
            }),
    {
        self.bucket_access_control.take()
    }
}

impl Query for GetBucketAccessControlRequest {
    open spec fn query_spec(&self) -> Seq<Pair> {
        self.common_request_params.query_spec()
    }

    open spec fn fixed_spec() -> Seq<Pair> {
        Seq::empty()
    }

    open spec fn spent(&self) -> bool {
        self.common_request_params is None
    }

    open spec fn kept(&self, before: &Self) -> bool {
        self.bucket == before.bucket && self.entity == before.entity
    }

    fn request_query(&mut self) -> (query: Vec<(&'static str, String)>) {
        let mut query = self.common_request_params.request_query();
        proof {
            assert(self.query_spec() =~= Self::fixed_spec());
        }
        query
    }
}

impl Request for GetBucketAccessControlRequest {
    type Response = BucketAccessControl;

    open spec fn method_spec() -> Method {
        Method::Get
    }

    open spec fn scope_spec(&self) -> Seq<char> {
        default_scope_spec(Method::Get)
    }

    open spec fn path_spec(&self, base: UrlView) -> Result<UrlView, ErrorView> {
        then_named(then_segment(bucket_url_spec(base, self.bucket@), "acl"@), self.entity@)
    }

    open spec fn headers_spec(&self) -> Seq<Pair> {
        Seq::empty()
    }

    fn request_method() -> (method: Method) {
        Method::Get
    }

    fn request_headers(&self) -> (headers: Vec<(String, String)>) {
        no_headers()
    }

    fn scope(&self) -> (scope: &'static str) {
        default_scope(Method::Get)
    }

    fn request_path(&self, base_url: Url) -> (path: Result<Url, Error>) {
        bucket_url(&base_url, self.bucket.as_str())?
            .join_segment("acl")?
            .named(self.entity.as_str())
    }
}

impl Query for UpdateBucketAccessControlRequest {
    open spec fn query_spec(&self) -> Seq<Pair> {
        self.common_request_params.query_spec()
    }

    open spec fn fixed_spec() -> Seq<Pair> {
        Seq::empty()
    }

    open spec fn spent(&self) -> bool {
        self.common_request_params is None
    }

    open spec fn kept(&self, before: &Self) -> bool {
        &&& self.bucket == before.bucket
        &&& self.entity == before.entity
        &&& self.bucket_access_control == before.bucket_access_control
    }

    fn request_query(&mut self) -> (query: Vec<(&'static str, String)>) {
        let mut query = self.common_request_params.request_query();
        proof {
            assert(self.query_spec() =~= Self::fixed_spec());
        }
        query
    }
}

impl Request for UpdateBucketAccessControlRequest {
    type Response = BucketAccessControl;

    open spec fn method_spec() -> Method {
        Method::Put
    }

    open spec fn scope_spec(&self) -> Seq<char> {
        Scope::FULL_CONTROL@
    }

    open spec fn path_spec(&self, base: UrlView) -> Result<UrlView, ErrorView> {
        then_named(then_segment(bucket_url_spec(base, self.bucket@), "acl"@), self.entity@)
    }

    open spec fn headers_spec(&self) -> Seq<Pair> {
        Seq::empty()
    }

    fn request_method() -> (method: Method) {
        Method::Put
    }

    fn request_headers(&self) -> (headers: Vec<(String, String)>) {
        no_headers()
    }

    fn scope(&self) -> (scope: &'static str) {
        Scope::FULL_CONTROL
    }

    fn request_path(&self, base_url: Url) -> (path: Result<Url, Error>) {
        bucket_url(&base_url, self.bucket.as_str())?
            .join_segment("acl")?
            .named(self.entity.as_str())
    }
}

impl Payload for UpdateBucketAccessControlRequest {
    type Body = BucketAccessControl;

    open spec fn body_spec(&self) -> Option<Self::Body> {
        self.bucket_access_control
    }

    fn take_body(&mut self) -> (body: Option<Self::Body>)
        ensures
            *final(self) == (UpdateBucketAccessControlRequest {
                bucket_access_control: None,
                ..*old(self)
            }),
    {
        self.bucket_access_control.take()
    }
}

impl Query for DeleteBucketAccessControlRequest {
    open spec fn query_spec(&self) -> Seq<Pair> {
        self.common_request_params.query_spec()
    }

    open spec fn fixed_spec() -> Seq<Pair> {
        Seq::empty()
    }

    open spec fn spent(&self) -> bool {
        self.common_request_params is None
    }

    open spec fn kept(&self, before: &Self) -> bool {
        self.bucket == before.bucket && self.entity == before.entity
    }

    fn request_query(&mut self) -> (query: Vec<(&'static str, String)>) {
        let mut query = self.common_request_params.request_query();
        proof {
            assert(self.query_spec() =~= Self::fixed_spec());
        }
        query
    }
}

impl Request for DeleteBucketAccessControlRequest {
    type Response = ();

    open spec fn method_spec() -> Method {
        Method::Delete
    }

    open spec fn scope_spec(&self) -> Seq<char> {
        Scope::FULL_CONTROL@
    }

    open spec fn path_spec(&self, base: UrlView) -> Result<UrlView, ErrorView> {
        then_named(then_segment(bucket_url_spec(base, self.bucket@), "acl"@), self.entity@)
    }

    open spec fn headers_spec(&self) -> Seq<Pair> {
        Seq::empty()
    }

    fn request_method() -> (method: Method) {
        Method::Delete
    }

    fn request_headers(&self) -> (headers: Vec<(String, String)>) {
        no_headers()
    }

    fn scope(&self) -> (scope: &'static str) {
        Scope::FULL_CONTROL
    }

    fn request_path(&self, base_url: Url) -> (path: Result<Url, Error>) {
        bucket_url(&base_url, self.bucket.as_str())?
            .join_segment("acl")?
            .named(self.entity.as_str())
    }
}

impl Query for ListBucketAccessControlsRequest {
    open spec fn query_spec(&self) -> Seq<Pair> {
        self.common_request_params.query_spec()
    }

    open spec fn fixed_spec() -> Seq<Pair> {
        Seq::empty()
    }

    open spec fn spent(&self) -> bool {
        self.common_request_params is None
    }

    open spec fn kept(&self, before: &Self) -> bool {
        self.bucket == before.bucket
    }

    fn request_query(&mut self) -> (query: Vec<(&'static str, String)>) {
        let mut query = self.common_request_params.request_query();
        proof {
            assert(self.query_spec() =~= Self::fixed_spec());
        }
        query
    }
}

impl Request for ListBucketAccessControlsRequest {
    type Response = ListBucketAccessControlsResponse;

    open spec fn method_spec() -> Method {
        Method::Get
    }

    open spec fn scope_spec(&self) -> Seq<char> {
        default_scope_spec(Method::Get)
    }

    open spec fn path_spec(&self, base: UrlView) -> Result<UrlView, ErrorView> {
        then_segment(bucket_url_spec(base, self.bucket@), "acl"@)
    }

    open spec fn headers_spec(&self) -> Seq<Pair> {
        Seq::empty()
    }

    fn request_method() -> (method: Method) {
        Method::Get
    }

    fn request_headers(&self) -> (headers: Vec<(String, String)>) {
        no_headers()
    }

    fn scope(&self) -> (scope: &'static str) {
        default_scope(Method::Get)
    }

    fn request_path(&self, base_url: Url) -> (path: Result<Url, Error>) {
        bucket_url(&base_url, self.bucket.as_str())?.join_segment("acl")
    }
}

} // verus!
