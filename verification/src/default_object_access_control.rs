//! Requests on the default object access-control entries of buckets.

use crate::constants;
use crate::error::{Error, ErrorView};
use crate::google::storage::v1::{
    DeleteDefaultObjectAccessControlRequest, GetDefaultObjectAccessControlRequest,
    InsertDefaultObjectAccessControlRequest, ListDefaultObjectAccessControlsRequest,
    ListObjectAccessControlsResponse, ObjectAccessControl, UpdateDefaultObjectAccessControlRequest,
};
use crate::query::{optional, Pair, PushIf, Query};
use crate::request::{
    default_scope, default_scope_spec, no_headers, Method, Payload, Request, Scope,
};
use crate::urls::{bucket_spec, then_named, then_segment, Url, UrlView};
use vstd::prelude::*;

verus! {

impl Query for InsertDefaultObjectAccessControlRequest {
    open spec fn query_spec(&self) -> Seq<Pair> {
        self.common_request_params.query_spec()
    }

    open spec fn fixed_spec() -> Seq<Pair> {
        Seq::empty()
    }

    open spec fn spent(&self) -> bool {
        self.common_request_params is None
    }

    open spec fn kept(&self, before: &Self) -> bool {
        self.bucket == before.bucket && self.object_access_control == before.object_access_control
    }

    fn request_query(&mut self) -> (query: Vec<(&'static str, String)>) {
        let mut query = self.common_request_params.request_query();
        proof {
            assert(self.query_spec() =~= Self::fixed_spec());
        }
        query
    }
}

impl Request for InsertDefaultObjectAccessControlRequest {
    type Response = ObjectAccessControl;

    open spec fn method_spec() -> Method {
        Method::Post
    }

    open spec fn scope_spec(&self) -> Seq<char> {
        Scope::FULL_CONTROL@
    }

    open spec fn path_spec(&self, base: UrlView) -> Result<UrlView, ErrorView> {
        then_segment(bucket_spec(base, self.bucket@), "defaultObjectAcl"@)
    }

    open spec fn headers_spec(&self) -> Seq<Pair> {
        Seq::empty()
    }

    fn request_method() -> (method: Method) {
        Method::Post
    }

    fn request_headers(&self) -> (headers: Vec<(String, String)>) {
        no_headers()
    }

    fn scope(&self) -> (scope: &'static str) {
        Scope::FULL_CONTROL
    }

    fn request_path(&self, base_url: Url) -> (path: Result<Url, Error>) {
        base_url.bucket(self.bucket.as_str())?.join_segment("defaultObjectAcl")
    }
}

impl Payload for InsertDefaultObjectAccessControlRequest {
    type Body = ObjectAccessControl;

    open spec fn body_spec(&self) -> Option<Self::Body> {
        self.object_access_control
    }

    fn take_body(&mut self) -> (body: Option<Self::Body>)
        ensures
            *final(self) == (InsertDefaultObjectAccessControlRequest {
                object_access_control: None,
                ..*old(self)
            }),
    {
        self.object_access_control.take()
    }
}

impl Query for ListDefaultObjectAccessControlsRequest {
    open spec fn query_spec(&self) -> Seq<Pair> {
        self.common_request_params.query_spec()
            + optional(constants::IF_METAGENERATION_MATCH@, self.if_metageneration_match)
            + optional(constants::IF_METAGENERATION_NOT_MATCH@, self.if_metageneration_not_match)
    }

    open spec fn fixed_spec() -> Seq<Pair> {
        Seq::empty()
    }

    open spec fn spent(&self) -> bool {
        &&& self.common_request_params is None
        &&& self.if_metageneration_match is None
        &&& self.if_metageneration_not_match is None
    }

    open spec fn kept(&self, before: &Self) -> bool {
        self.bucket == before.bucket
    }

    fn request_query(&mut self) -> (query: Vec<(&'static str, String)>) {
        let mut query = self.common_request_params.request_query();
        query.push_if_opt(constants::IF_METAGENERATION_MATCH, &mut self.if_metageneration_match);
        query.push_if_opt(
            constants::IF_METAGENERATION_NOT_MATCH,
            &mut self.if_metageneration_not_match,
        );
        proof {
            assert(self.query_spec() =~= Self::fixed_spec());
        }
        query
    }
}

impl Request for ListDefaultObjectAccessControlsRequest {
    type Response = ListObjectAccessControlsResponse;

    open spec fn method_spec() -> Method {
        Method::Get
    }

    open spec fn scope_spec(&self) -> Seq<char> {
        default_scope_spec(Method::Get)
    }

    open spec fn path_spec(&self, base: UrlView) -> Result<UrlView, ErrorView> {
        then_segment(bucket_spec(base, self.bucket@), "defaultObjectAcl"@)
    }

    open spec fn headers_spec(&self) -> Seq<Pair> {
        Seq::empty()
    }

    fn request_method() -> (method: Method) {
        Method::Get
    }

    fn request_headers(&self) -> (headers: Vec<(String, String)>) {
        no_headers()
    }

    fn scope(&self) -> (scope: &'static str) {
        default_scope(Method::Get)
    }

    fn request_path(&self, base_url: Url) -> (path: Result<Url, Error>) {
        base_url.bucket(self.bucket.as_str())?.join_segment("defaultObjectAcl")
    }
}

impl Query for GetDefaultObjectAccessControlRequest {
    open spec fn query_spec(&self) -> Seq<Pair> {
        self.common_request_params.query_spec()
    }

    open spec fn fixed_spec() -> Seq<Pair> {
        Seq::empty()
    }

    open spec fn spent(&self) -> bool {
        self.common_request_params is None
    }

    open spec fn kept(&self, before: &Self) -> bool {
        self.bucket == before.bucket && self.entity == before.entity
    }

    fn request_query(&mut self) -> (query: Vec<(&'static str, String)>) {
        let mut query = self.common_request_params.request_query();
        proof {
            assert(self.query_spec() =~= Self::fixed_spec());
        }
        query
    }
}

impl Request for GetDefaultObjectAccessControlRequest {
    type Response = ObjectAccessControl;

    open spec fn method_spec() -> Method {
        Method::Get
    }

    open spec fn scope_spec(&self) -> Seq<char> {
        default_scope_spec(Method::Get)
    }

    open spec fn path_spec(&self, base: UrlView) -> Result<UrlView, ErrorView> {
        then_named(then_segment(bucket_spec(base, self.bucket@), "defaultObjectAcl"@), self.entity@)
    }

    open spec fn headers_spec(&self) -> Seq<Pair> {
        Seq::empty()
    }

    fn request_method() -> (method: Method) {
        Method::Get
    }

    fn request_headers(&self) -> (headers: Vec<(String, String)>) {
        no_headers()
    }

    fn scope(&self) -> (scope: &'static str) {
        default_scope(Method::Get)
    }

    fn request_path(&self, base_url: Url) -> (path: Result<Url, Error>) {
        base_url
            .bucket(self.bucket.as_str())?
            .join_segment("defaultObjectAcl")?
            .named(self.entity.as_str())
    }
}

impl Query for UpdateDefaultObjectAccessControlRequest {
    open spec fn query_spec(&self) -> Seq<Pair> {
        self.common_request_params.query_spec()
    }

    open spec fn fixed_spec() -> Seq<Pair> {
        Seq::empty()
    }

    open spec fn spent(&self) -> bool {
        self.common_request_params is None
    }

    open spec fn kept(&self, before: &Self) -> bool {
        &&& self.bucket == before.bucket
        &&& self.entity == before.entity
        &&& self.object_access_control == before.object_access_control
    }

    fn request_query(&mut self) -> (query: Vec<(&'static str, String)>) {
        let mut query = self.common_request_params.request_query();
        proof {
            assert(self.query_spec() =~= Self::fixed_spec());
        }
        query
    }
}

impl Request for UpdateDefaultObjectAccessControlRequest {
    type Response = ObjectAccessControl;

    open spec fn method_spec() -> Method {
        Method::Put
    }

    open spec fn scope_spec(&self) -> Seq<char> {
        Scope::FULL_CONTROL@
    }

    open spec fn path_spec(&self, base: UrlView) -> Result<UrlView, ErrorView> {
        then_named(then_segment(bucket_spec(base, self.bucket@), "defaultObjectAcl"@), self.entity@)
    }

    open spec fn headers_spec(&self) -> Seq<Pair> {
        Seq::empty()
    }

    fn request_method() -> (method: Method) {
        Method::Put
    }

    fn request_headers(&self) -> (headers: Vec<(String, String)>) {
        no_headers()
    }

    fn scope(&self) -> (scope: &'static str) {
        Scope::FULL_CONTROL
    }

    fn request_path(&self, base_url: Url) -> (path: Result<Url, Error>) {
        base_url
            .bucket(self.bucket.as_str())?
            .join_segment("defaultObjectAcl")?
            .named(self.entity.as_str())
    }
}

impl Payload for UpdateDefaultObjectAccessControlRequest {
    type Body = ObjectAccessControl;

    open spec fn body_spec(&self) -> Option<Self::Body> {
        self.object_access_control
    }

    fn take_body(&mut self) -> (body: Option<Self::Body>)
        ensures
            *final(self) == (UpdateDefaultObjectAccessControlRequest {
                object_access_control: None,
                ..*old(self)
            }),
    {
        self.object_access_control.take()
    }
}

impl Query for DeleteDefaultObjectAccessControlRequest {
    open spec fn query_spec(&self) -> Seq<Pair> {
        self.common_request_params.query_spec()
    }

    open spec fn fixed_spec() -> Seq<Pair> {
        Seq::empty()
    }

    open spec fn spent(&self) -> bool {
        self.common_request_params is None
    }

    open spec fn kept(&self, before: &Self) -> bool {
        self.bucket == before.bucket && self.entity == before.entity
    }

    fn request_query(&mut self) -> (query: Vec<(&'static str, String)>) {
        let mut query = self.common_request_params.request_query();
        proof {
            assert(self.query_spec() =~= Self::fixed_spec());
        }
        query
    }
}

impl Request for DeleteDefaultObjectAccessControlRequest {
    type Response = ();

    open spec fn method_spec() -> Method {
        Method::Delete
    }

    open spec fn scope_spec(&self) -> Seq<char> {
        Scope::FULL_CONTROL@
    }

    open spec fn path_spec(&self, base: UrlView) -> Result<UrlView, ErrorView> {
        then_named(then_segment(bucket_spec(base, self.bucket@), "defaultObjectAcl"@), self.entity@)
    }

    open spec fn headers_spec(&self) -> Seq<Pair> {
        Seq::empty()
    }

    fn request_method() -> (method: Method) {
        Method::Delete
    }

    fn request_headers(&self) -> (headers: Vec<(String, String)>) {
        no_headers()
    }

    fn scope(&self) -> (scope: &'static str) {
        Scope::FULL_CONTROL
    }

    fn request_path(&self, base_url: Url) -> (path: Result<Url, Error>) {
        base_url
            .bucket(self.bucket.as_str())?
            .join_segment("defaultObjectAcl")?
            .named(self.entity.as_str())
    }
}

} // verus!
