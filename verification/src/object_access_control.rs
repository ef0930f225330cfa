//! Requests on the access-control entries of objects.

use crate::constants;
use crate::error::{Error, ErrorView};
use crate::google::storage::v1::{
    DeleteObjectAccessControlRequest, GetObjectAccessControlRequest,
    InsertObjectAccessControlRequest, ListObjectAccessControlsRequest,
    ListObjectAccessControlsResponse, ObjectAccessControl, UpdateObjectAccessControlRequest,
};
use crate::query::{scalar, Pair, PushIf, Query};
use crate::request::{
    default_scope, default_scope_spec, no_headers, Method, Payload, Request, Scope,
};
use crate::urls::{bucket_spec, then_named, then_object, then_segment, Url, UrlView};
use vstd::prelude::*;

verus! {

impl Query for InsertObjectAccessControlRequest {
    open spec fn query_spec(&self) -> Seq<Pair> {
        self.common_request_params.query_spec() + scalar(constants::GENERATION@, self.generation)
    }

    open spec fn fixed_spec() -> Seq<Pair> {
        Seq::empty()
    }

    open spec fn spent(&self) -> bool {
        self.common_request_params is None && self.generation == 0
    }

    open spec fn kept(&self, before: &Self) -> bool {
        &&& self.bucket == before.bucket
        &&& self.object == before.object
        &&& self.object_access_control == before.object_access_control
    }

    fn request_query(&mut self) -> (query: Vec<(&'static str, String)>) {
        let mut query = self.common_request_params.request_query();
        query.push_if(constants::GENERATION, &mut self.generation);
        proof {
            assert(self.query_spec() =~= Self::fixed_spec());
        }
        query
    }
}

impl Request for InsertObjectAccessControlRequest {
    type Response = ObjectAccessControl;

    open spec fn method_spec() -> Method {
        Method::Post
    }

    open spec fn scope_spec(&self) -> Seq<char> {
        Scope::FULL_CONTROL@
    }

    open spec fn path_spec(&self, base: UrlView) -> Result<UrlView, ErrorView> {
        then_segment(then_object(bucket_spec(base, self.bucket@), self.object@), "acl"@)
    }

    open spec fn headers_spec(&self) -> Seq<Pair> {
        Seq::empty()
    }

    fn request_method() -> (method: Method) {
        Method::Post
    }

    fn request_headers(&self) -> (headers: Vec<(String, String)>) {
        no_headers()
    }

    fn scope(&self) -> (scope: &'static str) {
        Scope::FULL_CONTROL
    }

    fn request_path(&self, base_url: Url) -> (path: Result<Url, Error>) {
        base_url.bucket(self.bucket.as_str())?.object(self.object.as_str())?.join_segment("acl")
    }
}

impl Payload for InsertObjectAccessControlRequest {
    type Body = ObjectAccessControl;

    open spec fn body_spec(&self) -> Option<Self::Body> {
        self.object_access_control
    }

    fn take_body(&mut self) -> (body: Option<Self::Body>)
        ensures
            *final(self) == (InsertObjectAccessControlRequest {
                object_access_control: None,
                ..*old(self)
            }),
    {
        self.object_access_control.take()
    }
}

impl Query for ListObjectAccessControlsRequest {
    open spec fn query_spec(&self) -> Seq<Pair> {
        self.common_request_params.query_spec() + scalar(constants::GENERATION@, self.generation)
    }

    open spec fn fixed_spec() -> Seq<Pair> {
        Seq::empty()
    }

    open spec fn spent(&self) -> bool {
        self.common_request_params is None && self.generation == 0
    }

    open spec fn kept(&self, before: &Self) -> bool {
        self.bucket == before.bucket && self.object == before.object
    }

    fn request_query(&mut self) -> (query: Vec<(&'static str, String)>) {
        let mut query = self.common_request_params.request_query();
        query.push_if(constants::GENERATION, &mut self.generation);
        proof {
            assert(self.query_spec() =~= Self::fixed_spec());
        }
        query
    }
}

impl Request for ListObjectAccessControlsRequest {
    type Response = ListObjectAccessControlsResponse;

    open spec fn method_spec() -> Method {
        Method::Get
    }

    open spec fn scope_spec(&self) -> Seq<char> {
        default_scope_spec(Method::Get)
    }

    open spec fn path_spec(&self, base: UrlView) -> Result<UrlView, ErrorView> {
        then_segment(then_object(bucket_spec(base, self.bucket@), self.object@), "acl"@)
    }

    open spec fn headers_spec(&self) -> Seq<Pair> {
        Seq::empty()
    }

    fn request_method() -> (method: Method) {
        Method::Get
    }

    fn request_headers(&self) -> (headers: Vec<(String, String)>) {
        no_headers()
    }

    fn scope(&self) -> (scope: &'static str) {
        default_scope(Method::Get)
    }

    fn request_path(&self, base_url: Url) -> (path: Result<Url, Error>) {
        base_url.bucket(self.bucket.as_str())?.object(self.object.as_str())?.join_segment("acl")
    }
}

impl Query for GetObjectAccessControlRequest {
    open spec fn query_spec(&self) -> Seq<Pair> {
        self.common_request_params.query_spec() + scalar(constants::GENERATION@, self.generation)
    }

    open spec fn fixed_spec() -> Seq<Pair> {
        Seq::empty()
    }

    open spec fn spent(&self) -> bool {
        self.common_request_params is None && self.generation == 0
    }

    open spec fn kept(&self, before: &Self) -> bool {
        self.bucket == before.bucket && self.entity == before.entity && self.object == before.object
    }

    fn request_query(&mut self) -> (query: Vec<(&'static str, String)>) {
        let mut query = self.common_request_params.request_query();
        query.push_if(constants::GENERATION, &mut self.generation);
        proof {
            assert(self.query_spec() =~= Self::fixed_spec());
        }
        query
    }
}

impl Request for GetObjectAccessControlRequest {
    type Response = ObjectAccessControl;

    open spec fn method_spec() -> Method {
        Method::Get
    }

    open spec fn scope_spec(&self) -> Seq<char> {
        default_scope_spec(Method::Get)
    }

    open spec fn path_spec(&self, base: UrlView) -> Result<UrlView, ErrorView> {
        then_named(
            then_segment(then_object(bucket_spec(base, self.bucket@), self.object@), "acl"@),
            self.entity@,
        )
    }

    open spec fn headers_spec(&self) -> Seq<Pair> {
        Seq::empty()
    }

    fn request_method() -> (method: Method) {
        Method::Get
    }

    fn request_headers(&self) -> (headers: Vec<(String, String)>) {
        no_headers()
    }

    fn scope(&self) -> (scope: &'static str) {
        default_scope(Method::Get)
    }

    fn request_path(&self, base_url: Url) -> (path: Result<Url, Error>) {
        base_url
            .bucket(self.bucket.as_str())?
            .object(self.object.as_str())?
            .join_segment("acl")?
            .named(self.entity.as_str())
    }
}

impl Query for UpdateObjectAccessControlRequest {
    open spec fn query_spec(&self) -> Seq<Pair> {
        self.common_request_params.query_spec() + scalar(constants::GENERATION@, self.generation)
    }

    open spec fn fixed_spec() -> Seq<Pair> {
        Seq::empty()
    }

    open spec fn spent(&self) -> bool {
        self.common_request_params is None && self.generation == 0
    }

    open spec fn kept(&self, before: &Self) -> bool {
        &&& self.bucket == before.bucket
        &&& self.entity == before.entity
        &&& self.object == before.object
        &&& self.object_access_control == before.object_access_control
    }

    fn request_query(&mut self) -> (query: Vec<(&'static str, String)>) {
        let mut query = self.common_request_params.request_query();
        query.push_if(constants::GENERATION, &mut self.generation);
        proof {
            assert(self.query_spec() =~= Self::fixed_spec());
        }
        query
    }
}

impl Request for UpdateObjectAccessControlRequest {
    type Response = ObjectAccessControl;

    open spec fn method_spec() -> Method {
        Method::Put
    }

    open spec fn scope_spec(&self) -> Seq<char> {
        Scope::FULL_CONTROL@
    }

    open spec fn path_spec(&self, base: UrlView) -> Result<UrlView, ErrorView> {
        then_named(
            then_segment(then_object(bucket_spec(base, self.bucket@), self.object@), "acl"@),
            self.entity@,
        )
    }

    open spec fn headers_spec(&self) -> Seq<Pair> {
        Seq::empty()
    }

    fn request_method() -> (method: Method) {
        Method::Put
    }

    fn request_headers(&self) -> (headers: Vec<(String, String)>) {
        no_headers()
    }

    fn scope(&self) -> (scope: &'static str) {
        Scope::FULL_CONTROL
    }

    fn request_path(&self, base_url: Url) -> (path: Result<Url, Error>) {
        base_url
            .bucket(self.bucket.as_str())?
            .object(self.object.as_str())?
            .join_segment("acl")?
            .named(self.entity.as_str())
    }
}

impl Payload for UpdateObjectAccessControlRequest {
    type Body = ObjectAccessControl;

    open spec fn body_spec(&self) -> Option<Self::Body> {
        self.object_access_control
    }

    fn take_body(&mut self) -> (body: Option<Self::Body>)
        ensures
            *final(self) == (UpdateObjectAccessControlRequest {
                object_access_control: None,
                ..*old(self)
            }),
    {
        self.object_access_control.take()
    }
}

impl Query for DeleteObjectAccessControlRequest {
    open spec fn query_spec(&self) -> Seq<Pair> {
        self.common_request_params.query_spec() + scalar(constants::GENERATION@, self.generation)
    }

    open spec fn fixed_spec() -> Seq<Pair> {
        Seq::empty()
    }

    open spec fn spent(&self) -> bool {
        self.common_request_params is None && self.generation == 0
    }

    open spec fn kept(&self, before: &Self) -> bool {
        self.bucket == before.bucket && self.entity == before.entity && self.object == before.object
    }

    fn request_query(&mut self) -> (query: Vec<(&'static str, String)>) {
        let mut query = self.common_request_params.request_query();
        query.push_if(constants::GENERATION, &mut self.generation);
        proof {
            assert(self.query_spec() =~= Self::fixed_spec());
        }
        query
    }
}

impl Request for DeleteObjectAccessControlRequest {
    type Response = ();

    open spec fn method_spec() -> Method {
        Method::Delete
    }

    open spec fn scope_spec(&self) -> Seq<char> {
        Scope::FULL_CONTROL@
    }

    open spec fn path_spec(&self, base: UrlView) -> Result<UrlView, ErrorView> {
        then_named(
            then_segment(then_object(bucket_spec(base, self.bucket@), self.object@), "acl"@),
            self.entity@,
        )
    }

    open spec fn headers_spec(&self) -> Seq<Pair> {
        Seq::empty()
    }

    fn request_method() -> (method: Method) {
        Method::Delete
    }

    fn request_headers(&self) -> (headers: Vec<(String, String)>) {
        no_headers()
    }

    fn scope(&self) -> (scope: &'static str) {
        Scope::FULL_CONTROL
    }

    fn request_path(&self, base_url: Url) -> (path: Result<Url, Error>) {
        base_url
            .bucket(self.bucket.as_str())?
            .object(self.object.as_str())?
            .join_segment("acl")?
            .named(self.entity.as_str())
    }
}

} // verus!
