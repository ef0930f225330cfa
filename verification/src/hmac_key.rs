//! Requests on HMAC keys.

use crate::constants;
use crate::error::{Error, ErrorView};
use crate::google::storage::v1::{
    clone_params, same_params, CreateHmacKeyRequest, CreateHmacKeyResponse, DeleteHmacKeyRequest,
    GetHmacKeyRequest, HmacKeyMetadata, ListHmacKeysRequest, ListHmacKeysResponse,
    UpdateHmacKeyRequest,
};
use crate::paginate::Paginate;
use crate::query::{scalar, Pair, PushIf, Query};
use crate::request::{
    default_scope, default_scope_spec, no_headers, Method, Payload, Request, Scope,
};
use crate::urls::{join_segment_spec, then_named, then_segment, Url, UrlView};
use vstd::prelude::*;

verus! {

impl Query for CreateHmacKeyRequest {
    open spec fn query_spec(&self) -> Seq<Pair> {
        self.common_request_params.query_spec()
            + scalar(constants::SERVICE_ACCOUNT_EMAIL@, self.service_account_email)
    }

    open spec fn fixed_spec() -> Seq<Pair> {
        Seq::empty()
    }

    open spec fn spent(&self) -> bool {
        self.common_request_params is None && self.service_account_email@.len() == 0
    }

    open spec fn kept(&self, before: &Self) -> bool {
        self.project_id == before.project_id
    }

    fn request_query(&mut self) -> (query: Vec<(&'static str, String)>) {
        let mut query = self.common_request_params.request_query();
        query.push_if(constants::SERVICE_ACCOUNT_EMAIL, &mut self.service_account_email);
        proof {
            assert(self.query_spec() =~= Self::fixed_spec());
        }
        query
    }
}

impl Request for CreateHmacKeyRequest {
    type Response = CreateHmacKeyResponse;

    open spec fn method_spec() -> Method {
        Method::Post
    }

    open spec fn scope_spec(&self) -> Seq<char> {
        Scope::FULL_CONTROL@
    }

    open spec fn path_spec(&self, base: UrlView) -> Result<UrlView, ErrorView> {
        then_segment(
            then_named(join_segment_spec(base, "projects"@), self.project_id@),
            "hmacKeys"@,
        )
    }

    open spec fn headers_spec(&self) -> Seq<Pair> {
        Seq::empty()
    }

    fn request_method() -> (method: Method) {
        Method::Post
    }

    fn request_headers(&self) -> (headers: Vec<(String, String)>) {
        no_headers()
    }

    fn scope(&self) -> (scope: &'static str) {
        Scope::FULL_CONTROL
    }

    fn request_path(&self, base_url: Url) -> (path: Result<Url, Error>) {
        base_url.join_segment("projects")?.named(self.project_id.as_str())?.join_segment("hmacKeys")
    }
}

impl Query for ListHmacKeysRequest {
    open spec fn query_spec(&self) -> Seq<Pair> {
        self.common_request_params.query_spec()
            + scalar(constants::MAX_RESULTS@, self.max_results)
            + scalar(constants::PAGE_TOKEN@, self.page_token)
            + scalar(constants::SERVICE_ACCOUNT_EMAIL@, self.service_account_email)
            + scalar(constants::SHOW_DELETED_KEYS@, self.show_deleted_keys)
    }

    open spec fn fixed_spec() -> Seq<Pair> {
        Seq::empty()
    }

    open spec fn spent(&self) -> bool {
        &&& self.common_request_params is None
        &&& self.max_results == 0
        &&& self.page_token@.len() == 0
        &&& self.service_account_email@.len() == 0
        &&& !self.show_deleted_keys
    }

    open spec fn kept(&self, before: &Self) -> bool {
        self.project_id == before.project_id
    }

    fn request_query(&mut self) -> (query: Vec<(&'static str, String)>) {
        let mut query = self.common_request_params.request_query();
        query.push_if(constants::MAX_RESULTS, &mut self.max_results);
        query.push_if(constants::PAGE_TOKEN, &mut self.page_token);
        query.push_if(constants::SERVICE_ACCOUNT_EMAIL, &mut self.service_account_email);
        query.push_if(constants::SHOW_DELETED_KEYS, &mut self.show_deleted_keys);
        proof {
            assert(self.query_spec() =~= Self::fixed_spec());
        }
        query
    }
}

impl Request for ListHmacKeysRequest {
    type Response = ListHmacKeysResponse;

    open spec fn method_spec() -> Method {
        Method::Get
    }

    open spec fn scope_spec(&self) -> Seq<char> {
        default_scope_spec(Method::Get)
    }

    open spec fn path_spec(&self, base: UrlView) -> Result<UrlView, ErrorView> {
        then_segment(
            then_named(join_segment_spec(base, "projects"@), self.project_id@),
            "hmacKeys"@,
        )
    }

    open spec fn headers_spec(&self) -> Seq<Pair> {
        Seq::empty()
    }

    fn request_method() -> (method: Method) {
        Method::Get
    }

    fn request_headers(&self) -> (headers: Vec<(String, String)>) {
        no_headers()
    }

    fn scope(&self) -> (scope: &'static str) {
        default_scope(Method::Get)
    }

    fn request_path(&self, base_url: Url) -> (path: Result<Url, Error>) {
        base_url.join_segment("projects")?.named(self.project_id.as_str())?.join_segment("hmacKeys")
    }
}

impl Clone for ListHmacKeysRequest {
    fn clone(&self) -> (copy: Self)
        ensures
            copy.same(self),
    {
        ListHmacKeysRequest {
            project_id: self.project_id.clone(),
            service_account_email: self.service_account_email.clone(),
            show_deleted_keys: self.show_deleted_keys,
            max_results: self.max_results,
            page_token: self.page_token.clone(),
            common_request_params: clone_params(&self.common_request_params),
        }
    }
}

impl Paginate for ListHmacKeysRequest {
    type Item = HmacKeyMetadata;

    open spec fn items_spec(response: Self::Response) -> Seq<Self::Item> {
        response.items@
    }

    open spec fn token_spec(response: &Self::Response) -> Seq<char> {
        response.next_page_token@
    }

    open spec fn next_spec(self, response: &Self::Response) -> Self {
        ListHmacKeysRequest { page_token: response.next_page_token, ..self }
    }

    open spec fn same(&self, other: &Self) -> bool {
        &&& self.project_id@ == other.project_id@
        &&& self.service_account_email@ == other.service_account_email@
        &&& self.show_deleted_keys == other.show_deleted_keys
        &&& self.max_results == other.max_results
        &&& self.page_token@ == other.page_token@
        &&& same_params(self.common_request_params, other.common_request_params)
    }

    proof fn copy_is_same(&self, copy: &Self) {
    }

    proof fn next_of_same(self, other: Self, response: &Self::Response) {
    }

    fn extract_items(response: Self::Response) -> (items: Vec<Self::Item>) {
        response.items
    }

    fn into_request(self, response: &Self::Response) -> (next: Option<Self>) {
        if response.next_page_token.as_str().is_empty() {
            None
        } else {
            Some(ListHmacKeysRequest { page_token: response.next_page_token.clone(), ..self })
        }
    }
}

impl Query for GetHmacKeyRequest {
    open spec fn query_spec(&self) -> Seq<Pair> {
        self.common_request_params.query_spec()
    }

    open spec fn fixed_spec() -> Seq<Pair> {
        Seq::empty()
    }

    open spec fn spent(&self) -> bool {
        self.common_request_params is None
    }

    open spec fn kept(&self, before: &Self) -> bool {
        self.access_id == before.access_id && self.project_id == before.project_id
    }

    fn request_query(&mut self) -> (query: Vec<(&'static str, String)>) {
        let mut query = self.common_request_params.request_query();
        proof {
            assert(self.query_spec() =~= Self::fixed_spec());
        }
        query
    }
}

impl Request for GetHmacKeyRequest {
    type Response = HmacKeyMetadata;

    open spec fn method_spec() -> Method {
        Method::Get
    }

    open spec fn scope_spec(&self) -> Seq<char> {
        default_scope_spec(Method::Get)
    }

    open spec fn path_spec(&self, base: UrlView) -> Result<UrlView, ErrorView> {
        then_named(
            then_segment(
                then_named(join_segment_spec(base, "projects"@), self.project_id@),
                "hmacKeys"@,
            ),
            self.access_id@,
        )
    }

    open spec fn headers_spec(&self) -> Seq<Pair> {
        Seq::empty()
    }

    fn request_method() -> (method: Method) {
        Method::Get
    }

    fn request_headers(&self) -> (headers: Vec<(String, String)>) {
        no_headers()
    }

    fn scope(&self) -> (scope: &'static str) {
        default_scope(Method::Get)
    }

    fn request_path(&self, base_url: Url) -> (path: Result<Url, Error>) {
        base_url
            .join_segment("projects")?
            .named(self.project_id.as_str())?
            .join_segment("hmacKeys")?
            .named(self.access_id.as_str())
    }
}

impl Query for UpdateHmacKeyRequest {
    open spec fn query_spec(&self) -> Seq<Pair> {
        self.common_request_params.query_spec()
    }

    open spec fn fixed_spec() -> Seq<Pair> {
        Seq::empty()
    }

    open spec fn spent(&self) -> bool {
        self.common_request_params is None
    }

    open spec fn kept(&self, before: &Self) -> bool {
        &&& self.access_id == before.access_id
        &&& self.project_id == before.project_id
        &&& self.metadata == before.metadata
    }

    fn request_query(&mut self) -> (query: Vec<(&'static str, String)>) {
        let mut query = self.common_request_params.request_query();
        proof {
            assert(self.query_spec() =~= Self::fixed_spec());
        }
        query
    }
}

impl Request for UpdateHmacKeyRequest {
    type Response = HmacKeyMetadata;

    open spec fn method_spec() -> Method {
        Method::Put
    }

    open spec fn scope_spec(&self) -> Seq<char> {
        Scope::FULL_CONTROL@
    }

    open spec fn path_spec(&self, base: UrlView) -> Result<UrlView, ErrorView> {
        then_named(
            then_segment(
                then_named(join_segment_spec(base, "projects"@), self.project_id@),
                "hmacKeys"@,
            ),
            self.access_id@,
        )
    }

    open spec fn headers_spec(&self) -> Seq<Pair> {
        Seq::empty()
    }

    fn request_method() -> (method: Method) {
        Method::Put
    }

    fn request_headers(&self) -> (headers: Vec<(String, String)>) {
        no_headers()
    }

    fn scope(&self) -> (scope: &'static str) {
        Scope::FULL_CONTROL
    }

    fn request_path(&self, base_url: Url) -> (path: Result<Url, Error>) {
        base_url
            .join_segment("projects")?
            .named(self.project_id.as_str())?
            .join_segment("hmacKeys")?
            .named(self.access_id.as_str())
    }
}

impl Payload for UpdateHmacKeyRequest {
    type Body = HmacKeyMetadata;

    open spec fn body_spec(&self) -> Option<Self::Body> {
        self.metadata
    }

    fn take_body(&mut self) -> (body: Option<Self::Body>)
        ensures
            *final(self) == (UpdateHmacKeyRequest { metadata: None, ..*old(self) }),
    {
        self.metadata.take()
    }
}

impl Query for DeleteHmacKeyRequest {
    open spec fn query_spec(&self) -> Seq<Pair> {
        self.common_request_params.query_spec()
    }

    open spec fn fixed_spec() -> Seq<Pair> {
        Seq::empty()
    }

    open spec fn spent(&self) -> bool {
        self.common_request_params is None
    }

    open spec fn kept(&self, before: &Self) -> bool {
        self.access_id == before.access_id && self.project_id == before.project_id
    }

    fn request_query(&mut self) -> (query: Vec<(&'static str, String)>) {
        let mut query = self.common_request_params.request_query();
        proof {
            assert(self.query_spec() =~= Self::fixed_spec());
        }
        query
    }
}

impl Request for DeleteHmacKeyRequest {
    type Response = ();

    open spec fn method_spec() -> Method {
        Method::Delete
    }

    open spec fn scope_spec(&self) -> Seq<char> {
        Scope::FULL_CONTROL@
    }

    open spec fn path_spec(&self, base: UrlView) -> Result<UrlView, ErrorView> {
        then_named(
            then_segment(
                then_named(join_segment_spec(base, "projects"@), self.project_id@),
                "hmacKeys"@,
            ),
            self.access_id@,
        )
    }

    open spec fn headers_spec(&self) -> Seq<Pair> {
        Seq::empty()
    }

    fn request_method() -> (method: Method) {
        Method::Delete
    }

    fn request_headers(&self) -> (headers: Vec<(String, String)>) {
        no_headers()
    }

    fn scope(&self) -> (scope: &'static str) {
        Scope::FULL_CONTROL
    }

    fn request_path(&self, base_url: Url) -> (path: Result<Url, Error>) {
        base_url
            .join_segment("projects")?
            .named(self.project_id.as_str())?
            .join_segment("hmacKeys")?
            .named(self.access_id.as_str())
    }
}

} // verus!
