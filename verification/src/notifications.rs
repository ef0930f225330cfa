//! Requests on notification subscriptions.

use crate::error::{Error, ErrorView};
use crate::google::storage::v1::{
    DeleteNotificationRequest, GetNotificationRequest, InsertNotificationRequest,
    ListNotificationsRequest, ListNotificationsResponse, Notification,
};
use crate::query::{Pair, Query};
use crate::request::{default_scope, default_scope_spec, no_headers, Method, Payload, Request};
use crate::urls::{bucket_spec, then_named, then_segment, Url, UrlView};
use vstd::prelude::*;

verus! {

impl Query for DeleteNotificationRequest {
    open spec fn query_spec(&self) -> Seq<Pair> {
        self.common_request_params.query_spec()
    }

    open spec fn fixed_spec() -> Seq<Pair> {
        Seq::empty()
    }

    open spec fn spent(&self) -> bool {
        self.common_request_params is None
    }

    open spec fn kept(&self, before: &Self) -> bool {
        self.bucket == before.bucket && self.notification == before.notification
    }

    fn request_query(&mut self) -> (query: Vec<(&'static str, String)>) {
        let mut query = self.common_request_params.request_query();
        proof {
            assert(self.query_spec() =~= Self::fixed_spec());
        }
        query
    }
}

impl Request for DeleteNotificationRequest {
    type Response = ();

    open spec fn method_spec() -> Method {
        Method::Delete
    }

    open spec fn scope_spec(&self) -> Seq<char> {
        default_scope_spec(Method::Delete)
    }

    open spec fn path_spec(&self, base: UrlView) -> Result<UrlView, ErrorView> {
        then_named(
            then_segment(bucket_spec(base, self.bucket@), "notificationConfigs"@),
            self.notification@,
        )
    }

    open spec fn headers_spec(&self) -> Seq<Pair> {
        Seq::empty()
    }

    fn request_method() -> (method: Method) {
        Method::Delete
    }

    fn request_headers(&self) -> (headers: Vec<(String, String)>) {
        no_headers()
    }

    fn scope(&self) -> (scope: &'static str) {
        default_scope(Method::Delete)
    }

    fn request_path(&self, base_url: Url) -> (path: Result<Url, Error>) {
        base_url
            .bucket(self.bucket.as_str())?
            .join_segment("notificationConfigs")?
            .named(self.notification.as_str())
    }
}

impl Query for GetNotificationRequest {
    open spec fn query_spec(&self) -> Seq<Pair> {
        self.common_request_params.query_spec()
    }

    open spec fn fixed_spec() -> Seq<Pair> {
        Seq::empty()
    }

    open spec fn spent(&self) -> bool {
        self.common_request_params is None
    }

    open spec fn kept(&self, before: &Self) -> bool {
        self.bucket == before.bucket && self.notification == before.notification
    }

    fn request_query(&mut self) -> (query: Vec<(&'static str, String)>) {
        let mut query = self.common_request_params.request_query();
        proof {
            assert(self.query_spec() =~= Self::fixed_spec());
        }
        query
    }
}

impl Request for GetNotificationRequest {
    type Response = Notification;

    open spec fn method_spec() -> Method {
        Method::Get
    }

    open spec fn scope_spec(&self) -> Seq<char> {
        default_scope_spec(Method::Get)
    }

    open spec fn path_spec(&self, base: UrlView) -> Result<UrlView, ErrorView> {
        then_named(
            then_segment(bucket_spec(base, self.bucket@), "notificationConfigs"@),
            self.notification@,
        )
    }

    open spec fn headers_spec(&self) -> Seq<Pair> {
        Seq::empty()
    }

    fn request_method() -> (method: Method) {
        Method::Get
    }

    fn request_headers(&self) -> (headers: Vec<(String, String)>) {
        no_headers()
    }

    fn scope(&self) -> (scope: &'static str) {
        default_scope(Method::Get)
    }

    fn request_path(&self, base_url: Url) -> (path: Result<Url, Error>) {
        base_url
            .bucket(self.bucket.as_str())?
            .join_segment("notificationConfigs")?
            .named(self.notification.as_str())
    }
}

impl Query for InsertNotificationRequest {
    open spec fn query_spec(&self) -> Seq<Pair> {
        self.common_request_params.query_spec()
    }

    open spec fn fixed_spec() -> Seq<Pair> {
        Seq::empty()
    }

    open spec fn spent(&self) -> bool {
        self.common_request_params is None
    }

    open spec fn kept(&self, before: &Self) -> bool {
        self.bucket == before.bucket && self.notification == before.notification
    }

    fn request_query(&mut self) -> (query: Vec<(&'static str, String)>) {
        let mut query = self.common_request_params.request_query();
        proof {
            assert(self.query_spec() =~= Self::fixed_spec());
        }
        query
    }
}

impl Request for InsertNotificationRequest {
    type Response = Notification;

    open spec fn method_spec() -> Method {
        Method::Post
    }

    open spec fn scope_spec(&self) -> Seq<char> {
        default_scope_spec(Method::Post)
    }

    open spec fn path_spec(&self, base: UrlView) -> Result<UrlView, ErrorView> {
        then_segment(bucket_spec(base, self.bucket@), "notificationConfigs"@)
    }

    open spec fn headers_spec(&self) -> Seq<Pair> {
        Seq::empty()
    }

    fn request_method() -> (method: Method) {
        Method::Post
    }

    fn request_headers(&self) -> (headers: Vec<(String, String)>) {
        no_headers()
    }

    fn scope(&self) -> (scope: &'static str) {
        default_scope(Method::Post)
    }

    fn request_path(&self, base_url: Url) -> (path: Result<Url, Error>) {
        base_url.bucket(self.bucket.as_str())?.join_segment("notificationConfigs")
    }
}

impl Payload for InsertNotificationRequest {
    type Body = Notification;

    open spec fn body_spec(&self) -> Option<Self::Body> {
        self.notification
    }

    fn take_body(&mut self) -> (body: Option<Self::Body>)
        ensures
            *final(self) == (InsertNotificationRequest { notification: None, ..*old(self) }),
    {
        self.notification.take()
    }
}

impl Query for ListNotificationsRequest {
    open spec fn query_spec(&self) -> Seq<Pair> {
        self.common_request_params.query_spec()
    }

    open spec fn fixed_spec() -> Seq<Pair> {
        Seq::empty()
    }

    open spec fn spent(&self) -> bool {
        self.common_request_params is None
    }

    open spec fn kept(&self, before: &Self) -> bool {
        self.bucket == before.bucket
    }

    fn request_query(&mut self) -> (query: Vec<(&'static str, String)>) {
        let mut query = self.common_request_params.request_query();
        proof {
            assert(self.query_spec() =~= Self::fixed_spec());
        }
        query
    }
}

impl Request for ListNotificationsRequest {
    type Response = ListNotificationsResponse;

    open spec fn method_spec() -> Method {
        Method::Get
    }

    open spec fn scope_spec(&self) -> Seq<char> {
        default_scope_spec(Method::Get)
    }

    open spec fn path_spec(&self, base: UrlView) -> Result<UrlView, ErrorView> {
        then_segment(bucket_spec(base, self.bucket@), "notificationConfigs"@)
    }

    open spec fn headers_spec(&self) -> Seq<Pair> {
        Seq::empty()
    }

    fn request_method() -> (method: Method) {
        Method::Get
    }

    fn request_headers(&self) -> (headers: Vec<(String, String)>) {
        no_headers()
    }

    fn scope(&self) -> (scope: &'static str) {
        default_scope(Method::Get)
    }

    fn request_path(&self, base_url: Url) -> (path: Result<Url, Error>) {
        base_url.bucket(self.bucket.as_str())?.join_segment("notificationConfigs")
    }
}

} // verus!
