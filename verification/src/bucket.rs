//! Requests on buckets.

use crate::constants;
use crate::encode::{percent_encoded, EscapeClass};
use crate::error::{Error, ErrorView};
use crate::google::storage::v1::common_enums::{
    PredefinedBucketAcl, PredefinedObjectAcl, Projection,
};
use crate::google::storage::v1::{
    clone_params, same_params, Bucket, DeleteBucketRequest, GetBucketRequest, InsertBucketRequest,
    ListBucketsRequest, ListBucketsResponse, Object, UpdateBucketRequest,
};
use crate::object::{bucket_of, resource_of, resource_of_text};
use crate::paginate::Paginate;
use crate::query::{optional, push_enum, scalar, take_number, Pair, PushIf, Query};
use crate::request::{default_scope, default_scope_spec, no_headers, Method, Payload, Request};
use crate::urls::{bucket_spec, join_segment_spec, then_join, url_parsed, Url, UrlView};
use vstd::prelude::*;
use vstd::string::*;
use vstd::utf8::encode_utf8;

verus! {

/// The condition that a request built from a bucket carries: that the bucket's
/// metageneration be still `metageneration`. The service counts metagenerations
/// from one; zero is what a bucket value holds that was not read from the
/// service, a bucket named by a `gs://` URL for one, and gives no condition.
pub open spec fn condition_spec(metageneration: i64) -> Option<i64> {
    if metageneration == 0 {
        None
    } else {
        Some(metageneration)
    }
}

/// The condition that a request built from a bucket carries.
pub fn condition(metageneration: i64) -> (condition: Option<i64>)
    ensures
        condition == condition_spec(metageneration),
{
    if metageneration == 0 {
        None
    } else {
        Some(metageneration)
    }
}

impl Bucket {
    /// Whether every field but the name and the metageneration holds its default.
    pub open spec fn is_blank(&self) -> bool {
        &&& self.id@.len() == 0
        &&& self.project_number == 0
        &&& self.location@.len() == 0
        &&& self.storage_class@.len() == 0
        &&& self.etag@.len() == 0
        &&& self.time_created is None
        &&& self.updated is None
    }

    /// The bucket of the object `value`.
    pub fn from(value: Object) -> (bucket: Bucket)
        ensures
            bucket.name == value.bucket,
            bucket.metageneration == 0,
            bucket.is_blank(),
    {
        Bucket {
            id: String::new(),
            name: value.bucket,
            project_number: 0,
            metageneration: 0,
            location: String::new(),
            storage_class: String::new(),
            etag: String::new(),
            time_created: None,
            updated: None,
        }
    }

    /// The bucket that a `gs://bucket/object` URL names.
    pub fn try_from(value: Url) -> (result: Result<Bucket, Error>)
        ensures
            match result {
                Ok(bucket) => bucket_of(resource_of(value@)) == Ok::<Seq<char>, ErrorView>(
                    bucket.name@,
                ) && bucket.metageneration == 0 && bucket.is_blank(),
                Err(error) => bucket_of(resource_of(value@)) == Err::<Seq<char>, ErrorView>(
                    error@,
                ),
            },
    {
        let object = Object::try_from(value)?;
        Ok(Bucket::from(object))
    }

    /// The bucket that the text of a `gs://bucket/object` URL names.
    pub fn from_str(value: &str) -> (result: Result<Bucket, Error>)
        ensures
            match result {
                Ok(bucket) => bucket_of(resource_of_text(value@)) == Ok::<Seq<char>, ErrorView>(
                    bucket.name@,
                ) && bucket.metageneration == 0 && bucket.is_blank(),
                Err(error) => bucket_of(resource_of_text(value@)) == Err::<Seq<char>, ErrorView>(
                    error@,
                ),
            },
    {
        let object = Object::from_str(value)?;
        Ok(Bucket::from(object))
    }
}

impl InsertBucketRequest {
    /// Whether every field that a bucket does not fill holds its default.
    pub open spec fn is_blank(&self) -> bool {
        &&& self.predefined_acl == 0
        &&& self.predefined_default_object_acl == 0
        &&& self.project@.len() == 0
        &&& self.projection == 0
        &&& self.common_request_params is None
    }

    /// The request for the bucket `value`.
    pub fn from(value: Bucket) -> (request: InsertBucketRequest)
        ensures
            request.bucket == Some(value),
            request.is_blank(),
    {
        InsertBucketRequest {
            predefined_acl: 0,
            predefined_default_object_acl: 0,
            project: String::new(),
            projection: 0,
            bucket: Some(value),
            common_request_params: None,
        }
    }
}

impl DeleteBucketRequest {
    /// Whether every field that a bucket does not fill holds its default.
    pub open spec fn is_blank(&self) -> bool {
        &&& self.if_metageneration_not_match is None
        &&& self.common_request_params is None
    }

    /// The request for the bucket `value`, on condition that the bucket's
    /// metageneration is still the one that `value` holds, where it holds one.
    pub fn from(value: Bucket) -> (request: DeleteBucketRequest)
        ensures
            request.bucket == value.name,
            request.if_metageneration_match == condition_spec(value.metageneration),
            request.is_blank(),
    {
        DeleteBucketRequest {
            bucket: value.name,
            if_metageneration_match: condition(value.metageneration),
            if_metageneration_not_match: None,
            common_request_params: None,
        }
    }

    /// The request for the bucket that the text of a `gs://bucket/object` URL names.
    pub fn from_str(s: &str) -> (result: Result<DeleteBucketRequest, Error>)
        ensures
            match result {
                Ok(request) => bucket_of(resource_of_text(s@)) == Ok::<Seq<char>, ErrorView>(
                    request.bucket@,
                ) && request.if_metageneration_match is None && request.is_blank(),
                Err(error) => bucket_of(resource_of_text(s@)) == Err::<Seq<char>, ErrorView>(
                    error@,
                ),
            },
    {
        let bucket = Bucket::from_str(s)?;
        Ok(DeleteBucketRequest::from(bucket))
    }
}

impl GetBucketRequest {
    /// Whether every field that a bucket does not fill holds its default.
    pub open spec fn is_blank(&self) -> bool {
        &&& self.if_metageneration_not_match is None
        &&& self.projection == 0
        &&& self.common_request_params is None
    }

    /// The request for the bucket `value`, on condition that the bucket's
    /// metageneration is still the one that `value` holds, where it holds one.
    pub fn from(value: Bucket) -> (request: GetBucketRequest)
        ensures
            request.bucket == value.name,
            request.if_metageneration_match == condition_spec(value.metageneration),
            request.is_blank(),
    {
        GetBucketRequest {
            bucket: value.name,
            if_metageneration_match: condition(value.metageneration),
            if_metageneration_not_match: None,
            projection: 0,
            common_request_params: None,
        }
    }

    /// The request for the bucket that a `gs://bucket/object` URL names.
    pub fn try_from(value: Url) -> (result: Result<GetBucketRequest, Error>)
        ensures
            match result {
                Ok(request) => bucket_of(resource_of(value@)) == Ok::<Seq<char>, ErrorView>(
                    request.bucket@,
                ) && request.if_metageneration_match is None && request.is_blank(),
                Err(error) => bucket_of(resource_of(value@)) == Err::<Seq<char>, ErrorView>(
                    error@,
                ),
            },
    {
        let bucket = Bucket::try_from(value)?;
        Ok(GetBucketRequest::from(bucket))
    }

    /// The request for the bucket that the text of a `gs://bucket/object` URL names.
    pub fn from_str(s: &str) -> (result: Result<GetBucketRequest, Error>)
        ensures
            match result {
                Ok(request) => bucket_of(resource_of_text(s@)) == Ok::<Seq<char>, ErrorView>(
                    request.bucket@,
                ) && request.if_metageneration_match is None && request.is_blank(),
                Err(error) => bucket_of(resource_of_text(s@)) == Err::<Seq<char>, ErrorView>(
                    error@,
                ),
            },
    {
        let bucket = Bucket::from_str(s)?;
        Ok(GetBucketRequest::from(bucket))
    }
}

impl UpdateBucketRequest {
    /// Whether every field that a bucket does not fill holds its default.
    pub open spec fn is_blank(&self) -> bool {
        &&& self.if_metageneration_not_match is None
        &&& self.predefined_acl == 0
        &&& self.predefined_default_object_acl == 0
        &&& self.projection == 0
        &&& self.common_request_params is None
    }

    /// The request that replaces the metadata of the bucket `value` with `value`,
    /// on condition that the bucket's metageneration is still the one that
    /// `value` holds, where it holds one. The update is a full replacement: what
    /// `value` leaves at its default is reset on the service.
    pub fn from(value: Bucket) -> (request: UpdateBucketRequest)
        ensures
            request.bucket@ == value.name@,
            request.if_metageneration_match == condition_spec(value.metageneration),
            request.metadata == Some(value),
            request.is_blank(),
    {
        let if_metageneration_match = condition(value.metageneration);
        let bucket = value.name.clone();
        UpdateBucketRequest {
            bucket,
            if_metageneration_match,
            if_metageneration_not_match: None,
            metadata: Some(value),
            predefined_acl: 0,
            predefined_default_object_acl: 0,
            projection: 0,
            common_request_params: None,
        }
    }
}

/// A request to delete or to get a bucket that was built from `gs://` followed by
/// a bucket's name targets `b/` below the base and, below that, the name with
/// its reserved characters escaped and its slashes kept. This is stated for the
/// names that the URL parser reads back unchanged as the host of such a URL.
pub proof fn bucket_uri_target(
    name: Seq<char>,
    base: UrlView,
    delete: DeleteBucketRequest,
    get: GetBucketRequest,
)
    requires
        url_parsed("gs://"@ + name) matches Some(url) && url.scheme == "gs"@ && url.host == Some(
            name,
        ),
        bucket_of(resource_of_text("gs://"@ + name)) == Ok::<Seq<char>, ErrorView>(delete.bucket@),
        bucket_of(resource_of_text("gs://"@ + name)) == Ok::<Seq<char>, ErrorView>(get.bucket@),
    ensures
        delete.path_spec(base) == then_join(
            join_segment_spec(base, "b/"@),
            percent_encoded(EscapeClass::Normal, encode_utf8(name)),
        ),
        get.path_spec(base) == delete.path_spec(base),
{
    reveal_strlit("b/");
    assert("b/"@ == seq!['b', '/']);
}

impl Query for ListBucketsRequest {
    open spec fn query_spec(&self) -> Seq<Pair> {
        self.common_request_params.query_spec()
            + scalar(constants::PROJECT@, self.project)
            + scalar(constants::MAX_RESULTS@, self.max_results)
            + scalar(constants::PAGE_TOKEN@, self.page_token)
            + scalar(constants::PREFIX@, self.prefix)
            + Projection::of(self.projection).query_spec()
    }

    open spec fn fixed_spec() -> Seq<Pair> {
        Seq::empty()
    }

    open spec fn spent(&self) -> bool {
        &&& self.common_request_params is None
        &&& self.project@.len() == 0
        &&& self.max_results == 0
        &&& self.page_token@.len() == 0
        &&& self.prefix@.len() == 0
        &&& self.projection == 0
    }

    open spec fn kept(&self, before: &Self) -> bool {
        true
    }

    fn request_query(&mut self) -> (query: Vec<(&'static str, String)>) {
        let mut query = self.common_request_params.request_query();
        query.push_if(constants::PROJECT, &mut self.project);
        query.push_if(constants::MAX_RESULTS, &mut self.max_results);
        query.push_if(constants::PAGE_TOKEN, &mut self.page_token);
        query.push_if(constants::PREFIX, &mut self.prefix);
        push_enum(&mut query, Projection::from_i32(take_number(&mut self.projection)));
        proof {
            assert(self.query_spec() =~= Self::fixed_spec());
        }
        query
    }
}

impl Request for ListBucketsRequest {
    type Response = ListBucketsResponse;

    open spec fn method_spec() -> Method {
        Method::Get
    }

    open spec fn scope_spec(&self) -> Seq<char> {
        default_scope_spec(Method::Get)
    }

    open spec fn path_spec(&self, base: UrlView) -> Result<UrlView, ErrorView> {
        join_segment_spec(base, "b"@)
    }

    open spec fn headers_spec(&self) -> Seq<Pair> {
        Seq::empty()
    }

    fn request_method() -> (method: Method) {
        Method::Get
    }

    fn request_headers(&self) -> (headers: Vec<(String, String)>) {
        no_headers()
    }

    fn scope(&self) -> (scope: &'static str) {
        default_scope(Method::Get)
    }

    fn request_path(&self, base_url: Url) -> (path: Result<Url, Error>) {
        base_url.join_segment("b")
    }
}

impl Clone for ListBucketsRequest {
    fn clone(&self) -> (copy: Self)
        ensures
            copy.same(self),
    {
        ListBucketsRequest {
            max_results: self.max_results,
            page_token: self.page_token.clone(),
            prefix: self.prefix.clone(),
            project: self.project.clone(),
            projection: self.projection,
            common_request_params: clone_params(&self.common_request_params),
        }
    }
}

impl Paginate for ListBucketsRequest {
    type Item = Bucket;

    open spec fn items_spec(response: Self::Response) -> Seq<Self::Item> {
        response.items@
    }

    open spec fn token_spec(response: &Self::Response) -> Seq<char> {
        response.next_page_token@
    }

    open spec fn next_spec(self, response: &Self::Response) -> Self {
        ListBucketsRequest { page_token: response.next_page_token, ..self }
    }

    open spec fn same(&self, other: &Self) -> bool {
        &&& self.max_results == other.max_results
        &&& self.page_token@ == other.page_token@
        &&& self.prefix@ == other.prefix@
        &&& self.project@ == other.project@
        &&& self.projection == other.projection
        &&& same_params(self.common_request_params, other.common_request_params)
    }

    proof fn copy_is_same(&self, copy: &Self) {
    }

    proof fn next_of_same(self, other: Self, response: &Self::Response) {
    }

    fn extract_items(response: Self::Response) -> (items: Vec<Self::Item>) {
        response.items
    }

    fn into_request(self, response: &Self::Response) -> (next: Option<Self>) {
        if response.next_page_token.as_str().is_empty() {
            None
        } else {
            Some(ListBucketsRequest { page_token: response.next_page_token.clone(), ..self })
        }
    }
}

impl Query for InsertBucketRequest {
    open spec fn query_spec(&self) -> Seq<Pair> {
        self.common_request_params.query_spec()
            + scalar(constants::PROJECT@, self.project)
            + PredefinedBucketAcl::of(self.predefined_acl).query_spec()
            + PredefinedObjectAcl::of(self.predefined_default_object_acl).query_spec()
            + Projection::of(self.projection).query_spec()
    }

    open spec fn fixed_spec() -> Seq<Pair> {
        Seq::empty()
    }

    open spec fn spent(&self) -> bool {
        &&& self.common_request_params is None
        &&& self.project@.len() == 0
        &&& self.predefined_acl == 0
        &&& self.predefined_default_object_acl == 0
        &&& self.projection == 0
    }

    open spec fn kept(&self, before: &Self) -> bool {
        self.bucket == before.bucket
    }

    fn request_query(&mut self) -> (query: Vec<(&'static str, String)>) {
        let mut query = self.common_request_params.request_query();
        query.push_if(constants::PROJECT, &mut self.project);
        push_enum(&mut query, PredefinedBucketAcl::from_i32(take_number(&mut self.predefined_acl)));
        push_enum(
            &mut query,
            PredefinedObjectAcl::from_i32(take_number(&mut self.predefined_default_object_acl)),
        );
        push_enum(&mut query, Projection::from_i32(take_number(&mut self.projection)));
        proof {
            assert(self.query_spec() =~= Self::fixed_spec());
        }
        query
    }
}

impl Request for InsertBucketRequest {
    type Response = Bucket;

    open spec fn method_spec() -> Method {
        Method::Post
    }

    open spec fn scope_spec(&self) -> Seq<char> {
        default_scope_spec(Method::Post)
    }

    open spec fn path_spec(&self, base: UrlView) -> Result<UrlView, ErrorView> {
        join_segment_spec(base, "b"@)
    }

    open spec fn headers_spec(&self) -> Seq<Pair> {
        Seq::empty()
    }

    fn request_method() -> (method: Method) {
        Method::Post
    }

    fn request_headers(&self) -> (headers: Vec<(String, String)>) {
        no_headers()
    }

    fn scope(&self) -> (scope: &'static str) {
        default_scope(Method::Post)
    }

    fn request_path(&self, base_url: Url) -> (path: Result<Url, Error>) {
        base_url.join_segment("b")
    }
}

impl Payload for InsertBucketRequest {
    type Body = Bucket;

    open spec fn body_spec(&self) -> Option<Self::Body> {
        self.bucket
    }

    fn take_body(&mut self) -> (body: Option<Self::Body>)
        ensures
            *final(self) == (InsertBucketRequest { bucket: None, ..*old(self) }),
    {
        self.bucket.take()
    }
}

impl Query for DeleteBucketRequest {
    open spec fn query_spec(&self) -> Seq<Pair> {
        self.common_request_params.query_spec()
            + optional(constants::IF_METAGENERATION_MATCH@, self.if_metageneration_match)
            + optional(constants::IF_METAGENERATION_NOT_MATCH@, self.if_metageneration_not_match)
    }

    open spec fn fixed_spec() -> Seq<Pair> {
        Seq::empty()
    }

    open spec fn spent(&self) -> bool {
        &&& self.common_request_params is None
        &&& self.if_metageneration_match is None
        &&& self.if_metageneration_not_match is None
    }

    open spec fn kept(&self, before: &Self) -> bool {
        self.bucket == before.bucket
    }

    fn request_query(&mut self) -> (query: Vec<(&'static str, String)>) {
        let mut query = self.common_request_params.request_query();
        query.push_if_opt(constants::IF_METAGENERATION_MATCH, &mut self.if_metageneration_match);
        query.push_if_opt(
            constants::IF_METAGENERATION_NOT_MATCH,
            &mut self.if_metageneration_not_match,
        );
        proof {
            assert(self.query_spec() =~= Self::fixed_spec());
        }
        query
    }
}

impl Request for DeleteBucketRequest {
    type Response = ();

    open spec fn method_spec() -> Method {
        Method::Delete
    }

    open spec fn scope_spec(&self) -> Seq<char> {
        default_scope_spec(Method::Delete)
    }

    open spec fn path_spec(&self, base: UrlView) -> Result<UrlView, ErrorView> {
        bucket_spec(base, self.bucket@)
    }

    open spec fn headers_spec(&self) -> Seq<Pair> {
        Seq::empty()
    }

    fn request_method() -> (method: Method) {
        Method::Delete
    }

    fn request_headers(&self) -> (headers: Vec<(String, String)>) {
        no_headers()
    }

    fn scope(&self) -> (scope: &'static str) {
        default_scope(Method::Delete)
    }

    fn request_path(&self, base_url: Url) -> (path: Result<Url, Error>) {
        base_url.bucket(self.bucket.as_str())
    }
}

impl Query for GetBucketRequest {
    open spec fn query_spec(&self) -> Seq<Pair> {
        self.common_request_params.query_spec()
            + optional(constants::IF_METAGENERATION_MATCH@, self.if_metageneration_match)
            + optional(constants::IF_METAGENERATION_NOT_MATCH@, self.if_metageneration_not_match)
            + Projection::of(self.projection).query_spec()
    }

    open spec fn fixed_spec() -> Seq<Pair> {
        Seq::empty()
    }

    open spec fn spent(&self) -> bool {
        &&& self.common_request_params is None
        &&& self.if_metageneration_match is None
        &&& self.if_metageneration_not_match is None
        &&& self.projection == 0
    }

    open spec fn kept(&self, before: &Self) -> bool {
        self.bucket == before.bucket
    }

    fn request_query(&mut self) -> (query: Vec<(&'static str, String)>) {
        let mut query = self.common_request_params.request_query();
        query.push_if_opt(constants::IF_METAGENERATION_MATCH, &mut self.if_metageneration_match);
        query.push_if_opt(
            constants::IF_METAGENERATION_NOT_MATCH,
            &mut self.if_metageneration_not_match,
        );
        push_enum(&mut query, Projection::from_i32(take_number(&mut self.projection)));
        proof {
            assert(self.query_spec() =~= Self::fixed_spec());
        }
        query
    }
}

impl Request for GetBucketRequest {
    type Response = Bucket;

    open spec fn method_spec() -> Method {
        Method::Get
    }

    open spec fn scope_spec(&self) -> Seq<char> {
        default_scope_spec(Method::Get)
    }

    open spec fn path_spec(&self, base: UrlView) -> Result<UrlView, ErrorView> {
        bucket_spec(base, self.bucket@)
    }

    open spec fn headers_spec(&self) -> Seq<Pair> {
        Seq::empty()
    }

    fn request_method() -> (method: Method) {
        Method::Get
    }

    fn request_headers(&self) -> (headers: Vec<(String, String)>) {
        no_headers()
    }

    fn scope(&self) -> (scope: &'static str) {
        default_scope(Method::Get)
    }

    fn request_path(&self, base_url: Url) -> (path: Result<Url, Error>) {
        base_url.bucket(self.bucket.as_str())
    }
}

impl Query for UpdateBucketRequest {
    open spec fn query_spec(&self) -> Seq<Pair> {
        self.common_request_params.query_spec()
            + optional(constants::IF_METAGENERATION_MATCH@, self.if_metageneration_match)
            + optional(constants::IF_METAGENERATION_NOT_MATCH@, self.if_metageneration_not_match)
            + PredefinedBucketAcl::of(self.predefined_acl).query_spec()
            + PredefinedObjectAcl::of(self.predefined_default_object_acl).query_spec()
            + Projection::of(self.projection).query_spec()
    }

    open spec fn fixed_spec() -> Seq<Pair> {
        Seq::empty()
    }

    open spec fn spent(&self) -> bool {
        &&& self.common_request_params is None
        &&& self.if_metageneration_match is None
        &&& self.if_metageneration_not_match is None
        &&& self.predefined_acl == 0
        &&& self.predefined_default_object_acl == 0
        &&& self.projection == 0
    }

    open spec fn kept(&self, before: &Self) -> bool {
        self.bucket == before.bucket && self.metadata == before.metadata
    }

    fn request_query(&mut self) -> (query: Vec<(&'static str, String)>) {
        let mut query = self.common_request_params.request_query();
        query.push_if_opt(constants::IF_METAGENERATION_MATCH, &mut self.if_metageneration_match);
        query.push_if_opt(
            constants::IF_METAGENERATION_NOT_MATCH,
            &mut self.if_metageneration_not_match,
        );
        push_enum(&mut query, PredefinedBucketAcl::from_i32(take_number(&mut self.predefined_acl)));
        push_enum(
            &mut query,
            PredefinedObjectAcl::from_i32(take_number(&mut self.predefined_default_object_acl)),
        );
        push_enum(&mut query, Projection::from_i32(take_number(&mut self.projection)));
        proof {
            assert(self.query_spec() =~= Self::fixed_spec());
        }
        query
    }
}

impl Request for UpdateBucketRequest {
    type Response = Bucket;

    open spec fn method_spec() -> Method {
        Method::Put
    }

    open spec fn scope_spec(&self) -> Seq<char> {
        default_scope_spec(Method::Put)
    }

    open spec fn path_spec(&self, base: UrlView) -> Result<UrlView, ErrorView> {
        bucket_spec(base, self.bucket@)
    }

    open spec fn headers_spec(&self) -> Seq<Pair> {
        Seq::empty()
    }

    fn request_method() -> (method: Method) {
        Method::Put
    }

    fn request_headers(&self) -> (headers: Vec<(String, String)>) {
        no_headers()
    }

    fn scope(&self) -> (scope: &'static str) {
        default_scope(Method::Put)
    }

    fn request_path(&self, base_url: Url) -> (path: Result<Url, Error>) {
        base_url.bucket(self.bucket.as_str())
    }
}

impl Payload for UpdateBucketRequest {
    type Body = Bucket;

    open spec fn body_spec(&self) -> Option<Self::Body> {
        self.metadata
    }

    fn take_body(&mut self) -> (body: Option<Self::Body>)
        ensures
            *final(self) == (UpdateBucketRequest { metadata: None, ..*old(self) }),
    {
        self.metadata.take()
    }
}

} // verus!
