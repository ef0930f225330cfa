//! Requests on objects.

use crate::constants;
use crate::encode::{base64_encode, base64_text};
use crate::error::{Error, ErrorView};
use crate::google::storage::v1::common_enums::{PredefinedObjectAcl, Projection};
use crate::google::storage::v1::{
    clone_params, same_params, Bucket, CommonObjectRequestParams, ComposeObjectRequest,
    CopyObjectRequest, DeleteObjectRequest, FirstMessage, GetObjectMediaRequest, GetObjectRequest,
    InsertObjectRequest, InsertObjectSpec, ListObjectsRequest, ListObjectsResponse, Object,
    RewriteObjectRequest, RewriteResponse, SourceObjects, UpdateObjectRequest,
};
use crate::paginate::Paginate;
use crate::query::{
    extend, optional, pairs, pairs_push, push_enum, push_enum_as, push_fixed, rekeyed, scalar,
    take_number, Pair, PushIf, Query,
};
use crate::request::{default_scope, default_scope_spec, no_headers, Method, Payload, Request};
use crate::text::{same_text, trim_leading_slashes, without_leading_slashes};
use crate::urls::{
    bucket_spec, join_spec, parse_spec, then_bucket, then_object, then_segment, then_slash_object,
    Url, UrlView,
};
use vstd::prelude::*;
use vstd::string::*;
use vstd::utf8::encode_utf8;

verus! {

/// The bucket and the object name that a `gs://bucket/object` URL stands for.
pub open spec fn resource_of(url: UrlView) -> Result<(Seq<char>, Seq<char>), ErrorView> {
    if url.scheme == "gs"@ {
        Ok(
            (
                match url.host {
                    Some(host) => host,
                    None => Seq::empty(),
                },
                without_leading_slashes(url.path),
            ),
        )
    } else {
        Err(ErrorView::Other("Unexpected scheme {}"@))
    }
}

/// The bucket and the object name that the text of a `gs://bucket/object` URL stands for.
pub open spec fn resource_of_text(text: Seq<char>) -> Result<(Seq<char>, Seq<char>), ErrorView> {
    match parse_spec(text) {
        Ok(url) => resource_of(url),
        Err(error) => Err(error),
    }
}

/// The first of the two names, or the failure.
pub open spec fn bucket_of(resource: Result<(Seq<char>, Seq<char>), ErrorView>) -> Result<
    Seq<char>,
    ErrorView,
> {
    match resource {
        Ok(names) => Ok(names.0),
        Err(error) => Err(error),
    }
}


/// The response of a call that returns the object's data and no metadata.
#[derive(Clone, Copy, Debug, Default, PartialEq, Eq, Structural)]
pub struct Void;

impl Object {
    /// Whether every field but the bucket and the name holds its default.
    pub open spec fn is_blank(&self) -> bool {
        &&& self.id@.len() == 0
        &&& self.generation == 0
        &&& self.metageneration == 0
        &&& self.content_type@.len() == 0
        &&& self.storage_class@.len() == 0
        &&& self.size == 0
        &&& self.md5_hash@.len() == 0
        &&& self.crc32c is None
        &&& self.cache_control@.len() == 0
        &&& self.etag@.len() == 0
        &&& self.time_created is None
        &&& self.updated is None
        &&& self.time_storage_class_updated is None
        &&& self.metadata@.len() == 0
    }

    /// The object that a `gs://bucket/object` URL names.
    pub fn try_from(value: Url) -> (result: Result<Object, Error>)
        ensures
            match result {
                Ok(object) => resource_of(value@) == Ok::<(Seq<char>, Seq<char>), ErrorView>(
                    (object.bucket@, object.name@),
                ) && object.is_blank(),
                Err(error) => resource_of(value@) == Err::<(Seq<char>, Seq<char>), ErrorView>(
                    error@,
                ),
            },
    {
        if !same_text(value.scheme(), "gs") {
            return Err(Error::Other { source: String::from_str("Unexpected scheme {}") });
        }
        let bucket = match value.host_str() {
            Some(host) => String::from_str(host),
            None => String::new(),
        };
        let name = trim_leading_slashes(value.path());
        Ok(
            Object {
                id: String::new(),
                name,
                bucket,
                generation: 0,
                metageneration: 0,
                content_type: String::new(),
                storage_class: String::new(),
                size: 0,
                md5_hash: String::new(),
                crc32c: None,
                cache_control: String::new(),
                etag: String::new(),
                time_created: None,
                updated: None,
                time_storage_class_updated: None,
                metadata: Vec::new(),
            },
        )
    }

    /// The object that the text of a `gs://bucket/object` URL names.
    pub fn from_str(s: &str) -> (result: Result<Object, Error>)
        ensures
            match result {
                Ok(object) => resource_of_text(s@) == Ok::<(Seq<char>, Seq<char>), ErrorView>(
                    (object.bucket@, object.name@),
                ) && object.is_blank(),
                Err(error) => resource_of_text(s@) == Err::<(Seq<char>, Seq<char>), ErrorView>(
                    error@,
                ),
            },
    {
        let url = Url::parse(s)?;
        Object::try_from(url)
    }
}

impl GetObjectRequest {
    /// Whether every field but `bucket` and `object` holds its default.
    pub open spec fn is_blank(&self) -> bool {
        &&& self.generation == 0
        &&& self.if_generation_match is None
        &&& self.if_generation_not_match is None
        &&& self.if_metageneration_match is None
        &&& self.if_metageneration_not_match is None
        &&& self.projection == 0
        &&& self.common_object_request_params is None
        &&& self.common_request_params is None
    }

    /// The request for the object `value`.
    pub fn from(value: Object) -> (request: GetObjectRequest)
        ensures
            request.bucket == value.bucket,
            request.object == value.name,
            request.is_blank(),
    {
        GetObjectRequest {
            bucket: value.bucket,
            object: value.name,
            generation: 0,
            if_generation_match: None,
            if_generation_not_match: None,
            if_metageneration_match: None,
            if_metageneration_not_match: None,
            projection: 0,
            common_object_request_params: None,
            common_request_params: None,
        }
    }

    /// The request for the object that a `gs://bucket/object` URL names.
    pub fn try_from(value: Url) -> (result: Result<GetObjectRequest, Error>)
        ensures
            match result {
                Ok(request) => resource_of(value@) == Ok::<(Seq<char>, Seq<char>), ErrorView>(
                    (request.bucket@, request.object@),
                ) && request.is_blank(),
                Err(error) => resource_of(value@) == Err::<(Seq<char>, Seq<char>), ErrorView>(
                    error@,
                ),
            },
    {
        let object = Object::try_from(value)?;
        Ok(GetObjectRequest::from(object))
    }

    /// The request for the object that the text of a `gs://bucket/object` URL names.
    pub fn from_str(s: &str) -> (result: Result<GetObjectRequest, Error>)
        ensures
            match result {
                Ok(request) => resource_of_text(s@) == Ok::<(Seq<char>, Seq<char>), ErrorView>(
                    (request.bucket@, request.object@),
                ) && request.is_blank(),
                Err(error) => resource_of_text(s@) == Err::<(Seq<char>, Seq<char>), ErrorView>(
                    error@,
                ),
            },
    {
        let object = Object::from_str(s)?;
        Ok(GetObjectRequest::from(object))
    }
}

impl GetObjectMediaRequest {
    /// Whether every field but `bucket` and `object` holds its default.
    pub open spec fn is_blank(&self) -> bool {
        &&& self.generation == 0
        &&& self.if_generation_match is None
        &&& self.if_generation_not_match is None
        &&& self.if_metageneration_match is None
        &&& self.if_metageneration_not_match is None
        &&& self.common_object_request_params is None
        &&& self.common_request_params is None
    }

    /// The request for the object `value`.
    pub fn from(value: Object) -> (request: GetObjectMediaRequest)
        ensures
            request.bucket == value.bucket,
            request.object == value.name,
            request.is_blank(),
    {
        GetObjectMediaRequest {
            bucket: value.bucket,
            object: value.name,
            generation: 0,
            if_generation_match: None,
            if_generation_not_match: None,
            if_metageneration_match: None,
            if_metageneration_not_match: None,
            common_object_request_params: None,
            common_request_params: None,
        }
    }

    /// The request for the object that a `gs://bucket/object` URL names.
    pub fn try_from(value: Url) -> (result: Result<GetObjectMediaRequest, Error>)
        ensures
            match result {
                Ok(request) => resource_of(value@) == Ok::<(Seq<char>, Seq<char>), ErrorView>(
                    (request.bucket@, request.object@),
                ) && request.is_blank(),
                Err(error) => resource_of(value@) == Err::<(Seq<char>, Seq<char>), ErrorView>(
                    error@,
                ),
            },
    {
        let object = Object::try_from(value)?;
        Ok(GetObjectMediaRequest::from(object))
    }

    /// The request for the object that the text of a `gs://bucket/object` URL names.
    pub fn from_str(s: &str) -> (result: Result<GetObjectMediaRequest, Error>)
        ensures
            match result {
                Ok(request) => resource_of_text(s@) == Ok::<(Seq<char>, Seq<char>), ErrorView>(
                    (request.bucket@, request.object@),
                ) && request.is_blank(),
                Err(error) => resource_of_text(s@) == Err::<(Seq<char>, Seq<char>), ErrorView>(
                    error@,
                ),
            },
    {
        let object = Object::from_str(s)?;
        Ok(GetObjectMediaRequest::from(object))
    }
}

impl DeleteObjectRequest {
    /// Whether every field but `bucket` and `object` holds its default.
    pub open spec fn is_blank(&self) -> bool {
        &&& self.generation == 0
        &&& self.if_generation_match is None
        &&& self.if_generation_not_match is None
        &&& self.if_metageneration_match is None
        &&& self.if_metageneration_not_match is None
        &&& self.common_object_request_params is None
        &&& self.common_request_params is None
    }

    /// The request for the object `value`.
    pub fn from(value: Object) -> (request: DeleteObjectRequest)
        ensures
            request.bucket == value.bucket,
            request.object == value.name,
            request.is_blank(),
    {
        DeleteObjectRequest {
            bucket: value.bucket,
            object: value.name,
            generation: 0,
            if_generation_match: None,
            if_generation_not_match: None,
            if_metageneration_match: None,
            if_metageneration_not_match: None,
            common_object_request_params: None,
            common_request_params: None,
        }
    }

    /// The request for the object that a `gs://bucket/object` URL names.
    pub fn try_from(value: Url) -> (result: Result<DeleteObjectRequest, Error>)
        ensures
            match result {
                Ok(request) => resource_of(value@) == Ok::<(Seq<char>, Seq<char>), ErrorView>(
                    (request.bucket@, request.object@),
                ) && request.is_blank(),
                Err(error) => resource_of(value@) == Err::<(Seq<char>, Seq<char>), ErrorView>(
                    error@,
                ),
            },
    {
        let object = Object::try_from(value)?;
        Ok(DeleteObjectRequest::from(object))
    }

    /// The request for the object that the text of a `gs://bucket/object` URL names.
    pub fn from_str(s: &str) -> (result: Result<DeleteObjectRequest, Error>)
        ensures
            match result {
                Ok(request) => resource_of_text(s@) == Ok::<(Seq<char>, Seq<char>), ErrorView>(
                    (request.bucket@, request.object@),
                ) && request.is_blank(),
                Err(error) => resource_of_text(s@) == Err::<(Seq<char>, Seq<char>), ErrorView>(
                    error@,
                ),
            },
    {
        let object = Object::from_str(s)?;
        Ok(DeleteObjectRequest::from(object))
    }
}

impl ListObjectsRequest {
    /// Whether every field but `bucket` and `prefix` holds its default.
    pub open spec fn is_blank(&self) -> bool {
        &&& self.delimiter@.len() == 0
        &&& !self.include_trailing_delimiter
        &&& self.max_results == 0
        &&& self.page_token@.len() == 0
        &&& self.projection == 0
        &&& !self.versions
        &&& self.common_request_params is None
    }

    /// The request for the object `value`.
    pub fn from(value: Object) -> (request: ListObjectsRequest)
        ensures
            request.bucket == value.bucket,
            request.prefix == value.name,
            request.is_blank(),
    {
        ListObjectsRequest {
            bucket: value.bucket,
            delimiter: String::new(),
            include_trailing_delimiter: false,
            max_results: 0,
            page_token: String::new(),
            prefix: value.name,
            projection: 0,
            versions: false,
            common_request_params: None,
        }
    }

    /// The request for the object that a `gs://bucket/object` URL names.
    pub fn try_from(value: Url) -> (result: Result<ListObjectsRequest, Error>)
        ensures
            match result {
                Ok(request) => resource_of(value@) == Ok::<(Seq<char>, Seq<char>), ErrorView>(
                    (request.bucket@, request.prefix@),
                ) && request.is_blank(),
                Err(error) => resource_of(value@) == Err::<(Seq<char>, Seq<char>), ErrorView>(
                    error@,
                ),
            },
    {
        let object = Object::try_from(value)?;
        Ok(ListObjectsRequest::from(object))
    }

    /// The request for the object that the text of a `gs://bucket/object` URL names.
    pub fn from_str(s: &str) -> (result: Result<ListObjectsRequest, Error>)
        ensures
            match result {
                Ok(request) => resource_of_text(s@) == Ok::<(Seq<char>, Seq<char>), ErrorView>(
                    (request.bucket@, request.prefix@),
                ) && request.is_blank(),
                Err(error) => resource_of_text(s@) == Err::<(Seq<char>, Seq<char>), ErrorView>(
                    error@,
                ),
            },
    {
        let object = Object::from_str(s)?;
        Ok(ListObjectsRequest::from(object))
    }

    /// The request that lists all of the bucket `value`.
    pub fn from_bucket(value: Bucket) -> (request: ListObjectsRequest)
        ensures
            request.bucket == value.name,
            request.prefix@.len() == 0,
            request.is_blank(),
    {
        ListObjectsRequest {
            bucket: value.name,
            delimiter: String::new(),
            include_trailing_delimiter: false,
            max_results: 0,
            page_token: String::new(),
            prefix: String::new(),
            projection: 0,
            versions: false,
            common_request_params: None,
        }
    }
}

/// What an encryption key contributes: its base64 form, where there is a key.
pub open spec fn key_param(key: Seq<char>, value: Seq<char>) -> Seq<Pair> {
    if value.len() == 0 {
        Seq::empty()
    } else {
        seq![(key, base64_text(encode_utf8(value)))]
    }
}

/// Appends the base64 form of `value` under `key` where `value` is not empty,
/// and leaves it empty.
fn push_key(query: &mut Vec<(&'static str, String)>, key: &'static str, value: &mut String)
    ensures
        pairs(final(query)@) == pairs(old(query)@) + key_param(key@, old(value)@),
        final(value)@.len() == 0,
{
    if !value.as_str().is_empty() {
        let text = base64_encode(value.as_str().as_bytes());
        proof {
            pairs_push(query@, key, text);
        }
        query.push((key, text));
        *value = String::new();
    } else {
        assert(pairs(query@) + Seq::<Pair>::empty() =~= pairs(query@));
    }
}

impl Query for CommonObjectRequestParams {
    open spec fn query_spec(&self) -> Seq<Pair> {
        scalar(constants::ENCRYPTION_ALGORITHM@, self.encryption_algorithm) + key_param(
            constants::ENCRYPTION_KEY@,
            self.encryption_key@,
        ) + key_param(constants::ENCRYPTION_KEY_SHA256@, self.encryption_key_sha256@)
    }

    open spec fn fixed_spec() -> Seq<Pair> {
        Seq::empty()
    }

    open spec fn spent(&self) -> bool {
        &&& self.encryption_algorithm@.len() == 0
        &&& self.encryption_key@.len() == 0
        &&& self.encryption_key_sha256@.len() == 0
    }

    open spec fn kept(&self, before: &Self) -> bool {
        true
    }

    fn request_query(&mut self) -> (query: Vec<(&'static str, String)>) {
        let mut query = Vec::new();
        assert(pairs(query@) =~= Seq::<Pair>::empty());
        query.push_if(constants::ENCRYPTION_ALGORITHM, &mut self.encryption_algorithm);
        assert(pairs(query@) == scalar(
            constants::ENCRYPTION_ALGORITHM@,
            old(self).encryption_algorithm,
        ));
        push_key(&mut query, constants::ENCRYPTION_KEY, &mut self.encryption_key);
        push_key(&mut query, constants::ENCRYPTION_KEY_SHA256, &mut self.encryption_key_sha256);
        proof {
            assert(self.query_spec() =~= Self::fixed_spec());
        }
        query
    }
}

impl InsertObjectRequest {
    /// The object that the upload creates, where the request says so.
    pub open spec fn resource(&self) -> Option<Object> {
        match self.first_message {
            Some(FirstMessage::InsertObjectSpec(spec)) => spec.resource,
            _ => None,
        }
    }
}

impl Query for InsertObjectRequest {
    open spec fn query_spec(&self) -> Seq<Pair> {
        self.common_request_params.query_spec() + self.common_object_request_params.query_spec()
            + seq![(constants::UPLOAD_TYPE@, "media"@)] + match self.resource() {
            Some(resource) => scalar(constants::NAME@, resource.name),
            None => Seq::empty(),
        }
    }

    open spec fn fixed_spec() -> Seq<Pair> {
        seq![(constants::UPLOAD_TYPE@, "media"@)]
    }

    open spec fn spent(&self) -> bool {
        &&& self.common_request_params is None
        &&& self.common_object_request_params is None
        &&& self.resource() is None
    }

    open spec fn kept(&self, before: &Self) -> bool {
        self.object_checksums == before.object_checksums
    }

    fn request_query(&mut self) -> (query: Vec<(&'static str, String)>) {
        let mut query = self.common_request_params.request_query();
        extend(&mut query, self.common_object_request_params.request_query());
        push_fixed(&mut query, constants::UPLOAD_TYPE, "media");
        match self.first_message.take() {
            Some(FirstMessage::InsertObjectSpec(mut spec)) => {
                match spec.resource.take() {
                    Some(mut resource) => {
                        query.push_if(constants::NAME, &mut resource.name);
                    },
                    None => {
                        assert(pairs(query@) + Seq::<Pair>::empty() =~= pairs(query@));
                    },
                }
                self.first_message = Some(FirstMessage::InsertObjectSpec(spec));
            },
            other => {
                assert(pairs(query@) + Seq::<Pair>::empty() =~= pairs(query@));
                self.first_message = other;
            },
        }
        proof {
            assert(self.query_spec() =~= Self::fixed_spec());
        }
        query
    }
}

impl Request for InsertObjectRequest {
    type Response = Object;

    open spec fn method_spec() -> Method {
        Method::Post
    }

    open spec fn scope_spec(&self) -> Seq<char> {
        default_scope_spec(Method::Post)
    }

    open spec fn path_spec(&self, base: UrlView) -> Result<UrlView, ErrorView> {
        match self.resource() {
            Some(resource) => then_segment(
                then_bucket(join_spec(base, "/upload/storage/v1/"@), resource.bucket@),
                "o"@,
            ),
            None => Err(ErrorView::Other("Expected an object to insert"@)),
        }
    }

    open spec fn headers_spec(&self) -> Seq<Pair> {
        Seq::empty()
    }

    fn request_method() -> (method: Method) {
        Method::Post
    }

    fn request_headers(&self) -> (headers: Vec<(String, String)>) {
        no_headers()
    }

    fn scope(&self) -> (scope: &'static str) {
        default_scope(Method::Post)
    }

    fn request_path(&self, base_url: Url) -> (path: Result<Url, Error>) {
        match &self.first_message {
            Some(FirstMessage::InsertObjectSpec(spec)) => match &spec.resource {
                Some(resource) => {
                    return base_url.join("/upload/storage/v1/")?.bucket(
                        resource.bucket.as_str(),
                    )?.join_segment("o");
                },
                None => {},
            },
            _ => {},
        }
        Err(Error::Other { source: String::from_str("Expected an object to insert") })
    }
}

/// The body of a composition.
#[derive(Clone, Debug, PartialEq, Eq)]
pub struct ComposeRequest {
    pub kind: &'static str,
    pub source_objects: Vec<SourceObjects>,
    pub destination: Object,
}

impl ComposeObjectRequest {
    /// Moves what travels in the body out of the request: the source objects, and
    /// the destination's metadata under the destination's bucket and name. The
    /// bucket and the name stay in the request, which needs them for its target.
    pub fn compose_body(&mut self) -> (body: ComposeRequest)
        ensures
            body.kind@ == "storage#composeRequest"@,
            body.source_objects == old(self).source_objects,
            body.destination.bucket@ == old(self).destination_bucket@,
            body.destination.name@ == old(self).destination_object@,
            match old(self).destination {
                Some(given) => body.destination == (Object {
                    bucket: body.destination.bucket,
                    name: body.destination.name,
                    ..given
                }),
                None => body.destination.is_blank(),
            },
            final(self).source_objects@.len() == 0,
            *final(self) == (ComposeObjectRequest {
                source_objects: final(self).source_objects,
                destination: None,
                ..*old(self)
            }),
    {
        let mut source_objects: Vec<SourceObjects> = Vec::new();
        core::mem::swap(&mut source_objects, &mut self.source_objects);
        let bucket = self.destination_bucket.clone();
        let name = self.destination_object.clone();
        let destination = match self.destination.take() {
            Some(given) => Object { bucket, name, ..given },
            None => Object {
                id: String::new(),
                name,
                bucket,
                generation: 0,
                metageneration: 0,
                content_type: String::new(),
                storage_class: String::new(),
                size: 0,
                md5_hash: String::new(),
                crc32c: None,
                cache_control: String::new(),
                etag: String::new(),
                time_created: None,
                updated: None,
                time_storage_class_updated: None,
                metadata: Vec::new(),
            },
        };
        ComposeRequest { kind: "storage#composeRequest", source_objects, destination }
    }
}

impl Query for GetObjectRequest {
    open spec fn query_spec(&self) -> Seq<Pair> {
        self.common_request_params.query_spec()
            + self.common_object_request_params.query_spec()
            + Projection::of(self.projection).query_spec()
            + scalar(constants::GENERATION@, self.generation)
            + optional(constants::IF_GENERATION_MATCH@, self.if_generation_match)
            + optional(constants::IF_GENERATION_NOT_MATCH@, self.if_generation_not_match)
            + optional(constants::IF_METAGENERATION_MATCH@, self.if_metageneration_match)
            + optional(constants::IF_METAGENERATION_NOT_MATCH@, self.if_metageneration_not_match)
    }

    open spec fn fixed_spec() -> Seq<Pair> {
        Seq::empty()
    }

    open spec fn spent(&self) -> bool {
        &&& self.common_request_params is None
        &&& self.common_object_request_params is None
        &&& self.projection == 0
        &&& self.generation == 0
        &&& self.if_generation_match is None
        &&& self.if_generation_not_match is None
        &&& self.if_metageneration_match is None
        &&& self.if_metageneration_not_match is None
    }

    open spec fn kept(&self, before: &Self) -> bool {
        self.bucket == before.bucket && self.object == before.object
    }

    fn request_query(&mut self) -> (query: Vec<(&'static str, String)>) {
        let mut query = self.common_request_params.request_query();
        extend(&mut query, self.common_object_request_params.request_query());
        push_enum(&mut query, Projection::from_i32(take_number(&mut self.projection)));
        query.push_if(constants::GENERATION, &mut self.generation);
        query.push_if_opt(constants::IF_GENERATION_MATCH, &mut self.if_generation_match);
        query.push_if_opt(constants::IF_GENERATION_NOT_MATCH, &mut self.if_generation_not_match);
        query.push_if_opt(constants::IF_METAGENERATION_MATCH, &mut self.if_metageneration_match);
        query.push_if_opt(
            constants::IF_METAGENERATION_NOT_MATCH,
            &mut self.if_metageneration_not_match,
        );
        proof {
            assert(self.query_spec() =~= Self::fixed_spec());
        }
        query
    }
}

impl Request for GetObjectRequest {
    type Response = Object;

    open spec fn method_spec() -> Method {
        Method::Get
    }

    open spec fn scope_spec(&self) -> Seq<char> {
        default_scope_spec(Method::Get)
    }

    open spec fn path_spec(&self, base: UrlView) -> Result<UrlView, ErrorView> {
        then_object(bucket_spec(base, self.bucket@), self.object@)
    }

    open spec fn headers_spec(&self) -> Seq<Pair> {
        Seq::empty()
    }

    fn request_method() -> (method: Method) {
        Method::Get
    }

    fn request_headers(&self) -> (headers: Vec<(String, String)>) {
        no_headers()
    }

    fn scope(&self) -> (scope: &'static str) {
        default_scope(Method::Get)
    }

    fn request_path(&self, base_url: Url) -> (path: Result<Url, Error>) {
        base_url.bucket(self.bucket.as_str())?.object(self.object.as_str())
    }
}

impl Query for ComposeObjectRequest {
    open spec fn query_spec(&self) -> Seq<Pair> {
        self.common_request_params.query_spec()
            + optional(constants::IF_METAGENERATION_MATCH@, self.if_metageneration_match)
            + optional(constants::IF_GENERATION_MATCH@, self.if_generation_match)
            + rekeyed(
                constants::DESTINATION_PREDEFINED_ACL@,
                PredefinedObjectAcl::of(self.destination_predefined_acl).query_spec(),
            )
            + scalar(constants::KMS_KEY_NAME@, self.kms_key_name)
    }

    open spec fn fixed_spec() -> Seq<Pair> {
        Seq::empty()
    }

    open spec fn spent(&self) -> bool {
        &&& self.common_request_params is None
        &&& self.if_metageneration_match is None
        &&& self.if_generation_match is None
        &&& self.destination_predefined_acl == 0
        &&& self.kms_key_name@.len() == 0
    }

    open spec fn kept(&self, before: &Self) -> bool {
        &&& self.destination_bucket == before.destination_bucket
        &&& self.destination_object == before.destination_object
        &&& self.destination == before.destination
        &&& self.source_objects == before.source_objects
        &&& self.common_object_request_params == before.common_object_request_params
    }

    fn request_query(&mut self) -> (query: Vec<(&'static str, String)>) {
        let mut query = self.common_request_params.request_query();
        query.push_if_opt(constants::IF_METAGENERATION_MATCH, &mut self.if_metageneration_match);
        query.push_if_opt(constants::IF_GENERATION_MATCH, &mut self.if_generation_match);
        push_enum_as(
            &mut query,
            constants::DESTINATION_PREDEFINED_ACL,
            PredefinedObjectAcl::from_i32(take_number(&mut self.destination_predefined_acl)),
        );
        query.push_if(constants::KMS_KEY_NAME, &mut self.kms_key_name);
        proof {
            assert(self.query_spec() =~= Self::fixed_spec());
        }
        query
    }
}

impl Request for ComposeObjectRequest {
    type Response = Object;

    open spec fn method_spec() -> Method {
        Method::Post
    }

    open spec fn scope_spec(&self) -> Seq<char> {
        default_scope_spec(Method::Post)
    }

    open spec fn path_spec(&self, base: UrlView) -> Result<UrlView, ErrorView> {
        then_segment(
            then_object(bucket_spec(base, self.destination_bucket@), self.destination_object@),
            "compose"@,
        )
    }

    open spec fn headers_spec(&self) -> Seq<Pair> {
        Seq::empty()
    }

    fn request_method() -> (method: Method) {
        Method::Post
    }

    fn request_headers(&self) -> (headers: Vec<(String, String)>) {
        no_headers()
    }

    fn scope(&self) -> (scope: &'static str) {
        default_scope(Method::Post)
    }

    fn request_path(&self, base_url: Url) -> (path: Result<Url, Error>) {
        base_url
            .bucket(self.destination_bucket.as_str())?
            .object(self.destination_object.as_str())?
            .join_segment("compose")
    }
}

impl Query for CopyObjectRequest {
    open spec fn query_spec(&self) -> Seq<Pair> {
        self.common_request_params.query_spec()
            + self.common_object_request_params.query_spec()
            + scalar(constants::DESTINATION_KMS_KEY_NAME@, self.destination_kms_key_name)
            + rekeyed(
                constants::DESTINATION_PREDEFINED_ACL@,
                PredefinedObjectAcl::of(self.destination_predefined_acl).query_spec(),
            )
            + optional(constants::IF_GENERATION_MATCH@, self.if_generation_match)
            + optional(constants::IF_GENERATION_NOT_MATCH@, self.if_generation_not_match)
            + optional(constants::IF_METAGENERATION_MATCH@, self.if_metageneration_match)
            + optional(constants::IF_METAGENERATION_NOT_MATCH@, self.if_metageneration_not_match)
            + optional(constants::IF_SOURCE_GENERATION_MATCH@, self.if_source_generation_match)
            + optional(
                constants::IF_SOURCE_GENERATION_NOT_MATCH@,
                self.if_source_generation_not_match,
            )
            + optional(
                constants::IF_SOURCE_METAGENERATION_MATCH@,
                self.if_source_metageneration_match,
            )
            + optional(
                constants::IF_SOURCE_METAGENERATION_NOT_MATCH@,
                self.if_source_metageneration_not_match,
            )
            + Projection::of(self.projection).query_spec()
            + scalar(constants::SOURCE_GENERATION@, self.source_generation)
    }

    open spec fn fixed_spec() -> Seq<Pair> {
        Seq::empty()
    }

    open spec fn spent(&self) -> bool {
        &&& self.common_request_params is None
        &&& self.common_object_request_params is None
        &&& self.destination_kms_key_name@.len() == 0
        &&& self.destination_predefined_acl == 0
        &&& self.if_generation_match is None
        &&& self.if_generation_not_match is None
        &&& self.if_metageneration_match is None
        &&& self.if_metageneration_not_match is None
        &&& self.if_source_generation_match is None
        &&& self.if_source_generation_not_match is None
        &&& self.if_source_metageneration_match is None
        &&& self.if_source_metageneration_not_match is None
        &&& self.projection == 0
        &&& self.source_generation == 0
    }

    open spec fn kept(&self, before: &Self) -> bool {
        &&& self.destination_bucket == before.destination_bucket
        &&& self.destination_object == before.destination_object
        &&& self.source_bucket == before.source_bucket
        &&& self.source_object == before.source_object
        &&& self.destination == before.destination
    }

    fn request_query(&mut self) -> (query: Vec<(&'static str, String)>) {
        let mut query = self.common_request_params.request_query();
        extend(&mut query, self.common_object_request_params.request_query());
        query.push_if(constants::DESTINATION_KMS_KEY_NAME, &mut self.destination_kms_key_name);
        push_enum_as(
            &mut query,
            constants::DESTINATION_PREDEFINED_ACL,
            PredefinedObjectAcl::from_i32(take_number(&mut self.destination_predefined_acl)),
        );
        query.push_if_opt(constants::IF_GENERATION_MATCH, &mut self.if_generation_match);
        query.push_if_opt(constants::IF_GENERATION_NOT_MATCH, &mut self.if_generation_not_match);
        query.push_if_opt(constants::IF_METAGENERATION_MATCH, &mut self.if_metageneration_match);
        query.push_if_opt(
            constants::IF_METAGENERATION_NOT_MATCH,
            &mut self.if_metageneration_not_match,
        );
        query.push_if_opt(
            constants::IF_SOURCE_GENERATION_MATCH,
            &mut self.if_source_generation_match,
        );
        query.push_if_opt(
            constants::IF_SOURCE_GENERATION_NOT_MATCH,
            &mut self.if_source_generation_not_match,
        );
        query.push_if_opt(
            constants::IF_SOURCE_METAGENERATION_MATCH,
            &mut self.if_source_metageneration_match,
        );
        query.push_if_opt(
            constants::IF_SOURCE_METAGENERATION_NOT_MATCH,
            &mut self.if_source_metageneration_not_match,
        );
        push_enum(&mut query, Projection::from_i32(take_number(&mut self.projection)));
        query.push_if(constants::SOURCE_GENERATION, &mut self.source_generation);
        proof {
            assert(self.query_spec() =~= Self::fixed_spec());
        }
        query
    }
}

impl Request for CopyObjectRequest {
    type Response = Object;

    open spec fn method_spec() -> Method {
        Method::Post
    }

    open spec fn scope_spec(&self) -> Seq<char> {
        default_scope_spec(Method::Post)
    }

    open spec fn path_spec(&self, base: UrlView) -> Result<UrlView, ErrorView> {
        then_object(
            then_bucket(
                then_segment(
                    then_slash_object(bucket_spec(base, self.source_bucket@), self.source_object@),
                    "copyTo"@,
                ),
                self.destination_bucket@,
            ),
            self.destination_object@,
        )
    }

    open spec fn headers_spec(&self) -> Seq<Pair> {
        Seq::empty()
    }

    fn request_method() -> (method: Method) {
        Method::Post
    }

    fn request_headers(&self) -> (headers: Vec<(String, String)>) {
        no_headers()
    }

    fn scope(&self) -> (scope: &'static str) {
        default_scope(Method::Post)
    }

    fn request_path(&self, base_url: Url) -> (path: Result<Url, Error>) {
        base_url
            .bucket(self.source_bucket.as_str())?
            .slash_object(self.source_object.as_str())?
            .join_segment("copyTo")?
            .bucket(self.destination_bucket.as_str())?
            .object(self.destination_object.as_str())
    }
}

impl Payload for CopyObjectRequest {
    type Body = Object;

    open spec fn body_spec(&self) -> Option<Self::Body> {
        self.destination
    }

    fn take_body(&mut self) -> (body: Option<Self::Body>)
        ensures
            *final(self) == (CopyObjectRequest { destination: None, ..*old(self) }),
    {
        self.destination.take()
    }
}

impl Query for RewriteObjectRequest {
    open spec fn query_spec(&self) -> Seq<Pair> {
        self.common_request_params.query_spec()
            + self.common_object_request_params.query_spec()
            + scalar(constants::DESTINATION_KMS_KEY_NAME@, self.destination_kms_key_name)
            + rekeyed(
                constants::DESTINATION_PREDEFINED_ACL@,
                PredefinedObjectAcl::of(self.destination_predefined_acl).query_spec(),
            )
            + optional(constants::IF_GENERATION_MATCH@, self.if_generation_match)
            + optional(constants::IF_GENERATION_NOT_MATCH@, self.if_generation_not_match)
            + optional(constants::IF_METAGENERATION_MATCH@, self.if_metageneration_match)
            + optional(constants::IF_METAGENERATION_NOT_MATCH@, self.if_metageneration_not_match)
            + optional(constants::IF_SOURCE_GENERATION_MATCH@, self.if_source_generation_match)
            + optional(
                constants::IF_SOURCE_GENERATION_NOT_MATCH@,
                self.if_source_generation_not_match,
            )
            + optional(
                constants::IF_SOURCE_METAGENERATION_MATCH@,
                self.if_source_metageneration_match,
            )
            + optional(
                constants::IF_SOURCE_METAGENERATION_NOT_MATCH@,
                self.if_source_metageneration_not_match,
            )
            + scalar(constants::MAX_BYTES_REWRITTEN_PER_CALL@, self.max_bytes_rewritten_per_call)
            + Projection::of(self.projection).query_spec()
            + scalar(constants::REWRITE_TOKEN@, self.rewrite_token)
            + scalar(constants::SOURCE_GENERATION@, self.source_generation)
    }

    open spec fn fixed_spec() -> Seq<Pair> {
        Seq::empty()
    }

    open spec fn spent(&self) -> bool {
        &&& self.common_request_params is None
        &&& self.common_object_request_params is None
        &&& self.destination_kms_key_name@.len() == 0
        &&& self.destination_predefined_acl == 0
        &&& self.if_generation_match is None
        &&& self.if_generation_not_match is None
        &&& self.if_metageneration_match is None
        &&& self.if_metageneration_not_match is None
        &&& self.if_source_generation_match is None
        &&& self.if_source_generation_not_match is None
        &&& self.if_source_metageneration_match is None
        &&& self.if_source_metageneration_not_match is None
        &&& self.max_bytes_rewritten_per_call == 0
        &&& self.projection == 0
        &&& self.rewrite_token@.len() == 0
        &&& self.source_generation == 0
    }

    open spec fn kept(&self, before: &Self) -> bool {
        &&& self.destination_bucket == before.destination_bucket
        &&& self.destination_object == before.destination_object
        &&& self.source_bucket == before.source_bucket
        &&& self.source_object == before.source_object
        &&& self.object == before.object
    }

    fn request_query(&mut self) -> (query: Vec<(&'static str, String)>) {
        let mut query = self.common_request_params.request_query();
        extend(&mut query, self.common_object_request_params.request_query());
        query.push_if(constants::DESTINATION_KMS_KEY_NAME, &mut self.destination_kms_key_name);
        push_enum_as(
            &mut query,
            constants::DESTINATION_PREDEFINED_ACL,
            PredefinedObjectAcl::from_i32(take_number(&mut self.destination_predefined_acl)),
        );
        query.push_if_opt(constants::IF_GENERATION_MATCH, &mut self.if_generation_match);
        query.push_if_opt(constants::IF_GENERATION_NOT_MATCH, &mut self.if_generation_not_match);
        query.push_if_opt(constants::IF_METAGENERATION_MATCH, &mut self.if_metageneration_match);
        query.push_if_opt(
            constants::IF_METAGENERATION_NOT_MATCH,
            &mut self.if_metageneration_not_match,
        );
        query.push_if_opt(
            constants::IF_SOURCE_GENERATION_MATCH,
            &mut self.if_source_generation_match,
        );
        query.push_if_opt(
            constants::IF_SOURCE_GENERATION_NOT_MATCH,
            &mut self.if_source_generation_not_match,
        );
        query.push_if_opt(
            constants::IF_SOURCE_METAGENERATION_MATCH,
            &mut self.if_source_metageneration_match,
        );
        query.push_if_opt(
            constants::IF_SOURCE_METAGENERATION_NOT_MATCH,
            &mut self.if_source_metageneration_not_match,
        );
        query.push_if(
            constants::MAX_BYTES_REWRITTEN_PER_CALL,
            &mut self.max_bytes_rewritten_per_call,
        );
        push_enum(&mut query, Projection::from_i32(take_number(&mut self.projection)));
        query.push_if(constants::REWRITE_TOKEN, &mut self.rewrite_token);
        query.push_if(constants::SOURCE_GENERATION, &mut self.source_generation);
        proof {
            assert(self.query_spec() =~= Self::fixed_spec());
        }
        query
    }
}

impl Request for RewriteObjectRequest {
    type Response = RewriteResponse;

    open spec fn method_spec() -> Method {
        Method::Post
    }

    open spec fn scope_spec(&self) -> Seq<char> {
        default_scope_spec(Method::Post)
    }

    open spec fn path_spec(&self, base: UrlView) -> Result<UrlView, ErrorView> {
        then_object(
            then_bucket(
                then_segment(
                    then_slash_object(bucket_spec(base, self.source_bucket@), self.source_object@),
                    "rewriteTo"@,
                ),
                self.destination_bucket@,
            ),
            self.destination_object@,
        )
    }

    open spec fn headers_spec(&self) -> Seq<Pair> {
        Seq::empty()
    }

    fn request_method() -> (method: Method) {
        Method::Post
    }

    fn request_headers(&self) -> (headers: Vec<(String, String)>) {
        no_headers()
    }

    fn scope(&self) -> (scope: &'static str) {
        default_scope(Method::Post)
    }

    fn request_path(&self, base_url: Url) -> (path: Result<Url, Error>) {
        base_url
            .bucket(self.source_bucket.as_str())?
            .slash_object(self.source_object.as_str())?
            .join_segment("rewriteTo")?
            .bucket(self.destination_bucket.as_str())?
            .object(self.destination_object.as_str())
    }
}

impl Payload for RewriteObjectRequest {
    type Body = Object;

    open spec fn body_spec(&self) -> Option<Self::Body> {
        self.object
    }

    fn take_body(&mut self) -> (body: Option<Self::Body>)
        ensures
            *final(self) == (RewriteObjectRequest { object: None, ..*old(self) }),
    {
        self.object.take()
    }
}

impl Query for GetObjectMediaRequest {
    open spec fn query_spec(&self) -> Seq<Pair> {
        self.common_request_params.query_spec()
            + self.common_object_request_params.query_spec()
            + seq![(constants::ALT@, "media"@)]
            + scalar(constants::GENERATION@, self.generation)
            + optional(constants::IF_GENERATION_MATCH@, self.if_generation_match)
            + optional(constants::IF_GENERATION_NOT_MATCH@, self.if_generation_not_match)
            + optional(constants::IF_METAGENERATION_MATCH@, self.if_metageneration_match)
            + optional(constants::IF_METAGENERATION_NOT_MATCH@, self.if_metageneration_not_match)
    }

    open spec fn fixed_spec() -> Seq<Pair> {
        seq![(constants::ALT@, "media"@)]
    }

    open spec fn spent(&self) -> bool {
        &&& self.common_request_params is None
        &&& self.common_object_request_params is None
        &&& self.generation == 0
        &&& self.if_generation_match is None
        &&& self.if_generation_not_match is None
        &&& self.if_metageneration_match is None
        &&& self.if_metageneration_not_match is None
    }

    open spec fn kept(&self, before: &Self) -> bool {
        self.bucket == before.bucket && self.object == before.object
    }

    fn request_query(&mut self) -> (query: Vec<(&'static str, String)>) {
        let mut query = self.common_request_params.request_query();
        extend(&mut query, self.common_object_request_params.request_query());
        push_fixed(&mut query, constants::ALT, "media");
        query.push_if(constants::GENERATION, &mut self.generation);
        query.push_if_opt(constants::IF_GENERATION_MATCH, &mut self.if_generation_match);
        query.push_if_opt(constants::IF_GENERATION_NOT_MATCH, &mut self.if_generation_not_match);
        query.push_if_opt(constants::IF_METAGENERATION_MATCH, &mut self.if_metageneration_match);
        query.push_if_opt(
            constants::IF_METAGENERATION_NOT_MATCH,
            &mut self.if_metageneration_not_match,
        );
        proof {
            assert(self.query_spec() =~= Self::fixed_spec());
        }
        query
    }
}

impl Request for GetObjectMediaRequest {
    type Response = Void;

    open spec fn method_spec() -> Method {
        Method::Get
    }

    open spec fn scope_spec(&self) -> Seq<char> {
        default_scope_spec(Method::Get)
    }

    open spec fn path_spec(&self, base: UrlView) -> Result<UrlView, ErrorView> {
        then_object(bucket_spec(base, self.bucket@), self.object@)
    }

    open spec fn headers_spec(&self) -> Seq<Pair> {
        Seq::empty()
    }

    fn request_method() -> (method: Method) {
        Method::Get
    }

    fn request_headers(&self) -> (headers: Vec<(String, String)>) {
        no_headers()
    }

    fn scope(&self) -> (scope: &'static str) {
        default_scope(Method::Get)
    }

    fn request_path(&self, base_url: Url) -> (path: Result<Url, Error>) {
        base_url.bucket(self.bucket.as_str())?.object(self.object.as_str())
    }
}

impl Query for DeleteObjectRequest {
    open spec fn query_spec(&self) -> Seq<Pair> {
        self.common_request_params.query_spec()
            + self.common_object_request_params.query_spec()
            + optional(constants::IF_GENERATION_MATCH@, self.if_generation_match)
            + optional(constants::IF_GENERATION_NOT_MATCH@, self.if_generation_not_match)
            + optional(constants::IF_METAGENERATION_MATCH@, self.if_metageneration_match)
            + optional(constants::IF_METAGENERATION_NOT_MATCH@, self.if_metageneration_not_match)
    }

    open spec fn fixed_spec() -> Seq<Pair> {
        Seq::empty()
    }

    open spec fn spent(&self) -> bool {
        &&& self.common_request_params is None
        &&& self.common_object_request_params is None
        &&& self.if_generation_match is None
        &&& self.if_generation_not_match is None
        &&& self.if_metageneration_match is None
        &&& self.if_metageneration_not_match is None
    }

    open spec fn kept(&self, before: &Self) -> bool {
        &&& self.bucket == before.bucket
        &&& self.object == before.object
        &&& self.generation == before.generation
    }

    fn request_query(&mut self) -> (query: Vec<(&'static str, String)>) {
        let mut query = self.common_request_params.request_query();
        extend(&mut query, self.common_object_request_params.request_query());
        query.push_if_opt(constants::IF_GENERATION_MATCH, &mut self.if_generation_match);
        query.push_if_opt(constants::IF_GENERATION_NOT_MATCH, &mut self.if_generation_not_match);
        query.push_if_opt(constants::IF_METAGENERATION_MATCH, &mut self.if_metageneration_match);
        query.push_if_opt(
            constants::IF_METAGENERATION_NOT_MATCH,
            &mut self.if_metageneration_not_match,
        );
        proof {
            assert(self.query_spec() =~= Self::fixed_spec());
        }
        query
    }
}

impl Request for DeleteObjectRequest {
    type Response = ();

    open spec fn method_spec() -> Method {
        Method::Delete
    }

    open spec fn scope_spec(&self) -> Seq<char> {
        default_scope_spec(Method::Delete)
    }

    open spec fn path_spec(&self, base: UrlView) -> Result<UrlView, ErrorView> {
        then_object(bucket_spec(base, self.bucket@), self.object@)
    }

    open spec fn headers_spec(&self) -> Seq<Pair> {
        Seq::empty()
    }

    fn request_method() -> (method: Method) {
        Method::Delete
    }

    fn request_headers(&self) -> (headers: Vec<(String, String)>) {
        no_headers()
    }

    fn scope(&self) -> (scope: &'static str) {
        default_scope(Method::Delete)
    }

    fn request_path(&self, base_url: Url) -> (path: Result<Url, Error>) {
        base_url.bucket(self.bucket.as_str())?.object(self.object.as_str())
    }
}

impl Query for UpdateObjectRequest {
    open spec fn query_spec(&self) -> Seq<Pair> {
        self.common_request_params.query_spec()
            + self.common_object_request_params.query_spec()
            + scalar(constants::GENERATION@, self.generation)
            + optional(constants::IF_GENERATION_MATCH@, self.if_generation_match)
            + optional(constants::IF_GENERATION_NOT_MATCH@, self.if_generation_not_match)
            + optional(constants::IF_METAGENERATION_MATCH@, self.if_metageneration_match)
            + optional(constants::IF_METAGENERATION_NOT_MATCH@, self.if_metageneration_not_match)
            + rekeyed(
                constants::PREDEFINED_ACL@,
                PredefinedObjectAcl::of(self.predefined_acl).query_spec(),
            )
            + Projection::of(self.projection).query_spec()
    }

    open spec fn fixed_spec() -> Seq<Pair> {
        Seq::empty()
    }

    open spec fn spent(&self) -> bool {
        &&& self.common_request_params is None
        &&& self.common_object_request_params is None
        &&& self.generation == 0
        &&& self.if_generation_match is None
        &&& self.if_generation_not_match is None
        &&& self.if_metageneration_match is None
        &&& self.if_metageneration_not_match is None
        &&& self.predefined_acl == 0
        &&& self.projection == 0
    }

    open spec fn kept(&self, before: &Self) -> bool {
        &&& self.bucket == before.bucket
        &&& self.object == before.object
        &&& self.metadata == before.metadata
    }

    fn request_query(&mut self) -> (query: Vec<(&'static str, String)>) {
        let mut query = self.common_request_params.request_query();
        extend(&mut query, self.common_object_request_params.request_query());
        query.push_if(constants::GENERATION, &mut self.generation);
        query.push_if_opt(constants::IF_GENERATION_MATCH, &mut self.if_generation_match);
        query.push_if_opt(constants::IF_GENERATION_NOT_MATCH, &mut self.if_generation_not_match);
        query.push_if_opt(constants::IF_METAGENERATION_MATCH, &mut self.if_metageneration_match);
        query.push_if_opt(
            constants::IF_METAGENERATION_NOT_MATCH,
            &mut self.if_metageneration_not_match,
        );
        push_enum_as(
            &mut query,
            constants::PREDEFINED_ACL,
            PredefinedObjectAcl::from_i32(take_number(&mut self.predefined_acl)),
        );
        push_enum(&mut query, Projection::from_i32(take_number(&mut self.projection)));
        proof {
            assert(self.query_spec() =~= Self::fixed_spec());
        }
        query
    }
}

impl Request for UpdateObjectRequest {
    type Response = Object;

    open spec fn method_spec() -> Method {
        Method::Put
    }

    open spec fn scope_spec(&self) -> Seq<char> {
        default_scope_spec(Method::Put)
    }

    open spec fn path_spec(&self, base: UrlView) -> Result<UrlView, ErrorView> {
        then_object(bucket_spec(base, self.bucket@), self.object@)
    }

    open spec fn headers_spec(&self) -> Seq<Pair> {
        Seq::empty()
    }

    fn request_method() -> (method: Method) {
        Method::Put
    }

    fn request_headers(&self) -> (headers: Vec<(String, String)>) {
        no_headers()
    }

    fn scope(&self) -> (scope: &'static str) {
        default_scope(Method::Put)
    }

    fn request_path(&self, base_url: Url) -> (path: Result<Url, Error>) {
        base_url.bucket(self.bucket.as_str())?.object(self.object.as_str())
    }
}

impl Payload for UpdateObjectRequest {
    type Body = Object;

    open spec fn body_spec(&self) -> Option<Self::Body> {
        self.metadata
    }

    fn take_body(&mut self) -> (body: Option<Self::Body>)
        ensures
            *final(self) == (UpdateObjectRequest { metadata: None, ..*old(self) }),
    {
        self.metadata.take()
    }
}

impl Query for ListObjectsRequest {
    open spec fn query_spec(&self) -> Seq<Pair> {
        self.common_request_params.query_spec()
            + scalar(constants::DELIMITER@, self.delimiter)
            + scalar(constants::INCLUDE_TRAILING_DELIMITER@, self.include_trailing_delimiter)
            + scalar(constants::MAX_RESULTS@, self.max_results)
            + scalar(constants::PAGE_TOKEN@, self.page_token)
            + scalar(constants::PREFIX@, self.prefix)
            + Projection::of(self.projection).query_spec()
            + scalar(constants::VERSIONS@, self.versions)
    }

    open spec fn fixed_spec() -> Seq<Pair> {
        Seq::empty()
    }

    open spec fn spent(&self) -> bool {
        &&& self.common_request_params is None
        &&& self.delimiter@.len() == 0
        &&& !self.include_trailing_delimiter
        &&& self.max_results == 0
        &&& self.page_token@.len() == 0
        &&& self.prefix@.len() == 0
        &&& self.projection == 0
        &&& !self.versions
    }

    open spec fn kept(&self, before: &Self) -> bool {
        self.bucket == before.bucket
    }

    fn request_query(&mut self) -> (query: Vec<(&'static str, String)>) {
        let mut query = self.common_request_params.request_query();
        query.push_if(constants::DELIMITER, &mut self.delimiter);
        query.push_if(constants::INCLUDE_TRAILING_DELIMITER, &mut self.include_trailing_delimiter);
        query.push_if(constants::MAX_RESULTS, &mut self.max_results);
        query.push_if(constants::PAGE_TOKEN, &mut self.page_token);
        query.push_if(constants::PREFIX, &mut self.prefix);
        push_enum(&mut query, Projection::from_i32(take_number(&mut self.projection)));
        query.push_if(constants::VERSIONS, &mut self.versions);
        proof {
            assert(self.query_spec() =~= Self::fixed_spec());
        }
        query
    }
}

impl Request for ListObjectsRequest {
    type Response = ListObjectsResponse;

    open spec fn method_spec() -> Method {
        Method::Get
    }

    open spec fn scope_spec(&self) -> Seq<char> {
        default_scope_spec(Method::Get)
    }

    open spec fn path_spec(&self, base: UrlView) -> Result<UrlView, ErrorView> {
        then_segment(bucket_spec(base, self.bucket@), "o"@)
    }

    open spec fn headers_spec(&self) -> Seq<Pair> {
        Seq::empty()
    }

    fn request_method() -> (method: Method) {
        Method::Get
    }

    fn request_headers(&self) -> (headers: Vec<(String, String)>) {
        no_headers()
    }

    fn scope(&self) -> (scope: &'static str) {
        default_scope(Method::Get)
    }

    fn request_path(&self, base_url: Url) -> (path: Result<Url, Error>) {
        base_url.bucket(self.bucket.as_str())?.join_segment("o")
    }
}

impl Clone for ListObjectsRequest {
    fn clone(&self) -> (copy: Self)
        ensures
            copy.same(self),
    {
        ListObjectsRequest {
            bucket: self.bucket.clone(),
            delimiter: self.delimiter.clone(),
            include_trailing_delimiter: self.include_trailing_delimiter,
            max_results: self.max_results,
            page_token: self.page_token.clone(),
            prefix: self.prefix.clone(),
            projection: self.projection,
            versions: self.versions,
            common_request_params: clone_params(&self.common_request_params),
        }
    }
}

impl Paginate for ListObjectsRequest {
    type Item = Object;

    open spec fn items_spec(response: Self::Response) -> Seq<Self::Item> {
        response.items@
    }

    open spec fn token_spec(response: &Self::Response) -> Seq<char> {
        response.next_page_token@
    }

    open spec fn next_spec(self, response: &Self::Response) -> Self {
        ListObjectsRequest { page_token: response.next_page_token, ..self }
    }

    open spec fn same(&self, other: &Self) -> bool {
        &&& self.bucket@ == other.bucket@
        &&& self.delimiter@ == other.delimiter@
        &&& self.include_trailing_delimiter == other.include_trailing_delimiter
        &&& self.max_results == other.max_results
        &&& self.page_token@ == other.page_token@
        &&& self.prefix@ == other.prefix@
        &&& self.projection == other.projection
        &&& self.versions == other.versions
        &&& same_params(self.common_request_params, other.common_request_params)
    }

    proof fn copy_is_same(&self, copy: &Self) {
    }

    proof fn next_of_same(self, other: Self, response: &Self::Response) {
    }

    fn extract_items(response: Self::Response) -> (items: Vec<Self::Item>) {
        response.items
    }

    fn into_request(self, response: &Self::Response) -> (next: Option<Self>) {
        if response.next_page_token.as_str().is_empty() {
            None
        } else {
            Some(ListObjectsRequest { page_token: response.next_page_token.clone(), ..self })
        }
    }
}

} // verus!
