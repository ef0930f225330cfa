//! Requests, responses and resources of version 1 of the storage service.

pub mod common_enums;

use crate::google::iam;
use crate::google::protobuf::{FieldMask, Timestamp};
use vstd::prelude::*;

verus! {

/// Parameters that every request can carry.
#[derive(Debug, Default, PartialEq, Eq)]
pub struct CommonRequestParams {
    pub user_project: String,
    pub quota_user: String,
    pub fields: Option<FieldMask>,
}

impl CommonRequestParams {
    /// Whether the two agree field by field, text being compared as text.
    pub open spec fn same(&self, other: &Self) -> bool {
        &&& self.user_project@ == other.user_project@
        &&& self.quota_user@ == other.quota_user@
        &&& match (self.fields, other.fields) {
            (Some(mask), Some(other_mask)) => mask.same(&other_mask),
            (None, None) => true,
            _ => false,
        }
    }
}

impl Clone for CommonRequestParams {
    fn clone(&self) -> (copy: Self)
        ensures
            copy.same(self),
    {
        CommonRequestParams {
            user_project: self.user_project.clone(),
            quota_user: self.quota_user.clone(),
            fields: match &self.fields {
                Some(mask) => Some(mask.clone()),
                None => None,
            },
        }
    }
}

/// Whether the two agree: both absent, or both present and the same.
pub open spec fn same_params(
    left: Option<CommonRequestParams>,
    right: Option<CommonRequestParams>,
) -> bool {
    match (left, right) {
        (Some(left), Some(right)) => left.same(&right),
        (None, None) => true,
        _ => false,
    }
}

/// A copy of the parameters, where there are any.
pub fn clone_params(params: &Option<CommonRequestParams>) -> (copy: Option<CommonRequestParams>)
    ensures
        same_params(copy, *params),
{
    match params {
        Some(params) => Some(params.clone()),
        None => None,
    }
}

/// Parameters that every request on an object can carry.
#[derive(Clone, Debug, Default, PartialEq, Eq)]
pub struct CommonObjectRequestParams {
    pub encryption_algorithm: String,
    pub encryption_key: String,
    pub encryption_key_sha256: String,
}

/// A bucket.
#[derive(Clone, Debug, Default, PartialEq, Eq)]
pub struct Bucket {
    pub id: String,
    pub name: String,
    pub project_number: i64,
    pub metageneration: i64,
    pub location: String,
    pub storage_class: String,
    pub etag: String,
    pub time_created: Option<Timestamp>,
    pub updated: Option<Timestamp>,
}

/// One page of buckets.
#[derive(Clone, Debug, Default, PartialEq, Eq)]
pub struct ListBucketsResponse {
    pub items: Vec<Bucket>,
    pub next_page_token: String,
}

/// An object.
#[derive(Clone, Debug, Default, PartialEq, Eq)]
pub struct Object {
    pub id: String,
    pub name: String,
    pub bucket: String,
    pub generation: i64,
    pub metageneration: i64,
    pub content_type: String,
    pub storage_class: String,
    pub size: i64,
    pub md5_hash: String,
    pub crc32c: Option<u32>,
    pub cache_control: String,
    pub etag: String,
    pub time_created: Option<Timestamp>,
    pub updated: Option<Timestamp>,
    pub time_storage_class_updated: Option<Timestamp>,
    pub metadata: Vec<(String, String)>,
}

/// One page of objects.
#[derive(Clone, Debug, Default, PartialEq, Eq)]
pub struct ListObjectsResponse {
    pub prefixes: Vec<String>,
    pub items: Vec<Object>,
    pub next_page_token: String,
}

/// How far a rewrite has come.
#[derive(Clone, Debug, Default, PartialEq, Eq)]
pub struct RewriteResponse {
    pub total_bytes_rewritten: i64,
    pub object_size: i64,
    pub done: bool,
    pub rewrite_token: String,
    pub resource: Option<Object>,
}

/// Conditions on a source object of a composition.
#[derive(Clone, Debug, Default, PartialEq, Eq)]
pub struct ObjectPreconditions {
    pub if_generation_match: Option<i64>,
}

/// A source object of a composition.
#[derive(Clone, Debug, Default, PartialEq, Eq)]
pub struct SourceObjects {
    pub name: String,
    pub generation: i64,
    pub object_preconditions: Option<ObjectPreconditions>,
}

/// Checksums that the service verifies an upload against.
#[derive(Clone, Debug, Default, PartialEq, Eq)]
pub struct ObjectChecksums {
    pub crc32c: Option<u32>,
    pub md5_hash: String,
}

/// What an upload creates.
#[derive(Clone, Debug, Default, PartialEq, Eq)]
pub struct InsertObjectSpec {
    pub resource: Option<Object>,
    pub predefined_acl: i32,
    pub if_generation_match: Option<i64>,
    pub if_generation_not_match: Option<i64>,
    pub if_metageneration_match: Option<i64>,
    pub if_metageneration_not_match: Option<i64>,
    pub projection: i32,
}

/// The metadata of an HMAC key.
#[derive(Clone, Debug, Default, PartialEq, Eq)]
pub struct HmacKeyMetadata {
    pub id: String,
    pub access_id: String,
    pub project_id: String,
    pub service_account_email: String,
    pub state: String,
    pub time_created: Option<Timestamp>,
    pub updated: Option<Timestamp>,
    pub etag: String,
}

/// A new HMAC key and its secret.
#[derive(Clone, Debug, Default, PartialEq, Eq)]
pub struct CreateHmacKeyResponse {
    pub metadata: Option<HmacKeyMetadata>,
    pub secret: String,
}

/// One page of HMAC keys.
#[derive(Clone, Debug, Default, PartialEq, Eq)]
pub struct ListHmacKeysResponse {
    pub next_page_token: String,
    pub items: Vec<HmacKeyMetadata>,
}

/// A notification subscription.
#[derive(Clone, Debug, Default, PartialEq, Eq)]
pub struct Notification {
    pub topic: String,
    pub event_types: Vec<String>,
    pub custom_attributes: Vec<(String, String)>,
    pub etag: String,
    pub object_name_prefix: String,
    pub payload_format: String,
    pub id: String,
}

/// The notification subscriptions of a bucket.
#[derive(Clone, Debug, Default, PartialEq, Eq)]
pub struct ListNotificationsResponse {
    pub items: Vec<Notification>,
}

/// The project team that an entity stands for.
#[derive(Clone, Debug, Default, PartialEq, Eq)]
pub struct ProjectTeam {
    pub project_number: String,
    pub team: String,
}

/// An ACL entry on a bucket.
#[derive(Clone, Debug, Default, PartialEq, Eq)]
pub struct BucketAccessControl {
    pub role: String,
    pub etag: String,
    pub id: String,
    pub bucket: String,
    pub entity: String,
    pub entity_id: String,
    pub email: String,
    pub domain: String,
    pub project_team: Option<ProjectTeam>,
}

/// The ACL entries of a bucket.
#[derive(Clone, Debug, Default, PartialEq, Eq)]
pub struct ListBucketAccessControlsResponse {
    pub items: Vec<BucketAccessControl>,
}

/// An ACL entry on an object.
#[derive(Clone, Debug, Default, PartialEq, Eq)]
pub struct ObjectAccessControl {
    pub role: String,
    pub etag: String,
    pub id: String,
    pub bucket: String,
    pub object: String,
    pub generation: i64,
    pub entity: String,
    pub entity_id: String,
    pub email: String,
    pub domain: String,
    pub project_team: Option<ProjectTeam>,
}

/// The ACL entries of an object.
#[derive(Clone, Debug, Default, PartialEq, Eq)]
pub struct ListObjectAccessControlsResponse {
    pub items: Vec<ObjectAccessControl>,
}

/// How an upload begins: with the spec of what it creates, or with the id of an
/// upload that is resumed.
#[derive(Clone, Debug, PartialEq, Eq)]
pub enum FirstMessage {
    UploadId(String),
    InsertObjectSpec(InsertObjectSpec),
}

/// Uploads an object; the data travels in the body.
#[derive(Clone, Debug, Default, PartialEq, Eq)]
pub struct InsertObjectRequest {
    pub first_message: Option<FirstMessage>,
    pub object_checksums: Option<ObjectChecksums>,
    pub common_object_request_params: Option<CommonObjectRequestParams>,
    pub common_request_params: Option<CommonRequestParams>,
}

/// Reads the IAM policy of a bucket.
#[derive(Clone, Debug, Default, PartialEq, Eq)]
pub struct GetIamPolicyRequest {
    pub iam_request: Option<iam::v1::GetIamPolicyRequest>,
    pub common_request_params: Option<CommonRequestParams>,
}

/// Replaces the IAM policy of a bucket; the policy travels in the body.
#[derive(Clone, Debug, Default, PartialEq, Eq)]
pub struct SetIamPolicyRequest {
    pub iam_request: Option<iam::v1::SetIamPolicyRequest>,
    pub common_request_params: Option<CommonRequestParams>,
}

/// Asks which of a set of permissions the caller holds on a bucket.
#[derive(Clone, Debug, Default, PartialEq, Eq)]
pub struct TestIamPermissionsRequest {
    pub iam_request: Option<iam::v1::TestIamPermissionsRequest>,
    pub common_request_params: Option<CommonRequestParams>,
}

/// Lists the buckets of a project.
#[derive(Debug, Default, PartialEq, Eq)]
pub struct ListBucketsRequest {
    pub max_results: i32,
    pub page_token: String,
    pub prefix: String,
    pub project: String,
    pub projection: i32,
    pub common_request_params: Option<CommonRequestParams>,
}

/// Creates a bucket; the bucket itself travels in the body.
#[derive(Clone, Debug, Default, PartialEq, Eq)]
pub struct InsertBucketRequest {
    pub predefined_acl: i32,
    pub predefined_default_object_acl: i32,
    pub project: String,
    pub projection: i32,
    pub bucket: Option<Bucket>,
    pub common_request_params: Option<CommonRequestParams>,
}

/// Deletes an empty bucket.
#[derive(Clone, Debug, Default, PartialEq, Eq)]
pub struct DeleteBucketRequest {
    pub bucket: String,
    pub if_metageneration_match: Option<i64>,
    pub if_metageneration_not_match: Option<i64>,
    pub common_request_params: Option<CommonRequestParams>,
}

/// Reads the metadata of a bucket.
#[derive(Clone, Debug, Default, PartialEq, Eq)]
pub struct GetBucketRequest {
    pub bucket: String,
    pub if_metageneration_match: Option<i64>,
    pub if_metageneration_not_match: Option<i64>,
    pub projection: i32,
    pub common_request_params: Option<CommonRequestParams>,
}

/// Replaces the metadata of a bucket; the metadata travels in the body.
#[derive(Clone, Debug, Default, PartialEq, Eq)]
pub struct UpdateBucketRequest {
    pub bucket: String,
    pub if_metageneration_match: Option<i64>,
    pub if_metageneration_not_match: Option<i64>,
    pub metadata: Option<Bucket>,
    pub predefined_acl: i32,
    pub predefined_default_object_acl: i32,
    pub projection: i32,
    pub common_request_params: Option<CommonRequestParams>,
}

/// Reads the metadata of an object.
#[derive(Clone, Debug, Default, PartialEq, Eq)]
pub struct GetObjectRequest {
    pub bucket: String,
    pub object: String,
    pub generation: i64,
    pub if_generation_match: Option<i64>,
    pub if_generation_not_match: Option<i64>,
    pub if_metageneration_match: Option<i64>,
    pub if_metageneration_not_match: Option<i64>,
    pub projection: i32,
    pub common_object_request_params: Option<CommonObjectRequestParams>,
    pub common_request_params: Option<CommonRequestParams>,
}

/// Concatenates objects of one bucket into a new object.
#[derive(Clone, Debug, Default, PartialEq, Eq)]
pub struct ComposeObjectRequest {
    pub destination_bucket: String,
    pub destination_object: String,
    pub destination_predefined_acl: i32,
    pub destination: Option<Object>,
    pub source_objects: Vec<SourceObjects>,
    pub if_generation_match: Option<i64>,
    pub if_metageneration_match: Option<i64>,
    pub kms_key_name: String,
    pub common_object_request_params: Option<CommonObjectRequestParams>,
    pub common_request_params: Option<CommonRequestParams>,
}

/// Copies an object; metadata to override travels in the body.
#[derive(Clone, Debug, Default, PartialEq, Eq)]
pub struct CopyObjectRequest {
    pub destination_bucket: String,
    pub destination_object: String,
    pub destination_kms_key_name: String,
    pub destination_predefined_acl: i32,
    pub if_generation_match: Option<i64>,
    pub if_generation_not_match: Option<i64>,
    pub if_metageneration_match: Option<i64>,
    pub if_metageneration_not_match: Option<i64>,
    pub if_source_generation_match: Option<i64>,
    pub if_source_generation_not_match: Option<i64>,
    pub if_source_metageneration_match: Option<i64>,
    pub if_source_metageneration_not_match: Option<i64>,
    pub projection: i32,
    pub source_bucket: String,
    pub source_object: String,
    pub source_generation: i64,
    pub destination: Option<Object>,
    pub common_object_request_params: Option<CommonObjectRequestParams>,
    pub common_request_params: Option<CommonRequestParams>,
}

/// Rewrites an object, in as many calls as its size asks for.
#[derive(Clone, Debug, Default, PartialEq, Eq)]
pub struct RewriteObjectRequest {
    pub destination_bucket: String,
    pub destination_object: String,
    pub destination_kms_key_name: String,
    pub destination_predefined_acl: i32,
    pub if_generation_match: Option<i64>,
    pub if_generation_not_match: Option<i64>,
    pub if_metageneration_match: Option<i64>,
    pub if_metageneration_not_match: Option<i64>,
    pub if_source_generation_match: Option<i64>,
    pub if_source_generation_not_match: Option<i64>,
    pub if_source_metageneration_match: Option<i64>,
    pub if_source_metageneration_not_match: Option<i64>,
    pub projection: i32,
    pub source_bucket: String,
    pub source_object: String,
    pub source_generation: i64,
    pub max_bytes_rewritten_per_call: i64,
    pub rewrite_token: String,
    pub object: Option<Object>,
    pub common_object_request_params: Option<CommonObjectRequestParams>,
    pub common_request_params: Option<CommonRequestParams>,
}

/// Reads the data of an object.
#[derive(Clone, Debug, Default, PartialEq, Eq)]
pub struct GetObjectMediaRequest {
    pub bucket: String,
    pub object: String,
    pub generation: i64,
    pub if_generation_match: Option<i64>,
    pub if_generation_not_match: Option<i64>,
    pub if_metageneration_match: Option<i64>,
    pub if_metageneration_not_match: Option<i64>,
    pub common_object_request_params: Option<CommonObjectRequestParams>,
    pub common_request_params: Option<CommonRequestParams>,
}

/// Deletes an object and its metadata.
#[derive(Clone, Debug, Default, PartialEq, Eq)]
pub struct DeleteObjectRequest {
    pub bucket: String,
    pub object: String,
    pub generation: i64,
    pub if_generation_match: Option<i64>,
    pub if_generation_not_match: Option<i64>,
    pub if_metageneration_match: Option<i64>,
    pub if_metageneration_not_match: Option<i64>,
    pub common_object_request_params: Option<CommonObjectRequestParams>,
    pub common_request_params: Option<CommonRequestParams>,
}

/// Replaces the metadata of an object; the metadata travels in the body.
#[derive(Clone, Debug, Default, PartialEq, Eq)]
pub struct UpdateObjectRequest {
    pub bucket: String,
    pub object: String,
    pub generation: i64,
    pub if_generation_match: Option<i64>,
    pub if_generation_not_match: Option<i64>,
    pub if_metageneration_match: Option<i64>,
    pub if_metageneration_not_match: Option<i64>,
    pub predefined_acl: i32,
    pub projection: i32,
    pub metadata: Option<Object>,
    pub common_object_request_params: Option<CommonObjectRequestParams>,
    pub common_request_params: Option<CommonRequestParams>,
}

/// Lists the objects of a bucket.
#[derive(Debug, Default, PartialEq, Eq)]
pub struct ListObjectsRequest {
    pub bucket: String,
    pub delimiter: String,
    pub include_trailing_delimiter: bool,
    pub max_results: i32,
    pub page_token: String,
    pub prefix: String,
    pub projection: i32,
    pub versions: bool,
    pub common_request_params: Option<CommonRequestParams>,
}

/// Creates an HMAC key for a service account.
#[derive(Clone, Debug, Default, PartialEq, Eq)]
pub struct CreateHmacKeyRequest {
    pub project_id: String,
    pub service_account_email: String,
    pub common_request_params: Option<CommonRequestParams>,
}

/// Lists the HMAC keys of a project.
#[derive(Debug, Default, PartialEq, Eq)]
pub struct ListHmacKeysRequest {
    pub project_id: String,
    pub service_account_email: String,
    pub show_deleted_keys: bool,
    pub max_results: i32,
    pub page_token: String,
    pub common_request_params: Option<CommonRequestParams>,
}

/// Reads the metadata of an HMAC key.
#[derive(Clone, Debug, Default, PartialEq, Eq)]
pub struct GetHmacKeyRequest {
    pub access_id: String,
    pub project_id: String,
    pub common_request_params: Option<CommonRequestParams>,
}

/// Switches an HMAC key between active and inactive; the metadata travels in the body.
#[derive(Clone, Debug, Default, PartialEq, Eq)]
pub struct UpdateHmacKeyRequest {
    pub access_id: String,
    pub project_id: String,
    pub metadata: Option<HmacKeyMetadata>,
    pub common_request_params: Option<CommonRequestParams>,
}

/// Deletes an inactive HMAC key.
#[derive(Clone, Debug, Default, PartialEq, Eq)]
pub struct DeleteHmacKeyRequest {
    pub access_id: String,
    pub project_id: String,
    pub common_request_params: Option<CommonRequestParams>,
}

/// Deletes a notification subscription.
#[derive(Clone, Debug, Default, PartialEq, Eq)]
pub struct DeleteNotificationRequest {
    pub bucket: String,
    pub notification: String,
    pub common_request_params: Option<CommonRequestParams>,
}

/// Reads a notification configuration.
#[derive(Clone, Debug, Default, PartialEq, Eq)]
pub struct GetNotificationRequest {
    pub bucket: String,
    pub notification: String,
    pub common_request_params: Option<CommonRequestParams>,
}

/// Creates a notification subscription; the configuration travels in the body.
#[derive(Clone, Debug, Default, PartialEq, Eq)]
pub struct InsertNotificationRequest {
    pub bucket: String,
    pub notification: Option<Notification>,
    pub common_request_params: Option<CommonRequestParams>,
}

/// Lists the notification subscriptions of a bucket.
#[derive(Clone, Debug, Default, PartialEq, Eq)]
pub struct ListNotificationsRequest {
    pub bucket: String,
    pub common_request_params: Option<CommonRequestParams>,
}

/// Creates an ACL entry on a bucket; the entry travels in the body.
#[derive(Clone, Debug, Default, PartialEq, Eq)]
pub struct InsertBucketAccessControlRequest {
    pub bucket: String,
    pub bucket_access_control: Option<BucketAccessControl>,
    pub common_request_params: Option<CommonRequestParams>,
}

/// Reads the ACL entry of an entity on a bucket.
#[derive(Clone, Debug, Default, PartialEq, Eq)]
pub struct GetBucketAccessControlRequest {
    pub bucket: String,
    pub entity: String,
    pub common_request_params: Option<CommonRequestParams>,
}

/// Replaces an ACL entry on a bucket; the entry travels in the body.
#[derive(Clone, Debug, Default, PartialEq, Eq)]
pub struct UpdateBucketAccessControlRequest {
    pub bucket: String,
    pub entity: String,
    pub bucket_access_control: Option<BucketAccessControl>,
    pub common_request_params: Option<CommonRequestParams>,
}

/// Deletes the ACL entry of an entity on a bucket.
#[derive(Clone, Debug, Default, PartialEq, Eq)]
pub struct DeleteBucketAccessControlRequest {
    pub bucket: String,
    pub entity: String,
    pub common_request_params: Option<CommonRequestParams>,
}

/// Lists the ACL entries of a bucket.
#[derive(Clone, Debug, Default, PartialEq, Eq)]
pub struct ListBucketAccessControlsRequest {
    pub bucket: String,
    pub common_request_params: Option<CommonRequestParams>,
}

/// Creates an ACL entry on an object; the entry travels in the body.
#[derive(Clone, Debug, Default, PartialEq, Eq)]
pub struct InsertObjectAccessControlRequest {
    pub bucket: String,
    pub object: String,
    pub generation: i64,
    pub object_access_control: Option<ObjectAccessControl>,
    pub common_request_params: Option<CommonRequestParams>,
}

/// Lists the ACL entries of an object.
#[derive(Clone, Debug, Default, PartialEq, Eq)]
pub struct ListObjectAccessControlsRequest {
    pub bucket: String,
    pub object: String,
    pub generation: i64,
    pub common_request_params: Option<CommonRequestParams>,
}

/// Reads the ACL entry of an entity on an object.
#[derive(Clone, Debug, Default, PartialEq, Eq)]
pub struct GetObjectAccessControlRequest {
    pub bucket: String,
    pub entity: String,
    pub object: String,
    pub generation: i64,
    pub common_request_params: Option<CommonRequestParams>,
}

/// Replaces an ACL entry on an object; the entry travels in the body.
#[derive(Clone, Debug, Default, PartialEq, Eq)]
pub struct UpdateObjectAccessControlRequest {
    pub bucket: String,
    pub entity: String,
    pub object: String,
    pub generation: i64,
    pub object_access_control: Option<ObjectAccessControl>,
    pub common_request_params: Option<CommonRequestParams>,
}

/// Deletes the ACL entry of an entity on an object.
#[derive(Clone, Debug, Default, PartialEq, Eq)]
pub struct DeleteObjectAccessControlRequest {
    pub bucket: String,
    pub entity: String,
    pub object: String,
    pub generation: i64,
    pub common_request_params: Option<CommonRequestParams>,
}

/// Creates a default object ACL entry on a bucket; the entry travels in the body.
#[derive(Clone, Debug, Default, PartialEq, Eq)]
pub struct InsertDefaultObjectAccessControlRequest {
    pub bucket: String,
    pub object_access_control: Option<ObjectAccessControl>,
    pub common_request_params: Option<CommonRequestParams>,
}

/// Lists the default object ACL entries of a bucket.
#[derive(Clone, Debug, Default, PartialEq, Eq)]
pub struct ListDefaultObjectAccessControlsRequest {
    pub bucket: String,
    pub if_metageneration_match: Option<i64>,
    pub if_metageneration_not_match: Option<i64>,
    pub common_request_params: Option<CommonRequestParams>,
}

/// Reads the default object ACL entry of an entity on a bucket.
#[derive(Clone, Debug, Default, PartialEq, Eq)]
pub struct GetDefaultObjectAccessControlRequest {
    pub bucket: String,
    pub entity: String,
    pub common_request_params: Option<CommonRequestParams>,
}

/// Replaces a default object ACL entry on a bucket; the entry travels in the body.
#[derive(Clone, Debug, Default, PartialEq, Eq)]
pub struct UpdateDefaultObjectAccessControlRequest {
    pub bucket: String,
    pub entity: String,
    pub object_access_control: Option<ObjectAccessControl>,
    pub common_request_params: Option<CommonRequestParams>,
}

/// Deletes the default object ACL entry of an entity on a bucket.
#[derive(Clone, Debug, Default, PartialEq, Eq)]
pub struct DeleteDefaultObjectAccessControlRequest {
    pub bucket: String,
    pub entity: String,
    pub common_request_params: Option<CommonRequestParams>,
}

} // verus!
