use google_cloud_storage::bucket::condition;
use google_cloud_storage::error::Error;
use google_cloud_storage::query::Query;
use google_cloud_storage::google::storage::v1::{
    Bucket, DeleteBucketRequest, DeleteObjectRequest, GetBucketRequest, GetObjectMediaRequest,
    GetObjectRequest, InsertBucketRequest, ListObjectsRequest, Object, UpdateBucketRequest,
};
use google_cloud_storage::text::{same_text, trim_leading_slashes};
use google_cloud_storage::request::Request;
use google_cloud_storage::urls::Url;

#[test]
fn object_from_uri() {
    let object = Object::from_str("gs://bucket/dir/name.txt").unwrap();
    assert_eq!(object.bucket, "bucket");
    assert_eq!(object.name, "dir/name.txt");
    assert_eq!(
        object,
        Object { bucket: "bucket".to_string(), name: "dir/name.txt".to_string(), ..Default::default() }
    );
}

#[test]
fn object_from_uri_without_object() {
    let object = Object::from_str("gs://bucket").unwrap();
    assert_eq!(object.bucket, "bucket");
    assert_eq!(object.name, "");
}

#[test]
fn object_from_other_scheme_is_refused() {
    match Object::from_str("s3://bucket/object") {
        Err(Error::Other { source }) => assert_eq!(source, "Unexpected scheme {}"),
        other => panic!("unexpected {:?}", other),
    }
}

#[test]
fn object_from_text_that_is_no_url_is_refused() {
    assert!(matches!(Object::from_str("bucket/object"), Err(Error::Url { .. })));
}

#[test]
fn object_try_from_url() {
    let url = Url::parse("gs://bucket//a/b").unwrap();
    let object = Object::try_from(url).unwrap();
    assert_eq!(object.bucket, "bucket");
    assert_eq!(object.name, "a/b");
}

#[test]
fn bucket_from_uri_drops_the_object() {
    let bucket = Bucket::from_str("gs://bucket/object").unwrap();
    assert_eq!(bucket, Bucket { name: "bucket".to_string(), ..Default::default() });
    let bucket = Bucket::try_from(Url::parse("gs://other").unwrap()).unwrap();
    assert_eq!(bucket.name, "other");
}

#[test]
fn bucket_from_object() {
    let object = Object { bucket: "b".to_string(), name: "n".to_string(), generation: 7, ..Default::default() };
    assert_eq!(Bucket::from(object), Bucket { name: "b".to_string(), ..Default::default() });
}

#[test]
fn bucket_requests_from_bucket() {
    let bucket = Bucket { name: "b".to_string(), metageneration: 4, ..Default::default() };
    assert_eq!(
        DeleteBucketRequest::from(bucket.clone()),
        DeleteBucketRequest { bucket: "b".to_string(), if_metageneration_match: Some(4), ..Default::default() }
    );
    assert_eq!(
        GetBucketRequest::from(bucket.clone()),
        GetBucketRequest { bucket: "b".to_string(), if_metageneration_match: Some(4), ..Default::default() }
    );
    assert_eq!(
        InsertBucketRequest::from(bucket.clone()),
        InsertBucketRequest { bucket: Some(bucket.clone()), ..Default::default() }
    );
    assert_eq!(
        UpdateBucketRequest::from(bucket.clone()),
        UpdateBucketRequest {
            bucket: "b".to_string(),
            if_metageneration_match: Some(4),
            metadata: Some(bucket),
            ..Default::default()
        }
    );
}

#[test]
fn get_bucket_request_from_url() {
    let request = GetBucketRequest::try_from(Url::parse("gs://bucket/prefix").unwrap()).unwrap();
    assert_eq!(request.bucket, "bucket");
    assert_eq!(request.if_metageneration_match, None);
}

#[test]
fn a_bucket_named_by_uri_gives_no_condition() {
    let mut delete = DeleteBucketRequest::from_str("gs://bucket").unwrap();
    assert_eq!(delete, DeleteBucketRequest { bucket: "bucket".to_string(), ..Default::default() });
    assert!(delete.request_query().is_empty());
    let mut get = GetBucketRequest::from_str("gs://bucket/object").unwrap();
    assert_eq!(get, GetBucketRequest { bucket: "bucket".to_string(), ..Default::default() });
    assert!(get.request_query().is_empty());
}

#[test]
fn a_bucket_read_from_the_service_gives_its_metageneration_as_the_condition() {
    let bucket = Bucket { name: "b".to_string(), metageneration: 7, ..Default::default() };
    let mut delete = DeleteBucketRequest::from(bucket.clone());
    assert_eq!(delete.request_query(), vec![("ifMetagenerationMatch", "7".to_string())]);
    let mut update = UpdateBucketRequest::from(bucket.clone());
    assert_eq!(update.request_query(), vec![("ifMetagenerationMatch", "7".to_string())]);
    assert_eq!(condition(7), Some(7));
    assert_eq!(condition(-1), Some(-1));
    assert_eq!(condition(0), None);
    let unread = Bucket { name: "b".to_string(), ..Default::default() };
    assert_eq!(UpdateBucketRequest::from(unread.clone()).if_metageneration_match, None);
    assert_eq!(GetBucketRequest::from(unread).if_metageneration_match, None);
}

#[test]
fn object_requests_from_object() {
    let object = Object { bucket: "b".to_string(), name: "n".to_string(), generation: 7, ..Default::default() };
    assert_eq!(
        GetObjectRequest::from(object.clone()),
        GetObjectRequest { bucket: "b".to_string(), object: "n".to_string(), ..Default::default() }
    );
    assert_eq!(
        GetObjectMediaRequest::from(object.clone()),
        GetObjectMediaRequest { bucket: "b".to_string(), object: "n".to_string(), ..Default::default() }
    );
    assert_eq!(
        DeleteObjectRequest::from(object.clone()),
        DeleteObjectRequest { bucket: "b".to_string(), object: "n".to_string(), ..Default::default() }
    );
    assert_eq!(
        ListObjectsRequest::from(object),
        ListObjectsRequest { bucket: "b".to_string(), prefix: "n".to_string(), ..Default::default() }
    );
}

#[test]
fn object_requests_from_uri() {
    let request = GetObjectMediaRequest::from_str("gs://bucket/a/b").unwrap();
    assert_eq!((request.bucket.as_str(), request.object.as_str()), ("bucket", "a/b"));
    let request = DeleteObjectRequest::try_from(Url::parse("gs://bucket/a").unwrap()).unwrap();
    assert_eq!((request.bucket.as_str(), request.object.as_str()), ("bucket", "a"));
    let request = ListObjectsRequest::try_from(Url::parse("gs://bucket/pre").unwrap()).unwrap();
    assert_eq!((request.bucket.as_str(), request.prefix.as_str()), ("bucket", "pre"));
    assert!(matches!(GetObjectRequest::from_str("http://bucket/a"), Err(Error::Other { .. })));
}

#[test]
fn list_objects_request_from_bucket() {
    let bucket = Bucket { name: "b".to_string(), metageneration: 4, ..Default::default() };
    assert_eq!(
        ListObjectsRequest::from_bucket(bucket),
        ListObjectsRequest { bucket: "b".to_string(), ..Default::default() }
    );
}

#[test]
fn uri_bucket_becomes_the_escaped_segment_after_b() {
    for name in ["bucket", "my-bucket_1", "a.b.c"] {
        let uri = format!("gs://{}", name);
        let base = Url::parse("https://storage.googleapis.com/storage/v1/").unwrap();
        let delete = DeleteBucketRequest::from_str(&uri).unwrap().request_path(base.clone()).unwrap();
        let get = GetBucketRequest::from_str(&uri).unwrap().request_path(base).unwrap();
        assert_eq!(delete.path(), format!("/storage/v1/b/{}", name));
        assert_eq!(get.path(), delete.path());
    }
}

#[test]
fn helpers_on_text() {
    assert!(same_text("gs", "gs"));
    assert!(!same_text("gs", "gS"));
    assert!(!same_text("gs", "gs "));
    assert_eq!(trim_leading_slashes("///a/b/"), "a/b/");
    assert_eq!(trim_leading_slashes("a"), "a");
    assert_eq!(trim_leading_slashes("//"), "");
    assert_eq!(trim_leading_slashes(""), "");
}
