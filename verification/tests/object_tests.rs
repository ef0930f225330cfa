use google_cloud_storage::google::storage::v1::{
    CopyObjectRequest, GetObjectRequest, ListObjectsRequest, RewriteObjectRequest,
};
use google_cloud_storage::request::Request;
use google_cloud_storage::urls::Url;

fn storage() -> Url {
    Url::parse("https://storage.googleapis.com/storage/v1/").unwrap()
}

#[test]
fn list_objects_url() {
    let bucket = ListObjectsRequest::from_str("gs://bucket/object").unwrap();

    let url = bucket.request_path(storage()).unwrap();

    assert_eq!(
        url.as_str(),
        "https://storage.googleapis.com/storage/v1/b/bucket/o"
    );
}

#[test]
fn get_object_url_q() {
    let request = GetObjectRequest {
        bucket: "example-bucket".to_string(),
        object: "foo??bar".to_string(),
        ..Default::default()
    };

    let url = request.request_path(storage()).unwrap();

    assert_eq!(
        url.as_str(),
        "https://storage.googleapis.com/storage/v1/b/example-bucket/o/foo%3F%3Fbar"
    );
}

#[test]
fn copy_object_url() {
    let request = CopyObjectRequest {
        source_bucket: "bucket1".to_string(),
        source_object: "foo/bar/baz".to_string(),
        destination_bucket: "bucket1".to_string(),
        destination_object: "foo/bar/baz".to_string(),
        ..Default::default()
    };

    let url = request.request_path(storage()).unwrap();

    assert_eq!(
        url.as_str(),
        "https://storage.googleapis.com/storage/v1/b/bucket1/o/foo%2Fbar%2Fbaz/copyTo/b/bucket1/o/foo/bar/baz"
    );
}

#[test]
fn rewrite_object_url() {
    let request = RewriteObjectRequest {
        source_bucket: "bucket1".to_string(),
        source_object: "foo/bar/baz".to_string(),
        destination_bucket: "bucket1".to_string(),
        destination_object: "foo/bar/baz".to_string(),
        ..Default::default()
    };

    let url = request.request_path(storage()).unwrap();

    assert_eq!(
        url.as_str(),
        "https://storage.googleapis.com/storage/v1/b/bucket1/o/foo%2Fbar%2Fbaz/rewriteTo/b/bucket1/o/foo/bar/baz"
    );
}

#[test]
fn get_object_url() {
    let bucket = GetObjectRequest::from_str("gs://bucket/object").unwrap();

    let url = bucket.request_path(storage()).unwrap();

    assert_eq!(
        url.as_str(),
        "https://storage.googleapis.com/storage/v1/b/bucket/o/object"
    );
}
