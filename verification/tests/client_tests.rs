use google_cloud_storage::client::{assemble, Client, HttpRequest, DEFAULT_BASE_URL};
use google_cloud_storage::error::Error;
use google_cloud_storage::google::iam;
use google_cloud_storage::google::storage::v1::{
    Bucket, ComposeObjectRequest, CopyObjectRequest, DeleteBucketRequest, GetObjectMediaRequest,
    InsertBucketRequest, ListBucketsRequest, Object, SetIamPolicyRequest, SourceObjects,
    UpdateBucketRequest,
};
use google_cloud_storage::headers::{authorization, bearer, Bearer, Headers, AUTHORIZATION};
use google_cloud_storage::object::{ComposeRequest, Void};
use google_cloud_storage::query::Query;
use google_cloud_storage::request::{no_headers, Method, Payload, Request};
use google_cloud_storage::urls::Url;

struct Failing;

impl Headers for Failing {
    fn headers(&self, scope: &str) -> Result<Vec<(String, String)>, Error> {
        Err(Error::Auth { message: format!("no token for {}", scope) })
    }
}

struct Echo;

impl Headers for Echo {
    fn headers(&self, scope: &str) -> Result<Vec<(String, String)>, Error> {
        Ok(vec![("x-scope".to_string(), scope.to_string())])
    }
}

#[test]
fn the_default_address() {
    let client = Client::new().unwrap();
    assert_eq!(client.base_url().as_str(), "https://storage.googleapis.com/storage/v1/");
    assert_eq!(DEFAULT_BASE_URL, "https://storage.googleapis.com/storage/v1/");
    let client = Client::builder().build().unwrap();
    assert_eq!(client.base_url().as_str(), DEFAULT_BASE_URL);
}

#[test]
fn a_given_address() {
    let base = Url::parse("http://localhost:8080/storage/v1/").unwrap();
    let client = Client::builder().base_url(base.clone()).headers(Echo).build().unwrap();
    assert_eq!(client.base_url(), &base);
}

#[test]
fn a_call_without_credentials() {
    let client = Client::new().unwrap();
    let mut request = ListBucketsRequest { project: "p".to_string(), ..Default::default() };
    let call = client.request_builder(&mut request).unwrap();
    assert_eq!(
        call,
        HttpRequest {
            method: Method::Get,
            url: Url::parse("https://storage.googleapis.com/storage/v1/b").unwrap(),
            headers: vec![],
            query: vec![("project", "p".to_string())],
            body: vec![],
        }
    );
    assert_eq!(request, ListBucketsRequest::default());
}

#[test]
fn the_credentials_are_asked_for_the_scope_of_the_request() {
    let client = Client::builder().headers(Echo).build().unwrap();
    let call = client.request(&mut ListBucketsRequest::default()).unwrap();
    assert_eq!(
        call.headers,
        vec![("x-scope".to_string(), "https://www.googleapis.com/auth/devstorage.read_only".to_string())]
    );
    let call = client.request(&mut InsertBucketRequest::default()).unwrap();
    assert_eq!(
        call.headers,
        vec![("x-scope".to_string(), "https://www.googleapis.com/auth/devstorage.read_write".to_string())]
    );
    assert_eq!(call.method, Method::Post);
}

#[test]
fn a_bearer_token_becomes_the_authorization_header() {
    let client =
        Client::builder().headers(Bearer { token: "ya29.token".to_string() }).build().unwrap();
    let mut request = DeleteBucketRequest {
        bucket: "b".to_string(),
        if_metageneration_match: Some(2),
        ..Default::default()
    };
    let call = client.request(&mut request).unwrap();
    assert_eq!(call.method, Method::Delete);
    assert_eq!(call.url.as_str(), "https://storage.googleapis.com/storage/v1/b/b");
    assert_eq!(call.headers, vec![("authorization".to_string(), "Bearer ya29.token".to_string())]);
    assert_eq!(call.query, vec![("ifMetagenerationMatch", "2".to_string())]);
    assert!(call.body.is_empty());
}

#[test]
fn headers_of_the_credentials() {
    assert_eq!(bearer("abc"), "Bearer abc");
    assert_eq!(bearer(""), "Bearer ");
    assert_eq!(AUTHORIZATION, "authorization");
    assert_eq!(
        authorization("Basic Zm9v".to_string()),
        vec![("authorization".to_string(), "Basic Zm9v".to_string())]
    );
    assert_eq!(().headers("any").unwrap(), vec![]);
    assert!(no_headers().is_empty());
}

#[test]
fn a_body_is_attached() {
    let client = Client::new().unwrap();
    let mut request = InsertBucketRequest { project: "p".to_string(), ..Default::default() };
    let call = client.request_body(&mut request, b"{\"name\":\"test\"}".to_vec()).unwrap();
    assert_eq!(call.body, b"{\"name\":\"test\"}".to_vec());
    assert_eq!(call.url.as_str(), "https://storage.googleapis.com/storage/v1/b");
    assert_eq!(call.query, vec![("project", "p".to_string())]);
}

#[test]
fn failing_credentials_leave_the_request_whole() {
    let client = Client::builder().headers(Failing).build().unwrap();
    let mut request = ListBucketsRequest { project: "p".to_string(), ..Default::default() };
    match client.request_builder(&mut request) {
        Err(Error::Auth { message }) => assert_eq!(
            message,
            "no token for https://www.googleapis.com/auth/devstorage.read_only"
        ),
        other => panic!("unexpected {:?}", other),
    }
    assert_eq!(request.project, "p");
}

#[test]
fn the_error_of_the_credentials_is_not_merged_with_that_of_the_target() {
    let client = Client::builder().headers(Failing).build().unwrap();
    let mut request = InsertBucketRequest { project: "p".to_string(), ..Default::default() };
    for result in [
        client.request_builder(&mut request),
        client.request(&mut request),
        client.request_body(&mut request, vec![1, 2, 3]),
    ] {
        match result {
            Err(Error::Auth { message }) => assert_eq!(
                message,
                "no token for https://www.googleapis.com/auth/devstorage.read_write"
            ),
            other => panic!("unexpected {:?}", other),
        }
    }
    assert_eq!(request.project, "p");
}

#[test]
fn a_call_with_a_body_keeps_its_headers() {
    let client = Client::builder().headers(Echo).build().unwrap();
    let mut request = InsertBucketRequest { project: "p".to_string(), ..Default::default() };
    let call = client.request_body(&mut request, vec![1, 2, 3]).unwrap();
    assert_eq!(
        call.headers,
        vec![("x-scope".to_string(), "https://www.googleapis.com/auth/devstorage.read_write".to_string())]
    );
    assert_eq!(call.query, vec![("project", "p".to_string())]);
    assert_eq!(call.body, vec![1, 2, 3]);
    assert_eq!(call.method, Method::Post);
}

#[test]
fn a_missing_target_comes_before_the_credentials() {
    let base = Url::parse("mailto:someone@example.com").unwrap();
    let client = Client::builder().headers(Failing).base_url(base).build().unwrap();
    let mut request = DeleteBucketRequest {
        bucket: "b".to_string(),
        if_metageneration_match: Some(2),
        ..Default::default()
    };
    assert!(matches!(client.request(&mut request), Err(Error::InvalidRequestUrl { .. })));
    assert_eq!(request.if_metageneration_match, Some(2));
    assert!(matches!(client.target(&request), Err(Error::InvalidRequestUrl { .. })));
}

#[test]
fn assemble_draws_the_query_once() {
    let mut request = GetObjectMediaRequest {
        bucket: "b".to_string(),
        object: "o".to_string(),
        generation: 3,
        ..Default::default()
    };
    let url = Url::parse("https://example.com/b/b/o/o").unwrap();
    let call = assemble(url.clone(), vec![("a".to_string(), "b".to_string())], &mut request);
    assert_eq!(call.url, url);
    assert_eq!(call.method, Method::Get);
    assert_eq!(call.headers, vec![("a".to_string(), "b".to_string())]);
    assert_eq!(call.query, vec![("alt", "media".to_string()), ("generation", "3".to_string())]);
    let again = assemble(url, vec![], &mut request);
    assert_eq!(again.query, vec![("alt", "media".to_string())]);
    assert_eq!(Void, Void::default());
}

#[test]
fn the_body_of_a_composition() {
    let sources = vec![
        SourceObjects { name: "part-1".to_string(), ..Default::default() },
        SourceObjects { name: "part-2".to_string(), generation: 4, ..Default::default() },
    ];
    let mut request = ComposeObjectRequest {
        destination_bucket: "b".to_string(),
        destination_object: "whole".to_string(),
        destination: Some(Object {
            name: "ignored".to_string(),
            content_type: "text/plain".to_string(),
            ..Default::default()
        }),
        source_objects: sources.clone(),
        kms_key_name: "key".to_string(),
        ..Default::default()
    };
    let body = request.compose_body();
    assert_eq!(
        body,
        ComposeRequest {
            kind: "storage#composeRequest",
            source_objects: sources,
            destination: Object {
                bucket: "b".to_string(),
                name: "whole".to_string(),
                content_type: "text/plain".to_string(),
                ..Default::default()
            },
        }
    );
    assert_eq!(
        request,
        ComposeObjectRequest {
            destination_bucket: "b".to_string(),
            destination_object: "whole".to_string(),
            kms_key_name: "key".to_string(),
            ..Default::default()
        }
    );
    let url = request.request_path(Url::parse(DEFAULT_BASE_URL).unwrap()).unwrap();
    assert_eq!(url.as_str(), "https://storage.googleapis.com/storage/v1/b/b/o/whole/compose");
}

#[test]
fn the_body_of_a_composition_without_metadata() {
    let mut request = ComposeObjectRequest {
        destination_bucket: "b".to_string(),
        destination_object: "whole".to_string(),
        ..Default::default()
    };
    let body = request.compose_body();
    assert_eq!(
        body.destination,
        Object { bucket: "b".to_string(), name: "whole".to_string(), ..Default::default() }
    );
    assert!(body.source_objects.is_empty());
}

#[test]
fn the_body_is_taken_once_and_nothing_else_changes() {
    let bucket = Bucket { name: "b".to_string(), location: "EU".to_string(), ..Default::default() };
    let given = UpdateBucketRequest {
        bucket: "b".to_string(),
        if_metageneration_match: Some(3),
        metadata: Some(bucket.clone()),
        projection: 2,
        ..Default::default()
    };
    let mut request = given.clone();
    assert_eq!(request.take_body(), Some(bucket));
    assert_eq!(request, UpdateBucketRequest { metadata: None, ..given });
    assert_eq!(request.take_body(), None);
    assert_eq!(
        request.request_query(),
        vec![("ifMetagenerationMatch", "3".to_string()), ("projection", "full".to_string())]
    );
}

#[test]
fn the_body_of_a_copy_is_the_destination() {
    let destination = Object { content_type: "text/plain".to_string(), ..Default::default() };
    let mut request = CopyObjectRequest {
        source_bucket: "a".to_string(),
        destination: Some(destination.clone()),
        ..Default::default()
    };
    assert_eq!(request.take_body(), Some(destination));
    assert_eq!(request.destination, None);
    assert_eq!(request.source_bucket, "a");
}

#[test]
fn the_body_of_a_policy_update_leaves_the_bucket_named() {
    let policy = iam::v1::Policy { version: 3, ..Default::default() };
    let mut request = SetIamPolicyRequest {
        iam_request: Some(iam::v1::SetIamPolicyRequest {
            resource: "b".to_string(),
            policy: Some(policy.clone()),
        }),
        ..Default::default()
    };
    assert_eq!(request.take_body(), Some(policy));
    assert_eq!(
        request.iam_request,
        Some(iam::v1::SetIamPolicyRequest { resource: "b".to_string(), policy: None })
    );
    assert_eq!(request.take_body(), None);
    let url = request.request_path(Url::parse(DEFAULT_BASE_URL).unwrap()).unwrap();
    assert_eq!(url.as_str(), "https://storage.googleapis.com/storage/v1/b/b/iam");
    assert_eq!(SetIamPolicyRequest::default().take_body(), None);
}

#[test]
fn the_crate_root_names_the_dispatcher() {
    let client = google_cloud_storage::Client::new().unwrap();
    assert_eq!(client.base_url().as_str(), DEFAULT_BASE_URL);
}
