use google_cloud_storage::client::{bucket_url, object_url};
use google_cloud_storage::error::Error;
use google_cloud_storage::urls::Url;

fn api() -> Url {
    Url::parse("https://storage.googleapis.com/storage/v1/").unwrap()
}

#[test]
fn parse_reads_the_parts() {
    let url = Url::parse("https://example.com/api/versions?page=2").unwrap();
    assert_eq!(url.as_str(), "https://example.com/api/versions?page=2");
    assert_eq!(url.scheme(), "https");
    assert_eq!(url.host_str(), Some("example.com"));
    assert_eq!(url.path(), "/api/versions");
    assert!(!url.cannot_be_a_base());
}

#[test]
fn parse_rejects_a_relative_reference() {
    assert!(matches!(Url::parse("b/bucket"), Err(Error::Url { .. })));
}

#[test]
fn join_resolves_against_the_last_slash() {
    let base = Url::parse("https://example.net/a/b.html").unwrap();
    assert_eq!(base.join("c.png").unwrap().as_str(), "https://example.net/a/c.png");
    let base = Url::parse("https://example.net/a/b/").unwrap();
    assert_eq!(base.join("c.png").unwrap().as_str(), "https://example.net/a/b/c.png");
}

#[test]
fn join_segment_appends_below_a_path_without_trailing_slash() {
    let base = Url::parse("https://example.net/a/b").unwrap();
    assert_eq!(base.join_segment("c").unwrap().as_str(), "https://example.net/a/b/c");
}

#[test]
fn join_segment_appends_below_a_path_with_trailing_slash() {
    let base = Url::parse("https://example.net/a/b/").unwrap();
    assert_eq!(base.join_segment("c").unwrap().as_str(), "https://example.net/a/b/c");
}

#[test]
fn join_segment_appends_below_the_root() {
    let base = Url::parse("https://example.net").unwrap();
    assert_eq!(base.join_segment("c/").unwrap().as_str(), "https://example.net/c/");
}

#[test]
fn join_segment_keeps_earlier_segments() {
    let url = api().join_segment("one").unwrap().join_segment("two").unwrap().join_segment("three").unwrap();
    assert_eq!(url.as_str(), "https://storage.googleapis.com/storage/v1/one/two/three");
}

#[test]
fn join_segment_fails_on_a_url_without_hierarchy() {
    let base = Url::parse("mailto:someone@example.com").unwrap();
    match base.join_segment("b/") {
        Err(Error::InvalidRequestUrl { url }) => {
            assert_eq!(url.as_str(), "mailto:someone@example.com")
        }
        other => panic!("unexpected {:?}", other),
    }
}

#[test]
fn bucket_and_object_compose() {
    let url = api().bucket("my-bucket").unwrap().object("dir/file name.txt").unwrap();
    assert_eq!(
        url.as_str(),
        "https://storage.googleapis.com/storage/v1/b/my-bucket/o/dir/file%20name.txt"
    );
}

#[test]
fn slash_object_is_one_segment() {
    let url = api().bucket("my-bucket").unwrap().slash_object("dir/file").unwrap();
    assert_eq!(url.as_str(), "https://storage.googleapis.com/storage/v1/b/my-bucket/o/dir%2Ffile");
}

#[test]
fn named_escapes_what_would_read_as_a_scheme() {
    let url = api().named("user:someone@example.com").unwrap();
    assert_eq!(
        url.as_str(),
        "https://storage.googleapis.com/storage/v1/user%3Asomeone%40example.com"
    );
}

#[test]
fn bucket_url_uses_the_component_class() {
    let url = bucket_url(&api(), "my bucket!").unwrap();
    assert_eq!(url.as_str(), "https://storage.googleapis.com/storage/v1/b/my%20bucket%21");
}

#[test]
fn object_url_uses_the_component_class() {
    let url = object_url(&api(), "bucket", "a/b").unwrap();
    assert_eq!(url.as_str(), "https://storage.googleapis.com/storage/v1/b/bucket/o/a%2Fb");
}

#[test]
fn clone_is_the_same_url() {
    let url = api();
    assert_eq!(url.clone(), url);
}

#[test]
fn join_segment_keeps_escapes_that_the_url_already_holds() {
    let base = Url::parse("https://example.net/a b/é").unwrap();
    assert_eq!(base.as_str(), "https://example.net/a%20b/%C3%A9");
    assert_eq!(
        base.join_segment("c").unwrap().as_str(),
        "https://example.net/a%20b/%C3%A9/c"
    );
}
