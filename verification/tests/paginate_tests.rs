use google_cloud_storage::google::protobuf::FieldMask;
use google_cloud_storage::google::storage::v1::{
    clone_params, Bucket, CommonRequestParams, HmacKeyMetadata, ListBucketsRequest,
    ListBucketsResponse, ListHmacKeysRequest, ListHmacKeysResponse, ListObjectsRequest,
    ListObjectsResponse, Object,
};
use google_cloud_storage::paginate::{Paginate, Paginator};
use google_cloud_storage::query::Query;

fn bucket(name: &str) -> Bucket {
    Bucket { name: name.to_string(), ..Default::default() }
}

fn page(names: &[&str], token: &str) -> ListBucketsResponse {
    ListBucketsResponse {
        items: names.iter().map(|name| bucket(name)).collect(),
        next_page_token: token.to_string(),
    }
}

fn request() -> ListBucketsRequest {
    ListBucketsRequest { project: "p".to_string(), max_results: 2, ..Default::default() }
}

#[test]
fn a_single_page_is_one_call() {
    let (items, calls) = Paginator::replay(request(), vec![page(&["a", "b"], "")]);
    assert_eq!(calls, 1);
    assert_eq!(items, vec![bucket("a"), bucket("b")]);
}

#[test]
fn a_single_empty_page_is_one_call() {
    let (items, calls) = Paginator::replay(request(), vec![page(&[], "")]);
    assert_eq!(calls, 1);
    assert!(items.is_empty());
}

#[test]
fn three_pages_are_three_calls_in_order() {
    let (items, calls) = Paginator::replay(
        request(),
        vec![page(&["a", "b"], "A"), page(&["c"], "B"), page(&["d", "e"], "")],
    );
    assert_eq!(calls, 3);
    assert_eq!(items, vec![bucket("a"), bucket("b"), bucket("c"), bucket("d"), bucket("e")]);
}

#[test]
fn nothing_is_fetched_after_the_last_page() {
    let (items, calls) = Paginator::replay(
        request(),
        vec![page(&["a"], "A"), page(&["b"], ""), page(&["never"], "C"), page(&["never"], "")],
    );
    assert_eq!(calls, 2);
    assert_eq!(items, vec![bucket("a"), bucket("b")]);
}

#[test]
fn a_listing_that_runs_out_of_responses_stops() {
    let (items, calls) = Paginator::replay(request(), vec![page(&["a"], "A"), page(&["b"], "B")]);
    assert_eq!(calls, 2);
    assert_eq!(items, vec![bucket("a"), bucket("b")]);
    let (items, calls) = Paginator::replay(request(), vec![]);
    assert_eq!(calls, 0);
    assert!(items.is_empty());
}

#[test]
fn each_request_is_the_initial_one_with_the_token_of_the_page_before() {
    let mut paginator = Paginator::new(request());
    let mut sent = Vec::new();
    let mut yielded = Vec::new();
    let mut pages = vec![page(&["a"], "A"), page(&["b"], "B"), page(&["c"], "")].into_iter();
    while !paginator.is_exhausted() {
        let mut pending = paginator.begin().unwrap();
        assert!(paginator.is_exhausted());
        sent.push(pending.clone());
        // Drawing the query from the request that is sent leaves the listing's own copy whole.
        pending.request_query();
        yielded.extend(paginator.advance(pages.next().unwrap()));
    }
    assert_eq!(
        sent,
        vec![
            request(),
            ListBucketsRequest { page_token: "A".to_string(), ..request() },
            ListBucketsRequest { page_token: "B".to_string(), ..request() },
        ]
    );
    assert_eq!(yielded, vec![bucket("a"), bucket("b"), bucket("c")]);
    assert!(paginator.begin().is_none());
}

#[test]
fn into_request_replaces_only_the_token() {
    let initial = ListObjectsRequest {
        bucket: "b".to_string(),
        prefix: "dir/".to_string(),
        page_token: "old".to_string(),
        versions: true,
        ..Default::default()
    };
    let response = ListObjectsResponse { next_page_token: "next".to_string(), ..Default::default() };
    assert_eq!(
        initial.clone().into_request(&response),
        Some(ListObjectsRequest { page_token: "next".to_string(), ..initial.clone() })
    );
    assert_eq!(initial.into_request(&ListObjectsResponse::default()), None);
}

#[test]
fn items_come_out_as_they_came_in() {
    let objects = vec![
        Object { name: "z".to_string(), ..Default::default() },
        Object { name: "a".to_string(), ..Default::default() },
    ];
    let response = ListObjectsResponse { items: objects.clone(), ..Default::default() };
    assert_eq!(ListObjectsRequest::extract_items(response), objects);

    let keys = vec![HmacKeyMetadata { access_id: "k".to_string(), ..Default::default() }];
    let response = ListHmacKeysResponse { items: keys.clone(), next_page_token: "t".to_string() };
    assert_eq!(
        ListHmacKeysRequest::default().into_request(&response),
        Some(ListHmacKeysRequest { page_token: "t".to_string(), ..Default::default() })
    );
    assert_eq!(ListHmacKeysRequest::extract_items(response), keys);
}

#[test]
fn object_listing_replays() {
    let object = |name: &str| Object { name: name.to_string(), ..Default::default() };
    let (items, calls) = Paginator::replay(
        ListObjectsRequest { bucket: "b".to_string(), ..Default::default() },
        vec![
            ListObjectsResponse { items: vec![object("a")], next_page_token: "A".to_string(), ..Default::default() },
            ListObjectsResponse { items: vec![object("b")], ..Default::default() },
        ],
    );
    assert_eq!(calls, 2);
    assert_eq!(items, vec![object("a"), object("b")]);
}

#[test]
fn copies_of_listing_requests_are_whole() {
    let buckets = ListBucketsRequest {
        max_results: 3,
        page_token: "t".to_string(),
        prefix: "p".to_string(),
        project: "proj".to_string(),
        projection: 2,
        common_request_params: Some(CommonRequestParams {
            user_project: "u".to_string(),
            quota_user: "q".to_string(),
            fields: Some(FieldMask { paths: vec!["a".to_string(), "b".to_string()] }),
        }),
    };
    assert_eq!(buckets.clone(), buckets);
    let objects = ListObjectsRequest {
        bucket: "b".to_string(),
        delimiter: "/".to_string(),
        include_trailing_delimiter: true,
        max_results: 3,
        page_token: "t".to_string(),
        prefix: "p".to_string(),
        projection: 1,
        versions: true,
        common_request_params: buckets.common_request_params.clone(),
    };
    assert_eq!(objects.clone(), objects);
    let keys = ListHmacKeysRequest {
        project_id: "p".to_string(),
        service_account_email: "e".to_string(),
        show_deleted_keys: true,
        max_results: 3,
        page_token: "t".to_string(),
        common_request_params: None,
    };
    assert_eq!(keys.clone(), keys);
    assert_eq!(clone_params(&buckets.common_request_params), buckets.common_request_params);
    assert_eq!(clone_params(&None), None);
}

#[test]
fn follow_ups_keep_the_common_parameters_of_the_initial_request() {
    let initial = ListBucketsRequest {
        project: "p".to_string(),
        common_request_params: Some(CommonRequestParams {
            quota_user: "q".to_string(),
            fields: Some(FieldMask { paths: vec!["items/name".to_string()] }),
            ..Default::default()
        }),
        ..Default::default()
    };
    let mut listing = Paginator::new(initial.clone());
    let mut first = listing.begin().unwrap();
    assert_eq!(first, initial);
    first.request_query();
    listing.advance(page(&["a"], "A"));
    let mut second = listing.begin().unwrap();
    assert_eq!(second, ListBucketsRequest { page_token: "A".to_string(), ..initial.clone() });
    assert_eq!(
        second.request_query(),
        vec![
            ("quotaUser", "q".to_string()),
            ("fields", "items/name".to_string()),
            ("project", "p".to_string()),
            ("pageToken", "A".to_string())
        ]
    );
    listing.advance(page(&["b"], "B"));
    assert_eq!(
        listing.begin(),
        Some(ListBucketsRequest { page_token: "B".to_string(), ..initial })
    );
}
