use google_cloud_storage::google::iam;
use google_cloud_storage::google::protobuf::FieldMask;
use google_cloud_storage::google::storage::v1::common_enums::{
    PredefinedBucketAcl, PredefinedObjectAcl, Projection,
};
use google_cloud_storage::google::storage::v1::{
    CommonObjectRequestParams, CommonRequestParams, ComposeObjectRequest, CopyObjectRequest,
    CreateHmacKeyRequest, DeleteBucketRequest, DeleteObjectRequest, FirstMessage,
    GetBucketRequest, GetIamPolicyRequest, GetObjectMediaRequest, GetObjectRequest,
    InsertBucketRequest, InsertObjectAccessControlRequest, InsertObjectRequest, InsertObjectSpec,
    ListBucketsRequest, ListDefaultObjectAccessControlsRequest, ListHmacKeysRequest,
    ListObjectsRequest, Object, RewriteObjectRequest, SetIamPolicyRequest,
    TestIamPermissionsRequest, UpdateBucketRequest, UpdateObjectRequest,
};
use google_cloud_storage::query::{
    extend, join, push_enum, push_enum_as, push_fixed, take_number, PushIf, Query, QueryValue,
};

fn owned(pairs: &[(&'static str, &str)]) -> Vec<(&'static str, String)> {
    pairs.iter().map(|(key, value)| (*key, value.to_string())).collect()
}

fn common() -> Option<CommonRequestParams> {
    Some(CommonRequestParams {
        user_project: "billing".to_string(),
        quota_user: "q".to_string(),
        fields: Some(FieldMask { paths: vec!["a".to_string(), "b".to_string()] }),
    })
}

#[test]
fn push_if_appends_a_set_value_and_resets_it() {
    let mut query: Vec<(&'static str, String)> = Vec::new();
    let mut prefix = "logs/".to_string();
    query.push_if("prefix", &mut prefix);
    assert_eq!(query, owned(&[("prefix", "logs/")]));
    assert_eq!(prefix, "");
    query.push_if("prefix", &mut prefix);
    assert_eq!(query, owned(&[("prefix", "logs/")]));
}

#[test]
fn push_if_skips_defaults() {
    let mut query: Vec<(&'static str, String)> = Vec::new();
    query.push_if("a", &mut String::new());
    query.push_if("b", &mut 0i64);
    query.push_if("c", &mut 0i32);
    query.push_if("d", &mut false);
    assert!(query.is_empty());
}

#[test]
fn push_if_writes_each_kind_of_value() {
    let mut query: Vec<(&'static str, String)> = Vec::new();
    query.push_if("a", &mut -42i64);
    query.push_if("b", &mut 7i32);
    query.push_if("c", &mut true);
    query.push_if("d", &mut i64::MIN);
    query.push_if("e", &mut i32::MIN);
    assert_eq!(
        query,
        owned(&[
            ("a", "-42"),
            ("b", "7"),
            ("c", "true"),
            ("d", "-9223372036854775808"),
            ("e", "-2147483648")
        ])
    );
}

#[test]
fn push_if_opt_takes_the_value() {
    let mut query: Vec<(&'static str, String)> = Vec::new();
    let mut condition = Some(12i64);
    query.push_if_opt("ifGenerationMatch", &mut condition);
    assert_eq!(query, owned(&[("ifGenerationMatch", "12")]));
    assert_eq!(condition, None);
    query.push_if_opt("ifGenerationMatch", &mut condition);
    assert_eq!(query.len(), 1);
}

#[test]
fn push_if_opt_sends_a_present_zero() {
    let mut query: Vec<(&'static str, String)> = Vec::new();
    let mut condition = Some(0i64);
    query.push_if_opt("ifGenerationMatch", &mut condition);
    assert_eq!(query, owned(&[("ifGenerationMatch", "0")]));
    assert_eq!(condition, None);
    query.push_if_opt("ifGenerationMatch", &mut condition);
    assert_eq!(query.len(), 1);
}

#[test]
fn a_precondition_of_zero_is_sent() {
    let mut request = DeleteObjectRequest {
        if_generation_match: Some(0),
        if_metageneration_not_match: Some(0),
        ..Default::default()
    };
    assert_eq!(
        request.request_query(),
        owned(&[("ifGenerationMatch", "0"), ("ifMetagenerationNotMatch", "0")])
    );
    assert_eq!(request, DeleteObjectRequest::default());
    assert!(request.request_query().is_empty());
}

#[test]
fn query_values() {
    assert!(String::new().is_default());
    assert!(!"x".to_string().is_default());
    assert_eq!("x".to_string().to_text(), "x");
    assert_eq!(false.to_text(), "false");
    assert_eq!(15i32.to_text(), "15");
    let mut flag = true;
    flag.reset();
    assert!(!flag);
    let mut number = 9i64;
    number.reset();
    assert_eq!(number, 0);
}

#[test]
fn helpers_append_in_order() {
    let mut query = owned(&[("a", "1")]);
    extend(&mut query, owned(&[("b", "2"), ("c", "3")]));
    push_fixed(&mut query, "alt", "media");
    push_enum(&mut query, Some(Projection::Full));
    push_enum(&mut query, None::<Projection>);
    push_enum_as(&mut query, "destinationPredefinedAcl", Some(PredefinedObjectAcl::ObjectAclPrivate));
    push_enum_as(&mut query, "destinationPredefinedAcl", Some(PredefinedObjectAcl::Unspecified));
    assert_eq!(
        query,
        owned(&[
            ("a", "1"),
            ("b", "2"),
            ("c", "3"),
            ("alt", "media"),
            ("projection", "full"),
            ("destinationPredefinedAcl", "private")
        ])
    );
    let mut number = 5;
    assert_eq!(take_number(&mut number), 5);
    assert_eq!(number, 0);
}

#[test]
fn join_puts_the_separator_between() {
    assert_eq!(join(&vec![], ","), "");
    assert_eq!(join(&vec!["a".to_string()], ","), "a");
    assert_eq!(join(&vec!["a".to_string(), "".to_string(), "c".to_string()], ", "), "a, , c");
}

#[test]
fn predefined_bucket_acl_table() {
    let table = [
        (PredefinedBucketAcl::BucketAclAuthenticatedRead, "authenticatedRead"),
        (PredefinedBucketAcl::BucketAclPrivate, "private"),
        (PredefinedBucketAcl::BucketAclProjectPrivate, "projectPrivate"),
        (PredefinedBucketAcl::BucketAclPublicRead, "publicRead"),
        (PredefinedBucketAcl::BucketAclPublicReadWrite, "publicReadWrite"),
    ];
    for (variant, literal) in table {
        let mut selector = variant;
        assert_eq!(selector.request_query(), owned(&[("predefinedAcl", literal)]));
        assert_eq!(selector, PredefinedBucketAcl::Unspecified);
        assert!(selector.request_query().is_empty());
    }
    assert!(PredefinedBucketAcl::Unspecified.request_query().is_empty());
}

#[test]
fn predefined_object_acl_table() {
    let table = [
        (PredefinedObjectAcl::ObjectAclAuthenticatedRead, "authenticatedRead"),
        (PredefinedObjectAcl::ObjectAclBucketOwnerFullControl, "bucketOwnerFullControl"),
        (PredefinedObjectAcl::ObjectAclBucketOwnerRead, "bucketOwnerRead"),
        (PredefinedObjectAcl::ObjectAclPrivate, "private"),
        (PredefinedObjectAcl::ObjectAclProjectPrivate, "projectPrivate"),
        (PredefinedObjectAcl::ObjectAclPublicRead, "publicRead"),
    ];
    for (variant, literal) in table {
        let mut selector = variant;
        assert_eq!(selector.request_query(), owned(&[("predefinedDefaultObjectAcl", literal)]));
        assert_eq!(selector, PredefinedObjectAcl::Unspecified);
    }
    assert!(PredefinedObjectAcl::Unspecified.request_query().is_empty());
}

#[test]
fn projection_table() {
    let mut full = Projection::Full;
    assert_eq!(full.request_query(), owned(&[("projection", "full")]));
    assert_eq!(full, Projection::Unspecified);
    assert_eq!(Projection::NoAcl.request_query(), owned(&[("projection", "noAcl")]));
    assert!(Projection::Unspecified.request_query().is_empty());
}

#[test]
fn wire_numbers() {
    for number in 0..6 {
        assert_eq!(PredefinedBucketAcl::from_i32(number).unwrap().number(), number);
    }
    for number in 0..7 {
        assert_eq!(PredefinedObjectAcl::from_i32(number).unwrap().number(), number);
    }
    for number in 0..3 {
        assert_eq!(Projection::from_i32(number).unwrap().number(), number);
    }
    assert_eq!(PredefinedBucketAcl::from_i32(6), None);
    assert_eq!(PredefinedObjectAcl::from_i32(7), None);
    assert_eq!(Projection::from_i32(3), None);
    assert_eq!(Projection::from_i32(-1), None);
    assert_eq!(Projection::from_i32(2), Some(Projection::Full));
}

#[test]
fn option_is_taken() {
    let mut selector = Some(Projection::NoAcl);
    assert_eq!(selector.request_query(), owned(&[("projection", "noAcl")]));
    assert_eq!(selector, None);
    assert!(selector.request_query().is_empty());
}

#[test]
fn common_params() {
    let mut params = common().unwrap();
    assert_eq!(params.request_query(), owned(&[("quotaUser", "q"), ("fields", "a,b")]));
    assert_eq!(params.quota_user, "");
    assert_eq!(params.fields, None);
    assert_eq!(params.user_project, "billing");
    assert!(params.request_query().is_empty());
}

#[test]
fn common_params_with_an_empty_mask() {
    let mut params = CommonRequestParams { fields: Some(FieldMask::default()), ..Default::default() };
    assert_eq!(params.request_query(), owned(&[("fields", "")]));
    assert!(params.request_query().is_empty());
}

#[test]
fn common_object_params() {
    let mut params = CommonObjectRequestParams {
        encryption_algorithm: "AES256".to_string(),
        encryption_key: "secret key".to_string(),
        encryption_key_sha256: "k".to_string(),
    };
    assert_eq!(
        params.request_query(),
        owned(&[
            ("x-goog-encryption-algorithm", "AES256"),
            ("x-goog-encryption-key", "c2VjcmV0IGtleQ=="),
            ("x-goog-encryption-key-sha256", "aw==")
        ])
    );
    assert_eq!(params, CommonObjectRequestParams::default());
    assert!(params.request_query().is_empty());
}

#[test]
fn list_buckets_query() {
    let mut request = ListBucketsRequest {
        max_results: 10,
        page_token: "t".to_string(),
        prefix: "x".to_string(),
        project: "p".to_string(),
        projection: 2,
        common_request_params: common(),
    };
    assert_eq!(
        request.request_query(),
        owned(&[
            ("quotaUser", "q"),
            ("fields", "a,b"),
            ("project", "p"),
            ("maxResults", "10"),
            ("pageToken", "t"),
            ("prefix", "x"),
            ("projection", "full")
        ])
    );
    assert_eq!(request, ListBucketsRequest::default());
    assert!(request.request_query().is_empty());
}

#[test]
fn an_unknown_selector_number_is_not_sent() {
    let mut request = ListBucketsRequest { projection: 17, ..Default::default() };
    assert!(request.request_query().is_empty());
    assert_eq!(request.projection, 0);
}

#[test]
fn a_blank_request_has_an_empty_query() {
    assert!(ListBucketsRequest::default().request_query().is_empty());
    assert!(DeleteBucketRequest::default().request_query().is_empty());
    assert!(CopyObjectRequest::default().request_query().is_empty());
    assert!(SetIamPolicyRequest::default().request_query().is_empty());
}

#[test]
fn insert_bucket_query() {
    let mut request = InsertBucketRequest {
        predefined_acl: 2,
        predefined_default_object_acl: 6,
        project: "p".to_string(),
        projection: 1,
        ..Default::default()
    };
    assert_eq!(
        request.request_query(),
        owned(&[
            ("project", "p"),
            ("predefinedAcl", "private"),
            ("predefinedDefaultObjectAcl", "publicRead"),
            ("projection", "noAcl")
        ])
    );
    assert!(request.request_query().is_empty());
}

#[test]
fn delete_and_get_bucket_query() {
    let mut request = DeleteBucketRequest {
        bucket: "b".to_string(),
        if_metageneration_match: Some(3),
        if_metageneration_not_match: Some(4),
        ..Default::default()
    };
    assert_eq!(
        request.request_query(),
        owned(&[("ifMetagenerationMatch", "3"), ("ifMetagenerationNotMatch", "4")])
    );
    assert_eq!(request, DeleteBucketRequest { bucket: "b".to_string(), ..Default::default() });
    assert!(request.request_query().is_empty());

    let mut request = GetBucketRequest {
        bucket: "b".to_string(),
        if_metageneration_not_match: Some(4),
        projection: 2,
        ..Default::default()
    };
    assert_eq!(
        request.request_query(),
        owned(&[("ifMetagenerationNotMatch", "4"), ("projection", "full")])
    );
    assert!(request.request_query().is_empty());
}

#[test]
fn update_bucket_query() {
    let mut request = UpdateBucketRequest {
        bucket: "b".to_string(),
        if_metageneration_match: Some(1),
        predefined_acl: 5,
        predefined_default_object_acl: 2,
        projection: 2,
        ..Default::default()
    };
    assert_eq!(
        request.request_query(),
        owned(&[
            ("ifMetagenerationMatch", "1"),
            ("predefinedAcl", "publicReadWrite"),
            ("predefinedDefaultObjectAcl", "bucketOwnerFullControl"),
            ("projection", "full")
        ])
    );
    assert!(request.request_query().is_empty());
}

#[test]
fn get_object_query() {
    let mut request = GetObjectRequest {
        bucket: "b".to_string(),
        object: "o".to_string(),
        generation: 5,
        if_generation_match: Some(1),
        if_generation_not_match: Some(2),
        if_metageneration_match: Some(3),
        if_metageneration_not_match: Some(4),
        projection: 1,
        common_object_request_params: Some(CommonObjectRequestParams {
            encryption_algorithm: "AES256".to_string(),
            ..Default::default()
        }),
        common_request_params: common(),
    };
    assert_eq!(
        request.request_query(),
        owned(&[
            ("quotaUser", "q"),
            ("fields", "a,b"),
            ("x-goog-encryption-algorithm", "AES256"),
            ("projection", "noAcl"),
            ("generation", "5"),
            ("ifGenerationMatch", "1"),
            ("ifGenerationNotMatch", "2"),
            ("ifMetagenerationMatch", "3"),
            ("ifMetagenerationNotMatch", "4")
        ])
    );
    assert_eq!(
        request,
        GetObjectRequest { bucket: "b".to_string(), object: "o".to_string(), ..Default::default() }
    );
    assert!(request.request_query().is_empty());
}

#[test]
fn compose_object_query() {
    let mut request = ComposeObjectRequest {
        destination_bucket: "b".to_string(),
        destination_object: "o".to_string(),
        destination_predefined_acl: 4,
        if_generation_match: Some(1),
        if_metageneration_match: Some(2),
        kms_key_name: "key".to_string(),
        ..Default::default()
    };
    assert_eq!(
        request.request_query(),
        owned(&[
            ("ifMetagenerationMatch", "2"),
            ("ifGenerationMatch", "1"),
            ("destinationPredefinedAcl", "private"),
            ("kmsKeyName", "key")
        ])
    );
    assert!(request.request_query().is_empty());
    assert_eq!(request.destination_bucket, "b");
}

fn source_conditions() -> [(&'static str, &'static str); 8] {
    [
        ("ifGenerationMatch", "1"),
        ("ifGenerationNotMatch", "2"),
        ("ifMetagenerationMatch", "3"),
        ("ifMetagenerationNotMatch", "4"),
        ("ifSourceGenerationMatch", "5"),
        ("ifSourceGenerationNotMatch", "6"),
        ("ifSourceMetagenerationMatch", "7"),
        ("ifSourceMetagenerationNotMatch", "8"),
    ]
}

#[test]
fn copy_object_query() {
    let mut request = CopyObjectRequest {
        destination_kms_key_name: "key".to_string(),
        destination_predefined_acl: 1,
        if_generation_match: Some(1),
        if_generation_not_match: Some(2),
        if_metageneration_match: Some(3),
        if_metageneration_not_match: Some(4),
        if_source_generation_match: Some(5),
        if_source_generation_not_match: Some(6),
        if_source_metageneration_match: Some(7),
        if_source_metageneration_not_match: Some(8),
        projection: 2,
        source_generation: 9,
        ..Default::default()
    };
    let mut expected =
        owned(&[("destinationKmsKeyName", "key"), ("destinationPredefinedAcl", "authenticatedRead")]);
    expected.extend(owned(&source_conditions()));
    expected.extend(owned(&[("projection", "full"), ("sourceGeneration", "9")]));
    assert_eq!(request.request_query(), expected);
    assert_eq!(request, CopyObjectRequest::default());
    assert!(request.request_query().is_empty());
}

#[test]
fn rewrite_object_query() {
    let mut request = RewriteObjectRequest {
        destination_kms_key_name: "key".to_string(),
        destination_predefined_acl: 3,
        if_generation_match: Some(1),
        if_generation_not_match: Some(2),
        if_metageneration_match: Some(3),
        if_metageneration_not_match: Some(4),
        if_source_generation_match: Some(5),
        if_source_generation_not_match: Some(6),
        if_source_metageneration_match: Some(7),
        if_source_metageneration_not_match: Some(8),
        max_bytes_rewritten_per_call: 1048576,
        projection: 1,
        rewrite_token: "tok".to_string(),
        source_generation: 9,
        ..Default::default()
    };
    let mut expected =
        owned(&[("destinationKmsKeyName", "key"), ("destinationPredefinedAcl", "bucketOwnerRead")]);
    expected.extend(owned(&source_conditions()));
    expected.extend(owned(&[
        ("maxBytesRewrittenPerCall", "1048576"),
        ("projection", "noAcl"),
        ("rewriteToken", "tok"),
        ("sourceGeneration", "9"),
    ]));
    assert_eq!(request.request_query(), expected);
    assert_eq!(request, RewriteObjectRequest::default());
    assert!(request.request_query().is_empty());
}

#[test]
fn get_object_media_query_always_asks_for_the_data() {
    let mut request = GetObjectMediaRequest {
        bucket: "b".to_string(),
        object: "o".to_string(),
        generation: 5,
        if_generation_match: Some(1),
        ..Default::default()
    };
    assert_eq!(
        request.request_query(),
        owned(&[("alt", "media"), ("generation", "5"), ("ifGenerationMatch", "1")])
    );
    assert_eq!(request.request_query(), owned(&[("alt", "media")]));
}

#[test]
fn delete_object_query() {
    let mut request = DeleteObjectRequest {
        generation: 5,
        if_generation_match: Some(1),
        if_generation_not_match: Some(2),
        if_metageneration_match: Some(3),
        if_metageneration_not_match: Some(4),
        ..Default::default()
    };
    assert_eq!(request.request_query(), owned(&source_conditions()[..4]));
    assert_eq!(request.generation, 5);
    assert!(request.request_query().is_empty());
}

#[test]
fn update_object_query() {
    let mut request = UpdateObjectRequest {
        generation: 5,
        if_metageneration_match: Some(3),
        predefined_acl: 6,
        projection: 2,
        ..Default::default()
    };
    assert_eq!(
        request.request_query(),
        owned(&[
            ("generation", "5"),
            ("ifMetagenerationMatch", "3"),
            ("predefinedAcl", "publicRead"),
            ("projection", "full")
        ])
    );
    assert!(request.request_query().is_empty());
}

#[test]
fn list_objects_query() {
    let mut request = ListObjectsRequest {
        bucket: "b".to_string(),
        delimiter: "/".to_string(),
        include_trailing_delimiter: true,
        max_results: 100,
        page_token: "t".to_string(),
        prefix: "dir/".to_string(),
        projection: 2,
        versions: true,
        common_request_params: None,
    };
    assert_eq!(
        request.request_query(),
        owned(&[
            ("delimiter", "/"),
            ("includeTrailingDelimiter", "true"),
            ("maxResults", "100"),
            ("pageToken", "t"),
            ("prefix", "dir/"),
            ("projection", "full"),
            ("versions", "true")
        ])
    );
    assert_eq!(request, ListObjectsRequest { bucket: "b".to_string(), ..Default::default() });
    assert!(request.request_query().is_empty());
}

#[test]
fn insert_object_query() {
    let mut request = InsertObjectRequest {
        first_message: Some(FirstMessage::InsertObjectSpec(InsertObjectSpec {
            resource: Some(Object {
                bucket: "b".to_string(),
                name: "dir/o".to_string(),
                ..Default::default()
            }),
            ..Default::default()
        })),
        common_request_params: common(),
        ..Default::default()
    };
    assert_eq!(
        request.request_query(),
        owned(&[("quotaUser", "q"), ("fields", "a,b"), ("uploadType", "media"), ("name", "dir/o")])
    );
    assert_eq!(request.request_query(), owned(&[("uploadType", "media")]));
}

#[test]
fn insert_object_query_without_a_spec() {
    let mut request = InsertObjectRequest::default();
    assert_eq!(request.request_query(), owned(&[("uploadType", "media")]));
    let mut request = InsertObjectRequest {
        first_message: Some(FirstMessage::UploadId("u".to_string())),
        ..Default::default()
    };
    assert_eq!(request.request_query(), owned(&[("uploadType", "media")]));
    assert_eq!(request.first_message, Some(FirstMessage::UploadId("u".to_string())));
}

#[test]
fn hmac_key_queries() {
    let mut request = CreateHmacKeyRequest {
        project_id: "p".to_string(),
        service_account_email: "sa@example.com".to_string(),
        ..Default::default()
    };
    assert_eq!(request.request_query(), owned(&[("serviceAccountEmail", "sa@example.com")]));
    assert!(request.request_query().is_empty());

    let mut request = ListHmacKeysRequest {
        project_id: "p".to_string(),
        service_account_email: "sa@example.com".to_string(),
        show_deleted_keys: true,
        max_results: 5,
        page_token: "t".to_string(),
        ..Default::default()
    };
    assert_eq!(
        request.request_query(),
        owned(&[
            ("maxResults", "5"),
            ("pageToken", "t"),
            ("serviceAccountEmail", "sa@example.com"),
            ("showDeletedKeys", "true")
        ])
    );
    assert!(request.request_query().is_empty());
    assert_eq!(request.project_id, "p");
}

#[test]
fn access_control_queries() {
    let mut request = InsertObjectAccessControlRequest { generation: 3, ..Default::default() };
    assert_eq!(request.request_query(), owned(&[("generation", "3")]));
    assert!(request.request_query().is_empty());

    let mut request = ListDefaultObjectAccessControlsRequest {
        if_metageneration_match: Some(1),
        if_metageneration_not_match: Some(2),
        ..Default::default()
    };
    assert_eq!(
        request.request_query(),
        owned(&[("ifMetagenerationMatch", "1"), ("ifMetagenerationNotMatch", "2")])
    );
    assert!(request.request_query().is_empty());
}

#[test]
fn iam_queries() {
    let mut request = GetIamPolicyRequest {
        iam_request: Some(iam::v1::GetIamPolicyRequest {
            resource: "b".to_string(),
            options: Some(iam::v1::GetPolicyOptions { requested_policy_version: 3 }),
        }),
        common_request_params: common(),
    };
    assert_eq!(
        request.request_query(),
        owned(&[("quotaUser", "q"), ("fields", "a,b"), ("optionsRequestedPolicyVersion", "3")])
    );
    assert!(request.request_query().is_empty());

    let mut request = GetIamPolicyRequest {
        iam_request: Some(iam::v1::GetIamPolicyRequest { resource: "b".to_string(), options: None }),
        ..Default::default()
    };
    assert!(request.request_query().is_empty());
    assert_eq!(request, GetIamPolicyRequest::default());

    let mut request = GetIamPolicyRequest {
        iam_request: Some(iam::v1::GetIamPolicyRequest {
            resource: "b".to_string(),
            options: Some(iam::v1::GetPolicyOptions { requested_policy_version: 0 }),
        }),
        ..Default::default()
    };
    assert!(request.request_query().is_empty());

    let mut request = SetIamPolicyRequest { common_request_params: common(), ..Default::default() };
    assert_eq!(request.request_query(), owned(&[("quotaUser", "q"), ("fields", "a,b")]));
    assert!(request.request_query().is_empty());
}

#[test]
fn test_permissions_query_repeats_the_key() {
    let mut request = TestIamPermissionsRequest {
        iam_request: Some(iam::v1::TestIamPermissionsRequest {
            resource: "b".to_string(),
            permissions: vec![
                "storage.buckets.get".to_string(),
                "storage.objects.list".to_string(),
                "storage.buckets.get".to_string(),
            ],
        }),
        ..Default::default()
    };
    assert_eq!(
        request.request_query(),
        owned(&[
            ("permissions", "storage.buckets.get"),
            ("permissions", "storage.objects.list"),
            ("permissions", "storage.buckets.get")
        ])
    );
    assert!(request.request_query().is_empty());
}
