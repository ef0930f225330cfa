use google_cloud_storage::error::Error;
use google_cloud_storage::google::error::{Error as Detail, ErrorResponse, Errors};
use google_cloud_storage::google::{decode_error, failure, into_google_response, Response};
use google_cloud_storage::json::{get, get_text, Json};

fn response(status: u16, body: &str) -> Response {
    Response { status, body: body.as_bytes().to_vec() }
}

#[test]
fn not_found_with_an_error_body_is_an_application_error() {
    let body = r#"{"error":{"code":404,"message":"not found","errors":[]}}"#;
    match into_google_response(response(404, body)) {
        Err(Error::Google { source }) => {
            assert_eq!(source.error.code, 404);
            assert_eq!(source.error.message, "not found");
            assert!(source.error.errors.is_empty());
        }
        other => panic!("unexpected {:?}", other),
    }
}

#[test]
fn a_failure_without_json_is_a_status_error() {
    match into_google_response(response(500, "<html>Internal Server Error</html>")) {
        Err(Error::HttpStatus { status }) => assert_eq!(status, 500),
        other => panic!("unexpected {:?}", other),
    }
}

#[test]
fn a_failure_with_an_empty_body_is_a_status_error() {
    assert!(matches!(
        into_google_response(response(503, "")),
        Err(Error::HttpStatus { status: 503 })
    ));
}

#[test]
fn success_passes_the_response_through() {
    for status in [200u16, 201, 204, 299] {
        let given = response(status, r#"{"name":"new-bucket"}"#);
        assert_eq!(into_google_response(given.clone()).unwrap(), given);
    }
}

#[test]
fn an_error_body_does_not_turn_success_into_failure() {
    let given = response(200, r#"{"error":{"code":404,"message":"not found"}}"#);
    assert_eq!(into_google_response(given.clone()).unwrap(), given);
}

#[test]
fn statuses_outside_the_success_range_fail() {
    for status in [0u16, 100, 199, 300, 304, 400, 401, 599, 65535] {
        assert!(matches!(
            into_google_response(response(status, "{}")),
            Err(Error::HttpStatus { status: found }) if found == status
        ));
    }
}

#[test]
fn the_entries_of_an_error_body_are_read_in_order() {
    let body = r#"{
        "error": {
            "code": 403,
            "message": "Forbidden",
            "errors": [
                {"domain": "global", "reason": "forbidden", "message": "first",
                 "location": "Authorization", "locationType": "header"},
                {"domain": "usageLimits", "reason": "rateLimitExceeded", "extra": [1, 2.5, null]}
            ],
            "status": "PERMISSION_DENIED"
        }
    }"#;
    let decoded = decode_error(body.as_bytes()).unwrap();
    assert_eq!(
        decoded,
        ErrorResponse {
            error: Errors {
                code: 403,
                message: "Forbidden".to_string(),
                errors: vec![
                    Detail {
                        domain: "global".to_string(),
                        location: "Authorization".to_string(),
                        location_type: "header".to_string(),
                        message: "first".to_string(),
                        reason: "forbidden".to_string(),
                    },
                    Detail {
                        domain: "usageLimits".to_string(),
                        reason: "rateLimitExceeded".to_string(),
                        ..Default::default()
                    },
                ],
            },
        }
    );
}

#[test]
fn members_that_are_missing_take_their_defaults() {
    assert_eq!(decode_error(br#"{"error":{}}"#), Some(ErrorResponse::default()));
    assert_eq!(
        decode_error(br#"{"error":{"message":"m"}}"#),
        Some(ErrorResponse { error: Errors { message: "m".to_string(), ..Default::default() } })
    );
}

#[test]
fn bodies_that_are_no_error_body_are_not_read() {
    for body in [
        "",
        "not json",
        "null",
        "[]",
        "404",
        r#""error""#,
        "{}",
        r#"{"error":null}"#,
        r#"{"error":"denied"}"#,
        r#"{"error":[]}"#,
        r#"{"errors":{"code":404}}"#,
        r#"{"error":{"code":"404"}}"#,
        r#"{"error":{"code":-1}}"#,
        r#"{"error":{"code":404.5}}"#,
        r#"{"error":{"code":65536}}"#,
        r#"{"error":{"code":null}}"#,
        r#"{"error":{"message":404}}"#,
        r#"{"error":{"message":null}}"#,
        r#"{"error":{"errors":{}}}"#,
        r#"{"error":{"errors":["x"]}}"#,
        r#"{"error":{"errors":[{"domain":1}]}}"#,
        r#"{"error":{"errors":[{},{"reason":false}]}}"#,
        r#"{"error":{"code":404}"#,
    ] {
        assert_eq!(decode_error(body.as_bytes()), None, "{}", body);
        assert!(
            matches!(
                into_google_response(response(404, body)),
                Err(Error::HttpStatus { status: 404 })
            ),
            "{}",
            body
        );
    }
}

#[test]
fn the_largest_code_is_read() {
    let decoded = decode_error(br#"{"error":{"code":65535}}"#).unwrap();
    assert_eq!(decoded.error.code, 65535);
}

#[test]
fn failure_prefers_the_error_body() {
    let body = ErrorResponse { error: Errors { code: 409, ..Default::default() } };
    assert!(matches!(failure(500, Some(body.clone())), Error::Google { source } if source == body));
    assert!(matches!(failure(500, None), Error::HttpStatus { status: 500 }));
}

#[test]
fn entries_are_read_from_json_values() {
    let entry = Json::Object(vec![
        ("domain".to_string(), Json::Text("global".to_string())),
        ("other".to_string(), Json::Array(vec![Json::Null, Json::Bool(true), Json::Float])),
    ]);
    assert_eq!(
        Detail::from_json(&entry),
        Some(Detail { domain: "global".to_string(), ..Default::default() })
    );
    assert_eq!(Detail::from_json(&Json::Null), None);
    assert_eq!(
        Detail::from_json(&Json::Object(vec![("reason".to_string(), Json::Signed(-1))])),
        None
    );
    let body = Json::Object(vec![(
        "error".to_string(),
        Json::Object(vec![
            ("code".to_string(), Json::Unsigned(410)),
            ("errors".to_string(), Json::Array(vec![entry])),
        ]),
    )]);
    let decoded = ErrorResponse::from_json(&body).unwrap();
    assert_eq!(decoded.error.code, 410);
    assert_eq!(decoded.error.errors.len(), 1);
    assert_eq!(ErrorResponse::from_json(&Json::Array(vec![])), None);
}

#[test]
fn members_are_found_by_name() {
    let members = vec![
        ("a".to_string(), Json::Unsigned(1)),
        ("b".to_string(), Json::Text("two".to_string())),
        ("a".to_string(), Json::Unsigned(3)),
    ];
    assert_eq!(get(&members, "a"), Some(&Json::Unsigned(1)));
    assert_eq!(get(&members, "b"), Some(&Json::Text("two".to_string())));
    assert_eq!(get(&members, "c"), None);
    assert_eq!(get_text(&members, "b"), Some("two".to_string()));
    assert_eq!(get_text(&members, "c"), Some(String::new()));
    assert_eq!(get_text(&members, "a"), None);
}
