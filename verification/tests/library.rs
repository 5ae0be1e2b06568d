//! Tests of the library's conversions, messages, request bodies and laws on concrete values.

use huawei_obs_client::client::{S3ErrorReport, S3Failure};
use huawei_obs_client::cors::{
    content_md5, decode_cors_rules, digest_header_value, delete_bucket_cors_outcome, encode_cors_rules,
    get_bucket_cors_outcome, put_bucket_cors_outcome, AwsCorsRule,
};
use huawei_obs_client::error::{io_error_summary, network_error_summary, s3_error_summary, IoErrorClass};
use huawei_obs_client::lifecycle::{
    decode_lifecycle_rules, delete_lifecycle_rules_outcome, encode_lifecycle_rule,
    encode_lifecycle_rules, get_lifecycle_rules_outcome, put_lifecycle_rules_outcome,
    AwsExpirationStatus, AwsLifecycleAnd, AwsLifecycleFilter, AwsLifecycleRule, AwsTransition,
};
use huawei_obs_client::objects::{
    copy_route, create_bucket_outcome, deleted_keys, list_buckets_outcome, list_objects_outcome,
    object_exists_outcome, object_metadata_outcome, presign_expiry, s3_outcome,
    stream_content_type, upload_content_type, CopyRoute, HeadObjectReport, ListPage,
    ListedBucket, ListedObject, ListPages, list_request, upload_headers,
};
use huawei_obs_client::policy::{
    delete_bucket_policy_outcome, get_bucket_policy_outcome, put_bucket_policy_outcome,
};
use huawei_obs_client::text::{
    chars_of, find_text, i64_to_decimal, parse_i64, same_text, slice_chars, str_contains,
    u64_to_decimal,
};
use huawei_obs_client::worm::{
    retention_from_body, retention_status_check, object_lock_from_body, object_lock_status_step,
    object_lock_url, object_lock_xml, put_object_lock_outcome, put_object_retention_outcome,
    request_failed, retention_url, retention_xml, LockReadStep,
};
use huawei_obs_client::{
    CorsRule, DefaultWormRetention, LifecycleRule, LifecycleTag, ListOptions, ObjectLockConfiguration,
    ObsClient, ObsError, UploadOptions, VersioningStatus, WormRetention, WormRetentionMode,
};

fn report(text: &str, failure: S3Failure) -> S3ErrorReport {
    S3ErrorReport { text: text.to_string(), failure }
}

fn tag(k: &str, v: &str) -> LifecycleTag {
    LifecycleTag { key: k.to_string(), value: v.to_string() }
}

fn rule(id: &str) -> LifecycleRule {
    LifecycleRule {
        id: id.to_string(),
        prefix: None,
        enabled: true,
        expiration_days: None,
        noncurrent_version_expiration_days: None,
        transition_days: None,
        transition_storage_class: None,
        tags: None,
        object_size_greater_than: None,
        object_size_less_than: None,
    }
}

// ─── Messages ────────────────────────────────────────────────────────────────

#[test]
fn user_messages_are_exact() {
    assert_eq!(ObsError::NotFound("a.txt".into()).user_message(), "'a.txt' does not exist.");
    assert_eq!(
        ObsError::NotFound(String::new()).user_message(),
        "The requested file or folder does not exist."
    );
    assert_eq!(
        ObsError::BucketNotFound("b".into()).user_message(),
        "Bucket 'b' does not exist or you don't have access to it."
    );
    assert_eq!(
        ObsError::BucketNotEmpty("b".into()).user_message(),
        "Bucket 'b' is not empty. Delete all objects first."
    );
    assert_eq!(ObsError::BucketAlreadyExists("b".into()).user_message(), "Bucket 'b' already exists.");
    assert_eq!(
        ObsError::InvalidConfig("missing".into()).user_message(),
        "Configuration error: missing"
    );
    assert_eq!(
        ObsError::ConnectionFailed("reset".into()).user_message(),
        "Connection failed: reset"
    );
    assert_eq!(
        ObsError::ConnectionFailed(String::new()).user_message(),
        "Failed to connect to the server."
    );
    assert_eq!(ObsError::Other(String::new()).user_message(), "Unknown error occurred.");
    assert_eq!(ObsError::Other("weird".into()).user_message(), "weird");
    assert_eq!(
        ObsError::Timeout("x".into()).user_message(),
        "Operation timed out. Try again or check your connection."
    );
}

#[test]
fn network_messages_look_at_lower_case_text() {
    assert_eq!(
        ObsError::Network("Connection TIMED OUT".into()).user_message(),
        "Connection timed out. Check your network connection."
    );
    assert_eq!(
        ObsError::Network("Connection REFUSED".into()).user_message(),
        "Connection refused. The server may be unavailable."
    );
    assert_eq!(
        ObsError::Network("failed to RESOLVE host".into()).user_message(),
        "Could not reach the server. Check the endpoint URL."
    );
    assert_eq!(
        ObsError::Network("broken pipe".into()).user_message(),
        "Network error. Check your internet connection."
    );
    assert_eq!(network_error_summary("dns"), "Could not reach the server. Check the endpoint URL.");
}

#[test]
fn s3_messages_are_summarised() {
    assert_eq!(
        ObsError::S3Error("AccessDenied: no".into()).user_message(),
        "Access denied. Check your credentials and permissions."
    );
    assert_eq!(
        ObsError::AwsSdk("InvalidAccessKeyId".into()).user_message(),
        "Invalid access key. Check your credentials."
    );
    assert_eq!(
        ObsError::AwsSdk("SignatureMismatch".into()).user_message(),
        "Authentication failed. Check your secret key."
    );
    assert_eq!(ObsError::S3Error("NoSuchBucket".into()).user_message(), "Bucket does not exist.");
    assert_eq!(ObsError::S3Error("NoSuchKey".into()).user_message(), "Object does not exist.");
    assert_eq!(
        ObsError::S3Error("EntityTooLarge".into()).user_message(),
        "File is too large for upload."
    );
    assert_eq!(
        ObsError::Other("SlowDown please".into()).user_message(),
        "Too many requests. Please wait and try again."
    );
    assert_eq!(
        ObsError::Other("MalformedPolicy".into()).user_message(),
        "Invalid bucket policy format."
    );
    assert_eq!(
        ObsError::Other("NoSuchCORSConfiguration".into()).user_message(),
        "No CORS configuration found for this bucket."
    );
    assert_eq!(ObsError::S3Error("plain failure".into()).user_message(), "plain failure");
    // The summary looks only at the lower-case text it is given.
    assert_eq!(s3_error_summary("X", "bucketnotempty"), "Bucket is not empty. Delete all objects first.");
    assert_eq!(s3_error_summary("X", "BUCKETNOTEMPTY"), "X");
}

#[test]
fn summaries_summarize_to_themselves() {
    let inputs = [
        "AccessDenied: nope",
        "InvalidAccessKeyId",
        "SignatureDoesNotMatch SignatureMismatch",
        "NoSuchBucket",
        "BucketAlreadyExists",
        "BucketNotEmpty",
        "NoSuchKey",
        "EntityTooLarge",
        "request timed out",
        "SlowDown",
        "MalformedPolicy",
        "NoSuchCORSConfiguration",
        "something else",
    ];
    for m in inputs {
        let once = s3_error_summary(m, &m.to_lowercase());
        let twice = s3_error_summary(&once, &once.to_lowercase());
        assert_eq!(twice, once);
    }
}

#[test]
fn io_messages() {
    let not_found = std::io::Error::new(std::io::ErrorKind::NotFound, "gone");
    assert_eq!(ObsError::Io(not_found).user_message(), "File not found on local disk.");
    let denied = std::io::Error::new(std::io::ErrorKind::PermissionDenied, "no");
    assert_eq!(ObsError::Io(denied).user_message(), "Permission denied for local file.");
    let other = std::io::Error::new(std::io::ErrorKind::Other, "disk full");
    assert_eq!(ObsError::Io(other).user_message(), "File error: disk full");
    assert_eq!(io_error_summary(IoErrorClass::Other, "x"), "File error: x");
}

#[test]
fn display_messages() {
    assert_eq!(ObsError::BucketNotFound("b".into()).display_message(), "Bucket not found: b");
    assert_eq!(ObsError::InvalidCredentials.display_message(), "Invalid credentials");
    assert_eq!(ObsError::Other("x".into()).display_message(), "Error: x");
    let io = std::io::Error::new(std::io::ErrorKind::Other, "disk full");
    assert_eq!(ObsError::Io(io).display_message(), "IO error: disk full");
}

#[test]
fn display_text_ends_with_the_carried_text() {
    let cases = vec![
        ObsError::NotFound("k".into()),
        ObsError::PermissionDenied("nope".into()),
        ObsError::Network("dns".into()),
        ObsError::BucketAlreadyExists("b1".into()),
        ObsError::Timeout("30s".into()),
    ];
    let texts = ["k", "nope", "dns", "b1", "30s"];
    for (e, t) in cases.iter().zip(texts.iter()) {
        assert!(e.display_message().ends_with(t));
    }
}

#[test]
fn versioning_labels() {
    assert_eq!(VersioningStatus::Enabled.as_str(), "Enabled");
    assert_eq!(VersioningStatus::Suspended.as_str(), "Suspended");
    assert_eq!(VersioningStatus::NotConfigured.as_str(), "Not configured");
}

// ─── Client configuration ────────────────────────────────────────────────────

#[test]
fn builder_defaults_region_and_keeps_settings() {
    let client = ObsClient::builder()
        .access_key("ak")
        .secret_key("sk")
        .endpoint("https://example.com")
        .build()
        .unwrap();
    let s = client.aws_client_settings();
    assert_eq!(s.access_key, "ak");
    assert_eq!(s.secret_key, "sk");
    assert_eq!(s.region, "us-east-1");
    assert_eq!(s.endpoint_url, "https://example.com");
    assert!(s.force_path_style);
}

#[test]
fn builder_checks_in_order() {
    match ObsClient::builder().build() {
        Err(ObsError::InvalidConfig(msg)) => assert_eq!(msg, "access_key is required"),
        other => panic!("unexpected {:?}", other.err()),
    }
    match ObsClient::builder().access_key("a").build() {
        Err(ObsError::InvalidConfig(msg)) => assert_eq!(msg, "secret_key is required"),
        other => panic!("unexpected {:?}", other.err()),
    }
}

#[test]
fn bucket_handle_and_urls() {
    let client = ObsClient::new("ak".into(), "sk".into(), "https://obs.example.com".into(), "r1".into())
        .unwrap();
    assert!(client.get_bucket("my-bucket").is_ok());
    let url = client.object_lock_request_url("my-bucket").unwrap();
    assert_eq!(url, "https://obs.example.com/my-bucket/?object-lock");
    let url = client.retention_request_url("my-bucket", "a.txt", Some("v2")).unwrap();
    assert_eq!(url, "https://obs.example.com/my-bucket/a.txt?retention&versionId=v2");
    let plain = ObsClient::new("ak".into(), "sk".into(), "http://10.0.0.1:9000".into(), "r1".into())
        .unwrap();
    assert_eq!(plain.object_lock_request_url("b").unwrap(), "http://10.0.0.1:9000/b/?object-lock");
    let bare = ObsClient::new("ak".into(), "sk".into(), "obs.example.com".into(), "r1".into()).unwrap();
    assert_eq!(bare.object_lock_request_url("b").unwrap(), "https://obs.example.com/b/?object-lock");
    let handle = client.get_bucket("other").unwrap();
    assert_eq!(handle.name(), "other");
    assert!(handle.is_path_style());
    assert_eq!(object_lock_url("https://h/b"), "https://h/b/?object-lock");
    assert_eq!(retention_url("https://h/b", "k.txt", None), "https://h/b/k.txt?retention");
    assert_eq!(
        retention_url("https://h/b", "k.txt", Some("v1")),
        "https://h/b/k.txt?retention&versionId=v1"
    );
}

// ─── Error conversion ────────────────────────────────────────────────────────

#[test]
fn convert_s3_http_failures() {
    let e = ObsClient::convert_s3_error(&report("x", S3Failure::HttpFailWithBody { status: 404, body: "<Code>NoSuchBucket</Code>".into() }));
    assert!(matches!(e, ObsError::BucketNotFound(ref s) if s.is_empty()));
    let e = ObsClient::convert_s3_error(&report("x", S3Failure::HttpFailWithBody { status: 404, body: "nothing".into() }));
    assert!(matches!(e, ObsError::NotFound(_)));
    let e = ObsClient::convert_s3_error(&report("x", S3Failure::HttpFailWithBody { status: 403, body: "".into() }));
    assert!(matches!(e, ObsError::PermissionDenied(_)));
    let e = ObsClient::convert_s3_error(&report("x", S3Failure::HttpFailWithBody { status: 401, body: "".into() }));
    assert!(matches!(e, ObsError::InvalidCredentials));
    let e = ObsClient::convert_s3_error(&report("x", S3Failure::HttpFailWithBody { status: 409, body: "BucketNotEmpty".into() }));
    assert!(matches!(e, ObsError::BucketNotEmpty(_)));
    let e = ObsClient::convert_s3_error(&report("x", S3Failure::HttpFailWithBody { status: 409, body: "BucketAlreadyExists".into() }));
    assert!(matches!(e, ObsError::BucketAlreadyExists(_)));
    let e = ObsClient::convert_s3_error(&report("x", S3Failure::HttpFailWithBody { status: 409, body: "Conflict".into() }));
    assert!(matches!(e, ObsError::S3Error(ref s) if s == "Conflict"));
    let e = ObsClient::convert_s3_error(&report("x", S3Failure::HttpFailWithBody { status: 503, body: "busy".into() }));
    assert!(matches!(e, ObsError::S3Error(ref s) if s == "Server error (503)"));
    let e = ObsClient::convert_s3_error(&report("x", S3Failure::HttpFailWithBody { status: 400, body: "bad".into() }));
    assert!(matches!(e, ObsError::S3Error(ref s) if s == "bad"));
}

#[test]
fn convert_s3_other_failures() {
    let e = ObsClient::convert_s3_error(&report("serde xml: Missing field", S3Failure::Other));
    assert!(matches!(e, ObsError::PermissionDenied(_)));
    let e = ObsClient::convert_s3_error(&report("aws-creds: bad", S3Failure::Creds));
    assert!(matches!(e, ObsError::InvalidCredentials));
    let e = ObsClient::convert_s3_error(&report("io: x", S3Failure::Io { detail: "pipe".into() }));
    assert!(matches!(e, ObsError::Network(ref s) if s == "pipe"));
    let e = ObsClient::convert_s3_error(&report("r", S3Failure::Reqwest { detail: "operation TIMEOUT".into() }));
    assert!(matches!(e, ObsError::Timeout(_)));
    let e = ObsClient::convert_s3_error(&report("r", S3Failure::Reqwest { detail: "error trying to Connect".into() }));
    assert!(matches!(e, ObsError::ConnectionFailed(_)));
    let e = ObsClient::convert_s3_error(&report("r", S3Failure::Reqwest { detail: "body error".into() }));
    assert!(matches!(e, ObsError::Network(ref s) if s == "body error"));
    let e = ObsClient::convert_s3_error(&report("Access forbidden", S3Failure::Other));
    assert!(matches!(e, ObsError::PermissionDenied(_)));
    let e = ObsClient::convert_s3_error(&report("Key NOT FOUND", S3Failure::Other));
    assert!(matches!(e, ObsError::NotFound(_)));
    let e = ObsClient::convert_s3_error(&report("odd", S3Failure::Other));
    assert!(matches!(e, ObsError::Other(ref s) if s == "odd"));
}

#[test]
fn convert_aws_failures() {
    assert!(matches!(ObsClient::convert_aws_error("AccessDenied"), ObsError::PermissionDenied(_)));
    assert!(matches!(ObsClient::convert_aws_error("SignatureMismatch"), ObsError::InvalidCredentials));
    assert!(matches!(ObsClient::convert_aws_error("NoSuchBucket"), ObsError::BucketNotFound(_)));
    assert!(matches!(ObsClient::convert_aws_error("BucketAlreadyOwnedByYou"), ObsError::BucketAlreadyExists(_)));
    assert!(matches!(ObsClient::convert_aws_error("Bucket not empty"), ObsError::BucketNotEmpty(_)));
    assert!(matches!(ObsClient::convert_aws_error("status 404"), ObsError::NotFound(_)));
    assert!(matches!(ObsClient::convert_aws_error("Timed Out"), ObsError::Timeout(_)));
    assert!(matches!(ObsClient::convert_aws_error("Connection reset"), ObsError::ConnectionFailed(_)));
    assert!(matches!(ObsClient::convert_aws_error("Weird"), ObsError::AwsSdk(ref s) if s == "Weird"));
}

#[test]
fn delete_bucket_failures_name_the_bucket() {
    assert!(ObsClient::delete_bucket_outcome("b", Ok(())).is_ok());
    match ObsClient::delete_bucket_outcome("b", Err("BucketNotEmpty".into())) {
        Err(ObsError::BucketNotEmpty(n)) => assert_eq!(n, "b"),
        other => panic!("unexpected {:?}", other),
    }
    match ObsClient::delete_bucket_outcome("b", Err("NoSuchBucket".into())) {
        Err(ObsError::BucketNotFound(n)) => assert_eq!(n, "b"),
        other => panic!("unexpected {:?}", other),
    }
    match ObsClient::delete_bucket_outcome("b", Err("Boom".into())) {
        Err(ObsError::AwsSdk(m)) => assert_eq!(m, "Boom"),
        other => panic!("unexpected {:?}", other),
    }
}

// ─── Bucket and object operations ────────────────────────────────────────────

#[test]
fn bucket_listing_and_creation() {
    let listed = vec![
        ListedBucket { name: Some("a".into()), creation_date: None },
        ListedBucket { name: None, creation_date: Some(std::time::UNIX_EPOCH) },
    ];
    let out = list_buckets_outcome(Ok(listed)).unwrap();
    assert_eq!(out.len(), 2);
    assert_eq!(out[0].name, "a");
    assert_eq!(out[1].name, "");
    assert_eq!(out[1].creation_date, Some(std::time::UNIX_EPOCH));
    assert!(out[0].region.is_none());
    assert!(matches!(list_buckets_outcome(Err("down".into())), Err(ObsError::AwsSdk(ref s)) if s == "down"));
    assert!(create_bucket_outcome(Ok(())).is_ok());
    assert!(matches!(create_bucket_outcome(Err("BucketAlreadyExists".into())), Err(ObsError::BucketAlreadyExists(_))));
}

#[test]
fn object_existence_and_metadata() {
    assert!(object_exists_outcome(Ok(())).unwrap());
    let missing = report("x", S3Failure::HttpFailWithBody { status: 404, body: "".into() });
    assert!(!object_exists_outcome(Err(missing)).unwrap());
    let denied = report("x", S3Failure::HttpFailWithBody { status: 403, body: "".into() });
    assert!(matches!(object_exists_outcome(Err(denied)), Err(ObsError::PermissionDenied(_))));

    let head = HeadObjectReport { content_type: Some("text/plain".into()), content_length: Some(12), e_tag: Some("\"e\"".into()) };
    let m = object_metadata_outcome(Ok(head)).unwrap();
    assert_eq!(m.content_type.as_deref(), Some("text/plain"));
    assert_eq!(m.content_length, 12);
    assert_eq!(m.etag.as_deref(), Some("\"e\""));
    assert!(m.metadata.is_empty());
    let odd = HeadObjectReport { content_type: None, content_length: Some(-1), e_tag: None };
    assert_eq!(object_metadata_outcome(Ok(odd)).unwrap().content_length, u64::MAX);
    let none = HeadObjectReport { content_type: None, content_length: None, e_tag: None };
    assert_eq!(object_metadata_outcome(Ok(none)).unwrap().content_length, 0);
    assert!(s3_outcome::<u8>(Ok(7)).unwrap() == 7);
}

#[test]
fn object_listing_gathers_all_pages() {
    let obj = |k: &str, size: u64| ListedObject { key: k.into(), size, e_tag: None, storage_class: Some("STANDARD".into()) };
    let page = |contents: Vec<ListedObject>, cps: Option<Vec<String>>| ListPage {
        contents,
        common_prefixes: cps,
        is_truncated: false,
        next_continuation_token: None,
    };
    let pages = vec![
        page(vec![obj("a", 1), obj("b", 2)], Some(vec!["d1/".into()])),
        page(vec![], None),
        page(vec![obj("c", 3)], Some(vec!["d2/".into(), "d3/".into()])),
    ];
    let l = list_objects_outcome(Ok(pages), None).unwrap();
    let keys: Vec<&str> = l.objects.iter().map(|o| o.key.as_str()).collect();
    assert_eq!(keys, vec!["a", "b", "c"]);
    assert_eq!(l.objects[2].size, 3);
    assert_eq!(l.objects[0].storage_class.as_deref(), Some("STANDARD"));
    assert_eq!(l.common_prefixes, vec!["d1/", "d2/", "d3/"]);
    assert!(!l.is_truncated);
    assert!(l.next_continuation_token.is_none());
    let failure = report("x", S3Failure::HttpFailWithBody { status: 404, body: "NoSuchBucket".into() });
    assert!(matches!(list_objects_outcome(Err(failure), None), Err(ObsError::BucketNotFound(_))));
}

#[test]
fn object_listing_pages_and_bounds() {
    let obj = |k: &str| ListedObject { key: k.into(), size: 1, e_tag: None, storage_class: None };
    // A page the server cut short: truncated, with the token that resumes it.
    let truncated = ListPage {
        contents: vec![obj("a"), obj("b")],
        common_prefixes: None,
        is_truncated: true,
        next_continuation_token: Some("tok-2".into()),
    };
    let l = list_objects_outcome(Ok(vec![truncated]), Some(2)).unwrap();
    assert_eq!(l.objects.len(), 2);
    assert!(l.is_truncated);
    assert_eq!(l.next_continuation_token.as_deref(), Some("tok-2"));
    // More objects than the bound: only the first ones, marked truncated.
    let full = ListPage {
        contents: vec![obj("a"), obj("b"), obj("c")],
        common_prefixes: None,
        is_truncated: false,
        next_continuation_token: None,
    };
    let l = list_objects_outcome(Ok(vec![full]), Some(2)).unwrap();
    let keys: Vec<&str> = l.objects.iter().map(|o| o.key.as_str()).collect();
    assert_eq!(keys, vec!["a", "b"]);
    assert!(l.is_truncated);
    assert!(l.next_continuation_token.is_none());
    // The bound cut off objects of a page the server said was truncated: no token.
    let overfull = ListPage {
        contents: vec![obj("a"), obj("b"), obj("c")],
        common_prefixes: None,
        is_truncated: true,
        next_continuation_token: Some("tok-9".into()),
    };
    let l = list_objects_outcome(Ok(vec![overfull]), Some(1)).unwrap();
    assert_eq!(l.objects.len(), 1);
    assert!(l.is_truncated);
    assert!(l.next_continuation_token.is_none());
    // A negative bound sets no bound.
    let last = ListPage { contents: vec![obj("z")], common_prefixes: None, is_truncated: false, next_continuation_token: Some("ignored".into()) };
    let l = list_objects_outcome(Ok(vec![last]), Some(-3)).unwrap();
    assert_eq!(l.objects.len(), 1);
    assert!(!l.is_truncated);
    assert!(l.next_continuation_token.is_none());

    let r = list_request(&ListOptions::default());
    assert!(matches!(r.pages, ListPages::AllPages));
    assert_eq!(r.prefix, "");
    assert!(r.delimiter.is_none());
    let opts = ListOptions {
        prefix: Some("photos/".into()),
        delimiter: Some("/".into()),
        max_keys: Some(10),
        continuation_token: Some("t".into()),
    };
    let r = list_request(&opts);
    assert_eq!(r.prefix, "photos/");
    assert_eq!(r.delimiter.as_deref(), Some("/"));
    match r.pages {
        ListPages::OnePage { continuation_token, max_keys } => {
            assert_eq!(continuation_token.as_deref(), Some("t"));
            assert_eq!(max_keys, Some(10));
        }
        other => panic!("unexpected {:?}", other),
    }
    let opts = ListOptions { max_keys: Some(-1), ..Default::default() };
    assert!(matches!(list_request(&opts).pages, ListPages::AllPages));
    let opts = ListOptions { max_keys: Some(0), ..Default::default() };
    assert!(matches!(list_request(&opts).pages, ListPages::OnePage { continuation_token: None, max_keys: Some(0) }));
}

#[test]
fn small_decisions() {
    assert_eq!(copy_route("a", "a"), CopyRoute::WithinBucket);
    assert_eq!(copy_route("a", "b"), CopyRoute::AcrossBuckets);
    assert_eq!(upload_content_type(&None), "application/octet-stream");
    let opts = Some(UploadOptions { content_type: Some("image/jpeg".into()), ..Default::default() });
    assert_eq!(upload_content_type(&opts), "image/jpeg");
    let h = upload_headers(&vec![("author".into(), "me".into()), ("v".into(), "2".into())], &Some("WARM".into()));
    assert_eq!(
        h,
        vec![
            ("x-amz-meta-author".to_string(), "me".to_string()),
            ("x-amz-meta-v".to_string(), "2".to_string()),
            ("x-amz-storage-class".to_string(), "WARM".to_string()),
        ]
    );
    assert!(upload_headers(&vec![], &None).is_empty());
    assert_eq!(upload_content_type(&Some(UploadOptions::default())), "application/octet-stream");
    assert_eq!(stream_content_type(None), "application/octet-stream");
    assert_eq!(stream_content_type(Some("text/csv")), "text/csv");
    assert_eq!(presign_expiry(3600), 3600);
    assert_eq!(presign_expiry((1u64 << 32) + 5), 5);
    let kept = deleted_keys(vec![("a".into(), true), ("b".into(), false), ("c".into(), true)]);
    assert_eq!(kept, vec!["a".to_string(), "c".to_string()]);
}

// ─── Lifecycle ───────────────────────────────────────────────────────────────

#[test]
fn lifecycle_filter_forms() {
    let mut r = rule("p");
    r.prefix = Some("tmp/".into());
    let w = encode_lifecycle_rule(r);
    let f = w.filter.unwrap();
    assert_eq!(f.prefix.as_deref(), Some("tmp/"));
    assert!(f.and.is_none());
    assert!(w.transitions.is_empty());

    let mut r = rule("t");
    r.prefix = Some("logs/".into());
    r.tags = Some(vec![tag("env", "test")]);
    r.expiration_days = Some(30);
    let w = encode_lifecycle_rule(r);
    assert_eq!(w.status, AwsExpirationStatus::Enabled);
    assert_eq!(w.expiration.unwrap().days, Some(30));
    let f = w.filter.unwrap();
    assert!(f.prefix.is_none());
    let a = f.and.unwrap();
    assert_eq!(a.prefix.as_deref(), Some("logs/"));
    assert_eq!(a.tags.len(), 1);

    let mut r = rule("e");
    r.enabled = false;
    r.prefix = Some(String::new());
    let w = encode_lifecycle_rule(r);
    assert_eq!(w.status, AwsExpirationStatus::Disabled);
    assert_eq!(w.filter.unwrap().prefix.as_deref(), Some(""));
}

#[test]
fn lifecycle_rules_read_back_as_written() {
    let mut a = rule("expire-tmp");
    a.prefix = Some("tmp/".into());
    a.expiration_days = Some(7);
    a.transition_days = Some(3);
    a.transition_storage_class = Some("WARM".into());
    let mut b = rule("tagged");
    b.prefix = Some("logs/".into());
    b.tags = Some(vec![tag("env", "test"), tag("team", "x")]);
    b.object_size_greater_than = Some(500);
    b.noncurrent_version_expiration_days = Some(2);
    let mut c = rule("empty-tags");
    c.tags = Some(vec![]);
    c.object_size_less_than = Some(9);
    let back = decode_lifecycle_rules(encode_lifecycle_rules(vec![a, b, c]));
    assert_eq!(back.len(), 3);
    assert_eq!(back[0].id, "expire-tmp");
    assert_eq!(back[0].prefix.as_deref(), Some("tmp/"));
    assert_eq!(back[0].expiration_days, Some(7));
    assert_eq!(back[0].transition_days, Some(3));
    assert_eq!(back[0].transition_storage_class.as_deref(), Some("WARM"));
    assert_eq!(back[1].transition_days, None);
    assert!(back[1].transition_storage_class.is_none());
    assert!(back[0].enabled);
    assert_eq!(back[1].prefix.as_deref(), Some("logs/"));
    let tags = back[1].tags.as_ref().unwrap();
    assert_eq!((tags[1].key.as_str(), tags[1].value.as_str()), ("team", "x"));
    assert_eq!(back[1].object_size_greater_than, Some(500));
    assert_eq!(back[1].noncurrent_version_expiration_days, Some(2));
    assert!(back[2].tags.is_none());
    assert!(back[2].prefix.is_none());
    assert_eq!(back[2].object_size_less_than, Some(9));
}

#[test]
fn lifecycle_decoding_of_server_forms() {
    let server = AwsLifecycleRule {
        id: None,
        status: AwsExpirationStatus::Unrecognized,
        filter: Some(AwsLifecycleFilter {
            prefix: Some("outer/".into()),
            tag: Some(tag("k", "v")),
            and: Some(AwsLifecycleAnd { prefix: Some(String::new()), tags: vec![], object_size_greater_than: Some(1), object_size_less_than: None }),
            object_size_greater_than: Some(2),
            object_size_less_than: None,
        }),
        expiration: None,
        noncurrent_version_expiration: None,
        transitions: vec![
            AwsTransition { days: Some(30), storage_class: Some("COLD".into()) },
            AwsTransition { days: Some(90), storage_class: None },
        ],
    };
    let r = get_lifecycle_rules_outcome(Ok(vec![server])).unwrap();
    assert_eq!(r[0].transition_days, Some(30));
    assert_eq!(r[0].transition_storage_class.as_deref(), Some("COLD"));
    assert_eq!(r[0].id, "");
    assert!(!r[0].enabled);
    assert_eq!(r[0].prefix.as_deref(), Some("outer/"));
    assert_eq!(r[0].tags.as_ref().unwrap()[0].key, "k");
    assert_eq!(r[0].object_size_greater_than, Some(2));
}

#[test]
fn lifecycle_outcomes() {
    assert!(get_lifecycle_rules_outcome(Err("NoSuchLifecycleConfiguration".into())).unwrap().is_empty());
    assert!(get_lifecycle_rules_outcome(Err("missing field `Rule`".into())).unwrap().is_empty());
    match get_lifecycle_rules_outcome(Err("Boom".into())) {
        Err(ObsError::S3Error(m)) => assert_eq!(m, "Failed to get lifecycle rules: Boom"),
        other => panic!("unexpected {:?}", other),
    }
    match put_lifecycle_rules_outcome(Err("Bad".into())) {
        Err(ObsError::S3Error(m)) => assert_eq!(m, "Failed to set lifecycle rules: Bad"),
        other => panic!("unexpected {:?}", other),
    }
    assert!(delete_lifecycle_rules_outcome(Err("Got HTTP 404".into())).is_ok());
    assert!(delete_lifecycle_rules_outcome(Err("Got HTTP 404".into())).is_ok());
    assert!(matches!(delete_lifecycle_rules_outcome(Err("x".into())), Err(ObsError::S3Error(ref s)) if s == "x"));
}

// ─── CORS ────────────────────────────────────────────────────────────────────

#[test]
fn digest_header_values() {
    assert_eq!(digest_header_value(b""), "");
    assert_eq!(digest_header_value(b"h"), "aA==");
    assert_eq!(digest_header_value(b"hi"), "aGk=");
    assert_eq!(digest_header_value(&[0, 1, 2]), "AAEC");
    assert_eq!(digest_header_value(&[0xfb, 0xff]), "+/8=");
}

#[test]
fn content_md5_values() {
    assert_eq!(content_md5(b""), "1B2M2Y8AsgTpgAmY7PhCfg==");
    assert_eq!(content_md5(b"abc"), "kAFQmDzST7DWlj99KOF/cg==");
    assert_eq!(content_md5(b"<CORSConfiguration/>").len(), 24);
}

#[test]
fn cors_rules_read_back_as_written() {
    let rules = vec![
        CorsRule {
            id: "test-rule".into(),
            allowed_origins: vec!["https://example.com".into()],
            allowed_methods: vec!["GET".into(), "PUT".into()],
            allowed_headers: Some(vec!["*".into()]),
            expose_headers: Some(vec![]),
            max_age_seconds: Some(3000),
        },
        CorsRule {
            id: "rule-2".into(),
            allowed_origins: vec!["*".into()],
            allowed_methods: vec!["POST".into()],
            allowed_headers: None,
            expose_headers: Some(vec!["ETag".into()]),
            max_age_seconds: None,
        },
    ];
    let back = decode_cors_rules(encode_cors_rules(rules));
    assert_eq!(back.len(), 2);
    assert_eq!(back[0].id, "test-rule");
    assert_eq!(back[0].allowed_methods, vec!["GET", "PUT"]);
    assert_eq!(back[0].allowed_headers, Some(vec!["*".to_string()]));
    assert_eq!(back[0].expose_headers, None);
    assert_eq!(back[0].max_age_seconds, Some(3000));
    assert_eq!(back[1].expose_headers, Some(vec!["ETag".to_string()]));
}

#[test]
fn cors_default_ids_count_from_one() {
    let server = |id: Option<&str>| AwsCorsRule {
        id: id.map(|s| s.to_string()),
        allowed_origins: vec!["*".into()],
        allowed_methods: vec!["GET".into()],
        allowed_headers: None,
        expose_headers: None,
        max_age_seconds: None,
    };
    let rules = get_bucket_cors_outcome(Ok(vec![server(None), server(Some("named")), server(None)])).unwrap();
    assert_eq!(rules[0].id, "rule-1");
    assert_eq!(rules[1].id, "named");
    assert_eq!(rules[2].id, "rule-3");
}

#[test]
fn cors_outcomes() {
    assert!(get_bucket_cors_outcome(Err("NoSuchCORSConfiguration".into())).unwrap().is_empty());
    match get_bucket_cors_outcome(Err("Boom".into())) {
        Err(ObsError::Other(m)) => assert_eq!(m, "Failed to get CORS configuration: Boom"),
        other => panic!("unexpected {:?}", other),
    }
    match put_bucket_cors_outcome(Err("Bad".into())) {
        Err(ObsError::Other(m)) => assert_eq!(m, "Failed to set CORS configuration: Bad"),
        other => panic!("unexpected {:?}", other),
    }
    assert!(delete_bucket_cors_outcome(Err("status: 404".into())).is_ok());
    match delete_bucket_cors_outcome(Err("Bad".into())) {
        Err(ObsError::Other(m)) => assert_eq!(m, "Failed to delete CORS configuration: Bad"),
        other => panic!("unexpected {:?}", other),
    }
}

// ─── Policy ──────────────────────────────────────────────────────────────────

#[test]
fn policy_outcomes() {
    assert_eq!(get_bucket_policy_outcome(Ok(Some("{}".into()))).unwrap().policy_json, "{}");
    assert_eq!(get_bucket_policy_outcome(Ok(None)).unwrap().policy_json, "");
    assert_eq!(get_bucket_policy_outcome(Err("NoSuchBucketPolicy".into())).unwrap().policy_json, "");
    match get_bucket_policy_outcome(Err("Boom".into())) {
        Err(ObsError::Other(m)) => assert_eq!(m, "Failed to get bucket policy: Boom"),
        other => panic!("unexpected {:?}", other),
    }
    assert!(put_bucket_policy_outcome(Ok(())).is_ok());
    assert!(matches!(put_bucket_policy_outcome(Err("x".into())), Err(ObsError::Other(ref s)) if s == "Failed to set bucket policy: x"));
    assert!(delete_bucket_policy_outcome(Err("NoSuchPolicy".into())).is_ok());
    assert!(matches!(delete_bucket_policy_outcome(Err("x".into())), Err(ObsError::Other(ref s)) if s == "Failed to delete bucket policy: x"));
}

// ─── Object Lock and retention ───────────────────────────────────────────────

#[test]
fn object_lock_bodies() {
    let off = ObjectLockConfiguration { enabled: false, default_retention: None };
    assert_eq!(
        object_lock_xml(&off),
        "<?xml version=\"1.0\" encoding=\"UTF-8\"?>\n<ObjectLockConfiguration xmlns=\"http://obs.myhuaweicloud.com/doc/2015-06-30/\">\n</ObjectLockConfiguration>"
    );
    let on = ObjectLockConfiguration {
        enabled: true,
        default_retention: Some(DefaultWormRetention { mode: WormRetentionMode::Compliance, days: Some(30), years: Some(2) }),
    };
    let xml = object_lock_xml(&on);
    assert!(xml.contains("    <ObjectLockEnabled>Enabled</ObjectLockEnabled>\n    <Rule>\n        <DefaultRetention>\n            <Mode>COMPLIANCE</Mode>\n            <Days>30</Days>\n        </DefaultRetention>\n    </Rule>\n</ObjectLockConfiguration>"));
    assert!(!xml.contains("Years"));
    let years = ObjectLockConfiguration {
        enabled: true,
        default_retention: Some(DefaultWormRetention { mode: WormRetentionMode::Compliance, days: None, years: Some(1) }),
    };
    assert!(object_lock_xml(&years).contains("<Years>1</Years>"));
}

#[test]
fn disabled_object_lock_body_ignores_retention() {
    let off = ObjectLockConfiguration { enabled: false, default_retention: None };
    let off_with_rule = ObjectLockConfiguration {
        enabled: false,
        default_retention: Some(DefaultWormRetention { mode: WormRetentionMode::Compliance, days: Some(7), years: None }),
    };
    assert_eq!(object_lock_xml(&off_with_rule), object_lock_xml(&off));
    assert!(!object_lock_xml(&off_with_rule).contains("Days"));
}

#[test]
fn object_lock_reads_back_what_was_set() {
    for enabled in [true, false] {
        let c = ObjectLockConfiguration { enabled, default_retention: None };
        let back = object_lock_from_body(Ok(object_lock_xml(&c))).unwrap();
        assert_eq!(back.enabled, enabled);
        assert!(back.default_retention.is_none());
    }
    assert!(matches!(object_lock_from_body(Err("eof".into())), Err(ObsError::Other(ref s)) if s == "Failed to read response: eof"));
}

#[test]
fn object_lock_status_steps() {
    assert!(matches!(object_lock_status_step(200, "200 OK"), LockReadStep::ReadBody));
    match object_lock_status_step(404, "404 Not Found") {
        LockReadStep::Finished(Ok(c)) => assert!(!c.enabled),
        _ => panic!("404 should mean not configured"),
    }
    match object_lock_status_step(500, "500 Internal Server Error") {
        LockReadStep::Finished(Err(ObsError::Other(m))) => {
            assert_eq!(m, "Failed to get object lock config: 500 Internal Server Error")
        },
        _ => panic!("500 should fail"),
    }
    assert!(put_object_lock_outcome(204, "204 No Content").is_ok());
    assert!(matches!(put_object_lock_outcome(403, "403 Forbidden"), Err(ObsError::Other(ref s)) if s == "Failed to set object lock config: 403 Forbidden"));
    assert!(matches!(request_failed("dns"), ObsError::Other(ref s) if s == "Request failed: dns"));
}

#[test]
fn retention_bodies_and_outcomes() {
    let r = WormRetention { mode: WormRetentionMode::Compliance, retain_until_date: 1700000000000 };
    assert_eq!(
        retention_xml(&r),
        "<?xml version=\"1.0\" encoding=\"UTF-8\"?>\n<Retention>\n    <Mode>COMPLIANCE</Mode>\n    <RetainUntilDate>1700000000000</RetainUntilDate>\n</Retention>"
    );
    let neg = WormRetention { mode: WormRetentionMode::Compliance, retain_until_date: -5 };
    assert!(retention_xml(&neg).contains("<RetainUntilDate>-5</RetainUntilDate>"));
    assert!(retention_status_check(200, "200 OK").is_ok());
    assert!(matches!(retention_status_check(404, "404 Not Found"), Err(ObsError::Other(ref s)) if s == "Failed to get object retention: 404 Not Found"));
    // What was written reads back.
    for date in [1700000000000i64, -5, 0, i64::MIN, i64::MAX] {
        let w = WormRetention { mode: WormRetentionMode::Compliance, retain_until_date: date };
        let back = retention_from_body(Ok(retention_xml(&w))).unwrap();
        assert_eq!(back.retain_until_date, date);
        assert_eq!(back.mode, WormRetentionMode::Compliance);
    }
    let reply = "<Retention xmlns=\"x\"><Mode>COMPLIANCE</Mode><RetainUntilDate>1893456000000</RetainUntilDate></Retention>";
    assert_eq!(retention_from_body(Ok(reply.into())).unwrap().retain_until_date, 1893456000000);
    for bad in ["<Retention/>", "<RetainUntilDate>soon</RetainUntilDate>", "<RetainUntilDate></RetainUntilDate>", "<RetainUntilDate>99999999999999999999</RetainUntilDate>", "<RetainUntilDate>-</RetainUntilDate>"] {
        let w = retention_from_body(Ok(bad.into())).unwrap();
        assert_eq!(w.retain_until_date, 0);
        assert_eq!(w.mode, WormRetentionMode::Compliance);
    }
    assert!(matches!(retention_from_body(Err("eof".into())), Err(ObsError::Other(ref s)) if s == "Failed to read response: eof"));
    assert!(put_object_retention_outcome(200, "").is_ok());
    assert!(matches!(put_object_retention_outcome(400, "<Error/>"), Err(ObsError::Other(ref s)) if s == "Failed to set object retention: <Error/>"));
}

// ─── Text helpers ────────────────────────────────────────────────────────────

#[test]
fn text_helpers() {
    assert_eq!(u64_to_decimal(0), "0");
    assert_eq!(u64_to_decimal(18446744073709551615), "18446744073709551615");
    assert_eq!(i64_to_decimal(i64::MIN), "-9223372036854775808");
    assert_eq!(i64_to_decimal(42), "42");
    let c = |t: &str| chars_of(t);
    assert_eq!(parse_i64(&c("-9223372036854775808")), Some(i64::MIN));
    assert_eq!(parse_i64(&c("9223372036854775807")), Some(i64::MAX));
    assert_eq!(parse_i64(&c("9223372036854775808")), None);
    assert_eq!(parse_i64(&c("007")), Some(7));
    assert_eq!(parse_i64(&c("+7")), None);
    assert_eq!(parse_i64(&c("")), None);
    assert_eq!(find_text(&c("a://b://c"), &c("://")), Some(1));
    assert_eq!(find_text(&c("abc"), &c("x")), None);
    assert_eq!(slice_chars(&c("hello"), 1, 3), c("el"));
    assert!(str_contains("héllo wörld", "ö"));
    assert!(str_contains("abc", ""));
    assert!(!str_contains("ab", "abc"));
    assert!(same_text("x", "x"));
    assert!(!same_text("x", "y"));
}
