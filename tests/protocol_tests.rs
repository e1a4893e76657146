use quick_xml::events::Event;
use quick_xml::Reader;
use s3proxy::errors::{error_envelope_text, S3ProxyError, StorageError};
use s3proxy::metrics::init_metrics;
use s3proxy::protocol::{
    create_bucket_response, delete_bucket_response, etag_for, etag_from, get_object_response,
    head_object_response, list_entry, list_objects_response, list_result, put_object_response,
    quote, ListObjectsQuery, ObjectInfo, ResponseBody,
};
use s3proxy::s3::{error_xml, extract_metadata, CommonPrefix, ListObjectsV2Result, Object};
use s3proxy::text::decimal_string;

/// Reads an XML document back into (element, text) pairs.
fn read_back(xml: &str) -> Vec<(String, String)> {
    let mut reader = Reader::from_str(xml);
    let mut out = Vec::new();
    let mut current = String::new();
    loop {
        match reader.read_event().expect("well-formed XML") {
            Event::Start(e) => current = String::from_utf8(e.name().as_ref().to_vec()).unwrap(),
            Event::Text(t) => out.push((current.clone(), t.unescape().unwrap().into_owned())),
            Event::Eof => break,
            _ => {}
        }
    }
    out
}

fn field(pairs: &[(String, String)], name: &str) -> Option<String> {
    pairs.iter().find(|(n, _)| n == name).map(|(_, v)| v.clone())
}

fn object(key: &str, size: u64, ms: i64, tag: Option<&str>) -> ObjectInfo {
    ObjectInfo {
        location: key.to_string(),
        size,
        last_modified_millis: ms,
        e_tag: tag.map(|t| t.to_string()),
    }
}

fn header<'a>(r: &'a s3proxy::protocol::S3Response, name: &str) -> Option<&'a str> {
    r.headers.iter().find(|(n, _)| n == name).map(|(_, v)| v.as_str())
}

#[test]
fn decimal_numbers() {
    assert_eq!(decimal_string(0), "0");
    assert_eq!(decimal_string(8), "8");
    assert_eq!(decimal_string(1000), "1000");
    assert_eq!(decimal_string(u64::MAX), "18446744073709551615");
}

#[test]
fn missing_object_gives_no_such_key_document() {
    let e = StorageError::NotFound { path: "k".to_string(), message: "gone".to_string() };
    let r = get_object_response(Err(e));
    assert_eq!(r.status, 404);
    assert_eq!(header(&r, "content-type"), Some("application/xml"));
    let xml = match r.body {
        ResponseBody::Xml(x) => x,
        _ => panic!("expected an error document"),
    };
    let pairs = read_back(&xml);
    assert_eq!(field(&pairs, "Code").as_deref(), Some("NoSuchKey"));
    let msg = field(&pairs, "Message").unwrap();
    assert!(!msg.is_empty());
    assert_eq!(msg, "The specified key does not exist");
}

#[test]
fn error_messages_are_escaped_and_read_back() {
    let r = S3ProxyError::NotFound { path: "a<b>&\"c'".to_string() }.into_response();
    assert_eq!(r.status, 404);
    let xml = match r.body {
        ResponseBody::Xml(x) => x,
        _ => panic!("expected an error document"),
    };
    assert!(xml.contains("a&lt;b&gt;&amp;\"c'"));
    let pairs = read_back(&xml);
    assert_eq!(
        field(&pairs, "Message").as_deref(),
        Some("The specified key does not exist: a<b>&\"c'")
    );
}

#[test]
fn error_statuses_and_codes() {
    let r = S3ProxyError::InvalidRequest("bad".to_string()).into_response();
    assert_eq!(r.status, 400);
    match &r.body {
        ResponseBody::Xml(x) => {
            assert!(x.contains("<Code>InvalidRequest</Code>"));
            assert!(x.contains("<Message>bad</Message>"));
        }
        _ => panic!("expected an error document"),
    }
    let r = S3ProxyError::Internal("boom".to_string()).into_response();
    assert_eq!(r.status, 500);
    match &r.body {
        ResponseBody::Xml(x) => {
            assert!(x.contains("<Code>InternalError</Code>"));
            assert!(x.contains("<Message>Internal error: boom</Message>"));
        }
        _ => panic!("expected an error document"),
    }
    assert_eq!(S3ProxyError::Config("c".to_string()).message(), "Configuration error: c");
    assert_eq!(
        S3ProxyError::Storage(StorageError::Other { message: "m".to_string() }).message(),
        "Storage error: m"
    );
}

#[test]
fn error_documents_exact_text() {
    assert_eq!(
        error_xml("NoSuchKey", "missing"),
        "<?xml version=\"1.0\" encoding=\"UTF-8\"?>\n<Error>\n    <Code>NoSuchKey</Code>\n    <Message>missing</Message>\n</Error>"
    );
    assert_eq!(
        error_envelope_text("InternalError", "x"),
        "<?xml version=\"1.0\" encoding=\"UTF-8\"?>\n<Error>\n    <Code>InternalError</Code>\n    <Message>x</Message>\n    <Resource></Resource>\n    <RequestId></RequestId>\n</Error>"
    );
}

#[test]
fn listing_is_truncated_to_max_keys() {
    let objs = vec![
        object("a", 1, 0, Some("\"e1\"")),
        object("b", 2, 0, Some("e2")),
        object("c", 3, 0, None),
    ];
    let l = list_result("bkt".to_string(), None, 2, &objs);
    assert_eq!(l.contents.len(), 2);
    assert!(l.is_truncated);
    assert_eq!(l.contents[0].key, "a");
    assert_eq!(l.contents[0].etag, "\"e1\"");
    assert_eq!(l.contents[1].etag, "\"e2\"");
    assert_eq!(l.contents[1].storage_class, "STANDARD");
    let l = list_result("bkt".to_string(), None, 3, &objs);
    assert_eq!(l.contents.len(), 3);
    assert!(!l.is_truncated);
    let l = list_result("bkt".to_string(), None, 0, &objs);
    assert_eq!(l.contents.len(), 0);
    assert!(l.is_truncated);
    let l = list_result("bkt".to_string(), None, 5, &Vec::new());
    assert_eq!(l.contents.len(), 0);
    assert!(!l.is_truncated);
}

#[test]
fn listing_document() {
    let mut l = ListObjectsV2Result::new("bkt".to_string(), Some("p/".to_string()), 10);
    assert!(!l.is_truncated);
    assert!(l.contents.is_empty());
    l.contents.push(Object {
        key: "p/a&b".to_string(),
        last_modified: "2000-01-12T01:02:03.004Z".to_string(),
        etag: "\"t\"".to_string(),
        size: 12,
        storage_class: "STANDARD".to_string(),
    });
    l.common_prefixes = Some(vec![CommonPrefix { prefix: "p/d/".to_string() }]);
    assert_eq!(
        l.to_xml(),
        "<?xml version=\"1.0\" encoding=\"UTF-8\"?><ListBucketResult><Name>bkt</Name><Prefix>p/</Prefix><MaxKeys>10</MaxKeys><IsTruncated>false</IsTruncated><Contents><Key>p/a&amp;b</Key><LastModified>2000-01-12T01:02:03.004Z</LastModified><ETag>\"t\"</ETag><Size>12</Size><StorageClass>STANDARD</StorageClass></Contents><CommonPrefixes><Prefix>p/d/</Prefix></CommonPrefixes></ListBucketResult>"
    );
    let empty = ListObjectsV2Result::new("b".to_string(), None, 1000);
    assert_eq!(
        empty.to_xml(),
        "<?xml version=\"1.0\" encoding=\"UTF-8\"?><ListBucketResult><Name>b</Name><Prefix></Prefix><MaxKeys>1000</MaxKeys><IsTruncated>false</IsTruncated></ListBucketResult>"
    );
}

#[test]
fn list_response_defaults_and_reads_back() {
    let q = ListObjectsQuery::default();
    assert_eq!(q.max_keys_or_default(), 1000);
    assert_eq!(q.prefix_or_empty(), "");
    let objs = vec![object("t/a", 5, 947638923004, Some("\"x\"")), object("t/b", 6, 0, None)];
    let q = ListObjectsQuery { prefix: Some("t".to_string()), max_keys: Some(1), continuation_token: None };
    let r = list_objects_response("data".to_string(), &q, Ok(objs));
    assert_eq!(r.status, 200);
    assert_eq!(header(&r, "content-type"), Some("application/xml"));
    let xml = match r.body {
        ResponseBody::Xml(x) => x,
        _ => panic!("expected a listing"),
    };
    let pairs = read_back(&xml);
    assert_eq!(field(&pairs, "Name").as_deref(), Some("data"));
    assert_eq!(field(&pairs, "Prefix").as_deref(), Some("t"));
    assert_eq!(field(&pairs, "MaxKeys").as_deref(), Some("1"));
    assert_eq!(field(&pairs, "IsTruncated").as_deref(), Some("true"));
    assert_eq!(field(&pairs, "Key").as_deref(), Some("t/a"));
    assert_eq!(field(&pairs, "LastModified").as_deref(), Some("2000-01-12T01:02:03.004Z"));
    assert_eq!(field(&pairs, "Size").as_deref(), Some("5"));
    let r = list_objects_response(
        "data".to_string(),
        &q,
        Err(StorageError::Other { message: "throttled".to_string() }),
    );
    assert_eq!(r.status, 500);
}

#[test]
fn etags_are_stable_and_quoted() {
    let o = object("k", 42, 947638923004, None);
    assert_eq!(etag_for(&o), etag_for(&o));
    assert_eq!(etag_for(&o), "\"2000-01-12T01:02:03.004Z-42\"");
    assert_eq!(quote("abc"), "\"abc\"");
    assert_eq!(quote("\"abc\""), "\"abc\"");
    assert_eq!(quote("\"abc"), "\"\"abc\"");
    assert_eq!(quote("\""), "\"\"\"");
    assert_eq!(list_entry(&o).etag, etag_for(&o));
    let r = put_object_response(Ok(Some("v1".to_string())));
    assert_eq!(header(&r, "etag"), Some("\"v1\""));
    let r = put_object_response(Ok(None));
    let tag = header(&r, "etag").unwrap();
    assert_eq!(tag.len(), 38);
    assert!(tag.starts_with('"') && tag.ends_with('"'));
    let r = put_object_response(Err(StorageError::Other { message: "quota".to_string() }));
    assert_eq!(r.status, 500);
}

#[test]
fn head_reports_length_date_and_tag() {
    let r = head_object_response(Ok(object("k", 8, 947638923004, Some("\"z\""))));
    assert_eq!(r.status, 200);
    assert_eq!(header(&r, "content-length"), Some("8"));
    assert_eq!(header(&r, "last-modified"), Some("Wed, 12 Jan 2000 01:02:03 GMT"));
    assert_eq!(header(&r, "etag"), Some("\"z\""));
    let r = head_object_response(Err(StorageError::NotFound {
        path: "k".to_string(),
        message: "gone".to_string(),
    }));
    assert_eq!(r.status, 404);
}

#[test]
fn bucket_calls_are_no_ops() {
    let r = create_bucket_response();
    assert_eq!(r.status, 200);
    assert!(r.headers.is_empty());
    let r = delete_bucket_response();
    assert_eq!(r.status, 204);
    assert!(matches!(r.body, ResponseBody::Empty));
}

#[test]
fn user_metadata_from_headers() {
    let headers = vec![
        ("content-type".to_string(), Some("text/plain".to_string())),
        ("x-amz-meta-owner".to_string(), Some("alice".to_string())),
        ("x-amz-meta-bin".to_string(), None),
        ("x-amz-meta-".to_string(), Some("empty".to_string())),
        ("x-amz-met".to_string(), Some("short".to_string())),
        ("x-amz-meta-owner".to_string(), Some("bob".to_string())),
    ];
    let m = extract_metadata(&headers);
    assert_eq!(
        m,
        vec![
            ("owner".to_string(), "bob".to_string()),
            ("".to_string(), "empty".to_string())
        ]
    );
}

#[test]
fn metrics_register_once() {
    let registry = prometheus::Registry::new();
    let requests = prometheus::IntCounterVec::new(
        prometheus::Opts::new("s3proxy_http_requests_total", "Total HTTP requests"),
        &["method", "status"],
    )
    .unwrap();
    let latency = prometheus::Histogram::with_opts(
        prometheus::HistogramOpts::new("s3proxy_http_request_duration_seconds", "latency")
            .buckets(vec![0.001, 0.01, 0.1, 1.0]),
    )
    .unwrap();
    let ops = prometheus::IntCounterVec::new(
        prometheus::Opts::new("s3proxy_storage_operations_total", "Total storage operations"),
        &["operation", "status"],
    )
    .unwrap();
    let op_latency = prometheus::Histogram::with_opts(prometheus::HistogramOpts::new(
        "s3proxy_storage_operation_duration_seconds",
        "latency",
    ))
    .unwrap();
    assert!(init_metrics(&registry, &requests, &latency, &ops, &op_latency).is_ok());
    requests.with_label_values(&["GET", "200"]).inc();
    ops.with_label_values(&["get", "ok"]).inc();
    assert_eq!(registry.gather().len(), 4);
    let again = init_metrics(&registry, &requests, &latency, &ops, &op_latency);
    assert_eq!(again.unwrap_err().metric, "s3proxy_http_requests_total");
}

#[test]
fn etag_from_parts() {
    assert_eq!(etag_from(&Some("abc".to_string()), "ignored", 1), "\"abc\"");
    assert_eq!(etag_from(&None, "2024-01-01T00:00:00.000Z", 10), "\"2024-01-01T00:00:00.000Z-10\"");
}

#[test]
fn error_xml_keeps_quotes_as_they_are() {
    assert_eq!(
        error_xml("NoSuchKey", "key doesn't \"exist\""),
        "<?xml version=\"1.0\" encoding=\"UTF-8\"?>\n<Error>\n    <Code>NoSuchKey</Code>\n    <Message>key doesn't \"exist\"</Message>\n</Error>"
    );
}

#[test]
fn store_tags_are_double_quoted_at_both_ends() {
    let r = head_object_response(Ok(object("k", 1, 0, Some("\"open"))));
    assert_eq!(header(&r, "etag"), Some("\"\"open\""));
    let r = put_object_response(Ok(Some("\"open".to_string())));
    assert_eq!(header(&r, "etag"), Some("\"\"open\""));
    let l = list_result("b".to_string(), None, 10, &vec![object("k", 1, 0, Some("x\""))]);
    assert_eq!(l.contents[0].etag, "\"x\"\"");
}
