use storage_access::credential::{sign_mode, value_with_fallback, SignMode};
use storage_access::error::{is_success, kind_of_status, parse_error, Error, ErrorKind};
use storage_access::metadata::{parse_content_length, parse_into_metadata, EntryMode, ResponseHead};
use storage_access::path::{build_abs_path, build_rel_path, ends_with_separator, is_root_str, normalize_root, percent_encode_path};
use storage_access::range::{content_range_header, to_decimal, BytesRange};
use storage_access::capability::Capability;
use storage_access::accessor::{choose_writer, OpWrite, Writer};

#[test]
fn normalize_root_forms() {
    assert_eq!(normalize_root(""), "/");
    assert_eq!(normalize_root("/"), "/");
    assert_eq!(normalize_root("///"), "/");
    assert_eq!(normalize_root("abc"), "/abc/");
    assert_eq!(normalize_root("/abc"), "/abc/");
    assert_eq!(normalize_root("abc/"), "/abc/");
    assert_eq!(normalize_root("//a//b/c//"), "/a/b/c/");
}

#[test]
fn abs_and_rel_paths() {
    assert_eq!(build_abs_path("/", "a/b"), "a/b");
    assert_eq!(build_abs_path("/root/", "a/b"), "root/a/b");
    assert_eq!(build_abs_path("/root/", "/"), "root/");
    assert_eq!(build_rel_path("/root/", "root/a/b"), "a/b");
    assert_eq!(build_rel_path("/root/", &build_abs_path("/root/", "x/y/")), "x/y/");
    assert!(is_root_str("/"));
    assert!(!is_root_str("//"));
    assert!(ends_with_separator("a/"));
    assert!(!ends_with_separator(""));
}

#[test]
fn decimal_text() {
    assert_eq!(to_decimal(0), "0");
    assert_eq!(to_decimal(7), "7");
    assert_eq!(to_decimal(1048576), "1048576");
    assert_eq!(to_decimal(u64::MAX), "18446744073709551615");
}

#[test]
fn range_headers() {
    assert_eq!(BytesRange::new(Some(0), Some(1)).unwrap().to_header(), "bytes=0-0");
    assert_eq!(BytesRange::new(None, Some(10)).unwrap().to_header(), "bytes=-10");
    assert_eq!(BytesRange::new(Some(5), None).unwrap().to_header(), "bytes=5-");
    assert!(BytesRange::new(Some(1), Some(0)).is_none());
    assert!(BytesRange::new(Some(u64::MAX), Some(1)).is_none());
    assert!(BytesRange::full().is_full());
    assert!(BytesRange::new(Some(0), None).unwrap().is_full());
    assert!(BytesRange::new(None, Some(3)).unwrap().is_suffix());
    assert_eq!(content_range_header(1048576, 2097151), "bytes 1048576-2097151/*");
}

#[test]
fn content_length_parsing() {
    assert_eq!(parse_content_length("0").unwrap(), 0);
    assert_eq!(parse_content_length("2621440").unwrap(), 2621440);
    assert_eq!(parse_content_length("18446744073709551615").unwrap(), u64::MAX);
    assert_eq!(parse_content_length("18446744073709551616").err().unwrap().kind, ErrorKind::Unexpected);
    assert_eq!(parse_content_length("").err().unwrap().kind, ErrorKind::Unexpected);
    assert_eq!(parse_content_length("12a").err().unwrap().kind, ErrorKind::Unexpected);
    assert_eq!(parse_content_length("-1").err().unwrap().kind, ErrorKind::Unexpected);
}

#[test]
fn metadata_from_headers() {
    let head = ResponseHead {
        content_length: Some("42".to_string()),
        content_type: None,
        etag: Some("e".to_string()),
        last_modified: Some("Wed, 21 Oct 2015 07:28:00 GMT".to_string()),
    };
    let m = parse_into_metadata("a/b", &head).unwrap();
    assert_eq!(m.mode(), EntryMode::File);
    assert_eq!(m.content_length(), Some(42));
    assert_eq!(m.etag.as_deref(), Some("e"));
    assert!(m.content_type.is_none());
    assert_eq!(m.last_modified.as_deref(), Some("Wed, 21 Oct 2015 07:28:00 GMT"));
    assert_eq!(parse_into_metadata("a/", &head).unwrap().mode, EntryMode::Dir);
    let bad = ResponseHead { content_length: Some("x".to_string()), content_type: None, etag: None, last_modified: None };
    assert!(parse_into_metadata("a", &bad).is_err());
}

#[test]
fn status_mapping() {
    assert_eq!(kind_of_status(404), ErrorKind::NotFound);
    assert_eq!(kind_of_status(403), ErrorKind::PermissionDenied);
    assert_eq!(kind_of_status(401), ErrorKind::PermissionDenied);
    assert_eq!(kind_of_status(500), ErrorKind::Unexpected);
    assert_eq!(kind_of_status(409), ErrorKind::Unexpected);
    assert!(is_success(200) && is_success(299) && !is_success(300) && !is_success(199));
    let e = parse_error("cos", "stat", 404);
    assert_eq!(e.kind(), ErrorKind::NotFound);
    assert_eq!(e.service, "cos");
    assert_eq!(e.operation, "stat");
    assert_eq!(e.status, Some(404));
    let e = Error::new(ErrorKind::Unsupported, "m").with_operation("op").with_service("svc");
    assert_eq!(e.kind, ErrorKind::Unsupported);
    assert_eq!(e.message, "m");
    assert_eq!(e.operation, "op");
    assert_eq!(e.service, "svc");
}

#[test]
fn configured_value_priority() {
    assert_eq!(value_with_fallback(Some("x".to_string()), Some("y".to_string()), true).unwrap(), "x");
    assert_eq!(value_with_fallback(None, Some("y".to_string()), true).unwrap(), "y");
    assert!(value_with_fallback(None, Some("y".to_string()), false).is_none());
}

#[test]
fn sign_modes() {
    assert_eq!(sign_mode(Some(300)), SignMode::Query { expire_secs: 300 });
    assert_eq!(sign_mode(None), SignMode::Header);
}

#[test]
fn writer_choice_follows_capability() {
    let mut cap = Capability::none();
    assert_eq!(choose_writer(&cap, OpWrite { append: false }).err().unwrap().kind, ErrorKind::Unsupported);
    cap.write_can_multi = true;
    assert!(matches!(choose_writer(&cap, OpWrite { append: true }).ok().unwrap(), Writer::Multipart(_)));
    cap.write_can_append = true;
    assert!(matches!(choose_writer(&cap, OpWrite { append: true }).ok().unwrap(), Writer::Append(_)));
}

#[test]
fn percent_encoding_of_paths() {
    assert_eq!(percent_encode_path("a b/\u{fc}.txt"), "a%20b/%C3%BC.txt");
    assert_eq!(percent_encode_path("Az09-._~/"), "Az09-._~/");
    assert_eq!(percent_encode_path("?&="), "%3F%26%3D");
    assert_eq!(percent_encode_path(""), "");
}
