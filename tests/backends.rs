use storage_access::accessor::{read_response, stat_root, ReadOutcome};
use storage_access::capability::Scheme;
use storage_access::cos::{CosBuilder, Method, PresignOperation};
use storage_access::error::ErrorKind;
use storage_access::ghac::{value_or_env, CreateDirStep, GhacBuilder, GhacEnv, StatNext};
use storage_access::metadata::{EntryMode, ResponseHead};
use storage_access::range::BytesRange;

fn no_env() -> GhacEnv {
    GhacEnv { cache_url: None, runtime_token: None, api_url: None, api_token: None, repo: None }
}

fn ghac_env() -> GhacEnv {
    GhacEnv {
        cache_url: Some("https://cache.example.com/abc/".to_string()),
        runtime_token: Some("token".to_string()),
        api_url: None,
        api_token: Some("gh".to_string()),
        repo: Some("owner/repo".to_string()),
    }
}

fn empty_head() -> ResponseHead {
    ResponseHead { content_length: None, content_type: None, etag: None, last_modified: None }
}

#[test]
fn cos_build_puts_bucket_in_endpoint() {
    let mut b = CosBuilder::<()>::new();
    b.root("/path/to//dir")
        .bucket("test-1250000000")
        .endpoint("https://cos.ap-singapore.myqcloud.com/");
    let backend = b.build().unwrap();
    assert_eq!(backend.endpoint, "https://test-1250000000.cos.ap-singapore.myqcloud.com");
    assert_eq!(backend.root, "/path/to/dir/");
    assert_eq!(backend.bucket, "test-1250000000");
    assert!(backend.load_env);
}

#[test]
fn cos_build_trims_bucket_from_endpoint() {
    let mut b = CosBuilder::<()>::new();
    b.bucket("mybucket").endpoint("https://mybucket.cos.ap-singapore.myqcloud.com");
    assert_eq!(b.build().unwrap().endpoint, "https://mybucket.cos.ap-singapore.myqcloud.com");
    let mut b = CosBuilder::<()>::new();
    b.bucket("my").endpoint("https://mybucket.cos.example.com");
    assert_eq!(b.build().unwrap().endpoint, "https://my.mybucket.cos.example.com");
}

#[test]
fn cos_build_defaults_scheme_to_https() {
    let mut b = CosBuilder::<()>::new();
    b.bucket("b").endpoint("cos.ap-guangzhou.myqcloud.com");
    let backend = b.build().unwrap();
    assert_eq!(backend.endpoint, "https://b.cos.ap-guangzhou.myqcloud.com");
    assert_eq!(backend.root, "/");
}

#[test]
fn cos_build_keeps_http_scheme() {
    let mut b = CosBuilder::<()>::new();
    b.bucket("b").endpoint("http://127.0.0.1:9000");
    assert_eq!(b.build().unwrap().endpoint, "http://b.127.0.0.1");
}

#[test]
fn cos_build_requires_bucket() {
    let mut b = CosBuilder::<()>::new();
    b.endpoint("https://cos.example.com");
    assert_eq!(b.build().err().unwrap().kind, ErrorKind::ConfigInvalid);
}

#[test]
fn cos_build_requires_endpoint() {
    let mut b = CosBuilder::<()>::new();
    b.bucket("b").endpoint("");
    let e = b.build().err().unwrap();
    assert_eq!(e.kind, ErrorKind::ConfigInvalid);
    assert_eq!(e.service, "cos");
    assert_eq!(e.operation, "Builder::build");
}

#[test]
fn cos_build_rejects_invalid_endpoint() {
    let mut b = CosBuilder::<()>::new();
    b.bucket("b").endpoint("ht tp://bad host");
    assert_eq!(b.build().err().unwrap().kind, ErrorKind::ConfigInvalid);
    let mut b = CosBuilder::<()>::new();
    b.bucket("b").endpoint("/only/a/path");
    assert_eq!(b.build().err().unwrap().kind, ErrorKind::ConfigInvalid);
}

#[test]
fn cos_secrets_take_priority_over_env() {
    let mut b = CosBuilder::<()>::new();
    b.bucket("b").endpoint("https://cos.example.com").secret_id("id").secret_key("");
    let backend = b.build().unwrap();
    assert_eq!(backend.resolve_secret_id(Some("env-id".to_string())).unwrap(), "id");
    assert_eq!(backend.resolve_secret_key(Some("env-key".to_string())).unwrap(), "env-key");
    let mut b = CosBuilder::<()>::new();
    b.bucket("b").endpoint("https://cos.example.com").disable_config_load();
    let backend = b.build().unwrap();
    assert!(!backend.load_env);
    assert!(backend.resolve_secret_key(Some("env-key".to_string())).is_none());
}

#[test]
fn cos_http_client_moves_into_backend() {
    let mut b = CosBuilder::<u32>::new();
    b.bucket("b").endpoint("https://cos.example.com").http_client(7);
    assert_eq!(b.build().unwrap().client, Some(7));
}

#[test]
fn cos_info_declares_capability() {
    let mut b = CosBuilder::<()>::new();
    b.bucket("bk").endpoint("https://cos.example.com").root("data");
    let info = b.build().unwrap().info();
    assert_eq!(info.scheme, Scheme::Cos);
    assert_eq!(info.root, "/data/");
    assert_eq!(info.name, "bk");
    assert!(info.capability.write_can_multi);
    assert!(info.capability.write_can_append);
    assert_eq!(info.capability.write_multi_min_size, Some(1024 * 1024));
    assert_eq!(info.capability.write_multi_max_size, Some(5 * 1024 * 1024 * 1024));
    assert!(info.capability.presign);
}

#[test]
fn stat_root_is_dir_without_request() {
    let m = stat_root("/").unwrap();
    assert_eq!(m.mode, EntryMode::Dir);
    assert!(stat_root("a/").is_none());
    assert!(stat_root("").is_none());
}

#[test]
fn cos_stat_missing_container_is_dir() {
    let mut b = CosBuilder::<()>::new();
    b.bucket("b").endpoint("https://cos.example.com");
    let backend = b.build().unwrap();
    let m = backend.stat_response("dir/", 404, &empty_head()).unwrap();
    assert_eq!(m.mode, EntryMode::Dir);
    assert_eq!(backend.stat_response("file", 404, &empty_head()).err().unwrap().kind, ErrorKind::NotFound);
    let head = ResponseHead {
        content_length: Some("123".to_string()),
        content_type: Some("text/plain".to_string()),
        etag: Some("\"abc\"".to_string()),
        last_modified: None,
    };
    let m = backend.stat_response("file", 200, &head).unwrap();
    assert_eq!(m.mode, EntryMode::File);
    assert_eq!(m.content_length, Some(123));
    assert_eq!(m.content_type.as_deref(), Some("text/plain"));
    assert_eq!(backend.stat_response("file", 403, &empty_head()).err().unwrap().kind, ErrorKind::PermissionDenied);
}

#[test]
fn delete_of_absent_object_succeeds() {
    let mut b = CosBuilder::<()>::new();
    b.bucket("b").endpoint("https://cos.example.com");
    let cos = b.build().unwrap();
    assert!(cos.delete_response(404).is_ok());
    assert!(cos.delete_response(204).is_ok());
    assert!(cos.delete_response(202).is_ok());
    assert_eq!(cos.delete_response(500).err().unwrap().kind, ErrorKind::Unexpected);
    let mut g = GhacBuilder::<()>::new();
    let ghac = g.build(ghac_env()).unwrap();
    assert!(ghac.delete_precheck().is_ok());
    assert!(ghac.delete_response(404).is_ok());
    assert!(ghac.delete_response(200).is_ok());
    assert_eq!(ghac.delete_response(403).err().unwrap().kind, ErrorKind::PermissionDenied);
}

#[test]
fn cos_create_dir_and_copy_statuses() {
    let mut b = CosBuilder::<()>::new();
    b.bucket("b").endpoint("https://cos.example.com");
    let cos = b.build().unwrap();
    assert!(cos.create_dir_response(201).is_ok());
    assert!(cos.create_dir_response(200).is_ok());
    assert!(cos.create_dir_response(409).is_ok());
    assert_eq!(cos.create_dir_response(404).err().unwrap().kind, ErrorKind::NotFound);
    assert!(cos.copy_response(200).is_ok());
    let e = cos.copy_response(500).err().unwrap();
    assert_eq!(e.status, Some(500));
    assert_eq!(e.operation, "copy");
}

#[test]
fn cos_presign_and_list_use_wire_paths() {
    let mut b = CosBuilder::<()>::new();
    b.bucket("b").endpoint("https://cos.example.com").root("/base/");
    let cos = b.build().unwrap();
    let plan = cos.presign("a/b.txt", PresignOperation::Read, 3600);
    assert_eq!(plan.method, Method::Get);
    assert_eq!(plan.path, "base/a/b.txt");
    assert_eq!(plan.expire_secs, 3600);
    assert_eq!(cos.presign("x", PresignOperation::Write, 1).method, Method::Put);
    assert_eq!(cos.presign("x", PresignOperation::Stat, 1).method, Method::Head);
    let pager = cos.list("dir/", "/", Some(10));
    let req = pager.next_request().unwrap();
    assert_eq!(req.path, "base/dir/");
    assert_eq!(req.delimiter, "/");
    assert_eq!(req.max_keys, Some(10));
    assert!(req.token.is_none());
    assert_eq!(cos.object_path("/"), "base/");
}

#[test]
fn read_statuses() {
    assert_eq!(read_response("cos", 200, Some("10")).unwrap(), ReadOutcome { size: Some(10), has_body: true });
    assert_eq!(read_response("cos", 206, None).unwrap(), ReadOutcome { size: None, has_body: true });
    assert_eq!(read_response("cos", 416, None).unwrap(), ReadOutcome { size: None, has_body: false });
    assert_eq!(read_response("cos", 404, None).err().unwrap().kind, ErrorKind::NotFound);
    assert_eq!(read_response("cos", 200, Some("x1")).err().unwrap().kind, ErrorKind::Unexpected);
}

#[test]
fn ghac_build_needs_url_and_token() {
    let mut g = GhacBuilder::<()>::new();
    let e = g.build(no_env()).err().unwrap();
    assert_eq!(e.kind, ErrorKind::ConfigInvalid);
    assert_eq!(e.operation, "Builder::build");
    assert_eq!(e.message, "ACTIONS_CACHE_URL not found, maybe not in github action environment?");
    let mut g = GhacBuilder::<()>::new();
    g.endpoint("https://cache.example.com/");
    let e = g.build(no_env()).err().unwrap();
    assert_eq!(e.message, "ACTIONS_RUNTIME_TOKEN not found, maybe not in github action environment?");
    let mut g = GhacBuilder::<()>::new();
    g.endpoint("https://mine/").runtime_token("t").root("cache").version("v1");
    let backend = g.build(no_env()).unwrap();
    assert_eq!(backend.cache_url, "https://mine/");
    assert_eq!(backend.cache_token, "t");
    assert_eq!(backend.root, "/cache/");
    assert_eq!(backend.version, "v1");
    assert_eq!(backend.api_url, "https://api.github.com");
    assert_eq!(backend.api_token, "");
    assert_eq!(backend.repo, "");
}

#[test]
fn ghac_build_falls_back_to_env() {
    let mut g = GhacBuilder::<()>::new();
    let backend = g.build(ghac_env()).unwrap();
    assert_eq!(backend.cache_url, "https://cache.example.com/abc/");
    assert_eq!(backend.cache_token, "token");
    assert_eq!(backend.version, "opendal");
    assert_eq!(backend.repo, "owner/repo");
    let info = backend.info();
    assert_eq!(info.scheme, Scheme::Ghac);
    assert_eq!(info.name, "opendal");
    assert!(info.capability.read_with_range);
    assert!(!info.capability.read_with_suffix_range);
    assert!(!info.capability.presign);
}

#[test]
fn value_or_env_prefers_explicit() {
    assert_eq!(value_or_env(Some("a".to_string()), Some("b".to_string()), "X", "op").unwrap(), "a");
    assert_eq!(value_or_env(None, Some("b".to_string()), "X", "op").unwrap(), "b");
    assert_eq!(value_or_env(None, None, "X", "op").err().unwrap().kind, ErrorKind::ConfigInvalid);
}

#[test]
fn ghac_delete_needs_token() {
    let mut g = GhacBuilder::<()>::new();
    let mut env = ghac_env();
    env.api_token = None;
    let backend = g.build(env).unwrap();
    assert_eq!(backend.delete_precheck().err().unwrap().kind, ErrorKind::PermissionDenied);
}

#[test]
fn ghac_suffix_range_is_unsupported() {
    let mut g = GhacBuilder::<()>::new();
    let backend = g.build(ghac_env()).unwrap();
    let suffix = BytesRange::new(None, Some(100)).unwrap();
    assert_eq!(backend.ghac_get_location(suffix).err().unwrap().kind, ErrorKind::Unsupported);
    assert_eq!(backend.ghac_get_location(BytesRange::full()).unwrap(), None);
    let bounded = BytesRange::new(Some(10), Some(5)).unwrap();
    assert_eq!(backend.ghac_get_location(bounded).unwrap().unwrap(), "bytes=10-14");
    let empty_suffix = BytesRange { offset: None, size: Some(0) };
    assert_eq!(backend.ghac_get_location(empty_suffix).err().unwrap().kind, ErrorKind::Unsupported);
    let open = BytesRange::new(Some(10), None).unwrap();
    assert_eq!(backend.ghac_get_location(open).unwrap().unwrap(), "bytes=10-");
}

#[test]
fn ghac_create_dir_steps() {
    let mut g = GhacBuilder::<()>::new();
    g.root("/r/");
    let backend = g.build(ghac_env()).unwrap();
    assert!(matches!(backend.create_dir_start("a/"), CreateDirStep::Done));
    match backend.create_dir_start("a") {
        CreateDirStep::Reserve { key } => assert_eq!(key, "r/a"),
        other => panic!("unexpected step {:?}", other),
    }
    assert!(matches!(backend.create_dir_on_reserve(201, Some(5)).unwrap(), CreateDirStep::Upload { cache_id: 5 }));
    assert!(matches!(backend.create_dir_on_reserve(409, None).unwrap(), CreateDirStep::Done));
    assert_eq!(backend.create_dir_on_reserve(200, None).err().unwrap().kind, ErrorKind::Unexpected);
    assert_eq!(backend.create_dir_on_reserve(403, None).err().unwrap().kind, ErrorKind::PermissionDenied);
    assert!(matches!(backend.create_dir_on_upload(204, 5).unwrap(), CreateDirStep::Commit { cache_id: 5 }));
    assert_eq!(backend.create_dir_on_upload(500, 5).err().unwrap().operation, "Backend::ghac_upload");
    let (up, body) = backend.create_dir_upload(5);
    assert_eq!((up.cache_id, up.content_length, up.content_range.as_str()), (5, 1, "bytes 0-0/*"));
    assert_eq!(body, vec![0u8]);
    let c = backend.create_dir_commit(5);
    assert_eq!((c.cache_id, c.size), (5, 1));
    assert!(backend.create_dir_on_commit(200).is_ok());
    assert_eq!(backend.create_dir_on_commit(404).err().unwrap().kind, ErrorKind::NotFound);
}

#[test]
fn ghac_read_and_stat_steps() {
    let mut g = GhacBuilder::<()>::new();
    let backend = g.build(ghac_env()).unwrap();
    assert_eq!(backend.read_on_query(200, Some("https://loc".to_string())).unwrap(), "https://loc");
    let miss = backend.read_on_query(204, None).err().unwrap();
    assert_eq!(miss.kind, ErrorKind::NotFound);
    assert_eq!(miss.service, "ghac");
    assert_eq!(miss.operation, "read");
    assert_eq!(backend.read_on_query(200, None).err().unwrap().kind, ErrorKind::Unexpected);
    assert_eq!(backend.read_on_query(404, None).err().unwrap().kind, ErrorKind::NotFound);
    match backend.stat_on_query("d/", 204, None).unwrap() {
        StatNext::Dir(m) => assert_eq!(m.mode, EntryMode::Dir),
        StatNext::Head(_) => panic!("expected a directory"),
    }
    match backend.stat_on_query("f", 200, Some("https://loc".to_string())).unwrap() {
        StatNext::Head(l) => assert_eq!(l, "https://loc"),
        StatNext::Dir(_) => panic!("expected a head request"),
    }
    assert_eq!(backend.stat_on_query("f", 204, None).err().unwrap().kind, ErrorKind::NotFound);
    let head = ResponseHead { content_length: Some("5".to_string()), content_type: None, etag: None, last_modified: None };
    assert_eq!(backend.stat_on_head("f", 200, &head).unwrap().content_length, Some(5));
    assert_eq!(backend.stat_on_head("f", 404, &head).err().unwrap().kind, ErrorKind::NotFound);
    let w = backend.write_on_reserve("a/b", 201, Some(9)).unwrap();
    assert_eq!(w.cache_id, 9);
    assert_eq!(w.key, "a/b");
    let e = backend.write_on_reserve("a/b", 500, Some(9)).err().unwrap();
    assert_eq!(e.kind, ErrorKind::Unexpected);
    assert_eq!(e.operation, "Backend::ghac_reserve");
}

#[test]
fn builders_from_settings() {
    let pairs = vec![
        ("root".to_string(), "/a".to_string()),
        ("bucket".to_string(), "bk".to_string()),
        ("endpoint".to_string(), "https://cos.example.com//".to_string()),
        ("secret_id".to_string(), "".to_string()),
        ("other".to_string(), "x".to_string()),
    ];
    let mut b = CosBuilder::<()>::from_map(pairs);
    let backend = b.build().unwrap();
    assert_eq!(backend.root, "/a/");
    assert_eq!(backend.endpoint, "https://bk.cos.example.com");
    assert!(backend.secret_id.is_none());
    let pairs = vec![("version".to_string(), "v2".to_string()), ("root".to_string(), "r".to_string())];
    let mut g = GhacBuilder::<()>::from_map(pairs);
    let backend = g.build(ghac_env()).unwrap();
    assert_eq!(backend.version, "v2");
    assert_eq!(backend.root, "/r/");
    let mut d = GhacBuilder::<()>::default();
    assert!(d.build(no_env()).is_err());
}
