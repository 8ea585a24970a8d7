use storage_access::cos::{CosBuilder, COS_MULTI_MIN_SIZE};
use storage_access::accessor::{OpWrite, Writer};
use storage_access::error::{Error, ErrorKind};
use storage_access::ghac::{GhacBuilder, GhacEnv, GhacWriter};
use storage_access::writer::{AppendPhase, AppendWriter, MultipartWriter, Phase};

const MIB: usize = 1024 * 1024;

#[test]
fn multipart_scenario_three_parts() {
    let mut w = MultipartWriter::new(Some(1024 * 1024), None);
    let sizes = [MIB, MIB, MIB / 2];
    let expected = ["bytes 0-1048575/*", "bytes 1048576-2097151/*", "bytes 2097152-2621439/*"];
    for (i, size) in sizes.iter().enumerate() {
        let part = w.write(vec![7u8; *size]).unwrap().unwrap();
        assert_eq!(part.index, i as u64);
        assert_eq!(part.content_range(), expected[i]);
        w.on_part(Ok(())).unwrap();
    }
    let commit = w.finish().unwrap();
    assert_eq!(commit.size, 2 * 1024 * 1024 + 512 * 1024);
    assert_eq!(commit.parts, 3);
    assert_eq!(w.phase(), Phase::Committing);
    w.on_commit(Ok(())).unwrap();
    assert_eq!(w.phase(), Phase::Done);
}

#[test]
fn ghac_writer_requests() {
    let mut w = GhacWriter::new("k".to_string(), 42);
    let part = w.inner.write(vec![1u8; 10]).unwrap().unwrap();
    let req = w.upload_request(&part);
    assert_eq!(req.cache_id, 42);
    assert_eq!(req.content_length, 10);
    assert_eq!(req.content_range, "bytes 0-9/*");
    w.inner.on_part(Ok(())).unwrap();
    let part = w.inner.write(vec![2u8; 5]).unwrap().unwrap();
    assert_eq!(w.upload_request(&part).content_range, "bytes 10-14/*");
    w.inner.on_part(Ok(())).unwrap();
    let commit = w.inner.finish().unwrap();
    let req = w.commit_request(commit);
    assert_eq!(req.cache_id, 42);
    assert_eq!(req.size, 15);
}

#[test]
fn ghac_upload_and_commit() {
    let env = GhacEnv {
        cache_url: Some("https://cache/".to_string()),
        runtime_token: Some("t".to_string()),
        api_url: None,
        api_token: None,
        repo: None,
    };
    let backend = GhacBuilder::<()>::new().build(env).unwrap();
    let up = backend.ghac_upload(7, 0, 1);
    assert_eq!(up.cache_id, 7);
    assert_eq!(up.content_range, "bytes 0-0/*");
    assert_eq!(up.content_length, 1);
    assert_eq!(backend.ghac_upload(7, 1048576, 524288).content_range, "bytes 1048576-1572863/*");
    assert_eq!(backend.ghac_commit(7, 1).size, 1);
}

#[test]
fn multipart_failed_part_is_surfaced_and_not_committed() {
    let mut w = MultipartWriter::new(Some(4), None);
    w.write(vec![0u8; 4]).unwrap().unwrap();
    w.on_part(Ok(())).unwrap();
    w.write(vec![0u8; 4]).unwrap().unwrap();
    let err = w.on_part(Err(Error::new(ErrorKind::PermissionDenied, "denied"))).unwrap_err();
    assert_eq!(err.kind, ErrorKind::PermissionDenied);
    assert_eq!(err.message, "denied");
    assert_eq!(w.phase(), Phase::Failed);
    let finish = w.finish().unwrap_err();
    assert_eq!(finish.kind, ErrorKind::Unexpected);
    assert_eq!(w.phase(), Phase::Failed);
    assert_eq!(w.written(), 4);
}

#[test]
fn multipart_commit_is_sum_of_parts() {
    let mut w = MultipartWriter::new(Some(3), Some(10));
    let mut total = 0u64;
    for size in [3usize, 10, 7, 5, 1] {
        w.write(vec![9u8; size]).unwrap().unwrap();
        w.on_part(Ok(())).unwrap();
        total += size as u64;
    }
    assert_eq!(w.finish().unwrap().size, total);
}

#[test]
fn multipart_part_ranges_cover_the_bytes() {
    let data: Vec<u8> = (0..=255u8).collect();
    let mut w = MultipartWriter::new(Some(100), None);
    let mut rebuilt = vec![0u8; data.len()];
    for chunk in data.chunks(100) {
        let part = w.write(chunk.to_vec()).unwrap().unwrap();
        let start = part.offset as usize;
        rebuilt[start..start + part.body.len()].copy_from_slice(&part.body);
        w.on_part(Ok(())).unwrap();
    }
    assert_eq!(w.finish().unwrap().size, data.len() as u64);
    assert_eq!(rebuilt, data);
}

#[test]
fn multipart_rejects_part_after_short_part() {
    let mut w = MultipartWriter::new(Some(8), None);
    w.write(vec![0u8; 3]).unwrap().unwrap();
    w.on_part(Ok(())).unwrap();
    let err = w.write(vec![0u8; 8]).err().unwrap();
    assert_eq!(err.kind, ErrorKind::Unsupported);
    assert_eq!(w.finish().unwrap().size, 3);
}

#[test]
fn multipart_rejects_oversized_part() {
    let mut w = MultipartWriter::new(None, Some(4));
    assert_eq!(w.write(vec![0u8; 5]).err().unwrap().kind, ErrorKind::Unsupported);
    assert_eq!(w.phase(), Phase::Open);
}

#[test]
fn multipart_busy_writer_rejects_calls() {
    let mut w = MultipartWriter::new(None, None);
    w.write(vec![1u8]).unwrap().unwrap();
    assert_eq!(w.write(vec![1u8]).err().unwrap().kind, ErrorKind::Unexpected);
    assert_eq!(w.finish().unwrap_err().kind, ErrorKind::Unexpected);
}

#[test]
fn multipart_empty_chunk_is_skipped() {
    let mut w = MultipartWriter::new(Some(5), None);
    assert!(w.write(Vec::new()).unwrap().is_none());
    let commit = w.finish().unwrap();
    assert_eq!(commit.size, 0);
    assert_eq!(commit.parts, 0);
}

#[test]
fn append_empty_write_makes_empty_object() {
    let mut w = AppendWriter::new();
    assert!(w.write(Vec::new()).unwrap().is_none());
    let req = w.finish().unwrap().unwrap();
    assert_eq!(req.position, 0);
    assert!(req.body.is_empty());
    assert_eq!(w.phase(), AppendPhase::Closing);
    w.on_append(Ok(())).unwrap();
    assert_eq!(w.phase(), AppendPhase::Done);
    assert_eq!(w.position(), 0);
}

#[test]
fn append_extends_in_order() {
    let mut w = AppendWriter::new();
    let a = w.write(b"hello".to_vec()).unwrap().unwrap();
    assert_eq!(a.position, 0);
    w.on_append(Ok(())).unwrap();
    let b = w.write(b" world".to_vec()).unwrap().unwrap();
    assert_eq!(b.position, 5);
    w.on_append(Ok(())).unwrap();
    assert_eq!(w.position(), 11);
    assert!(w.finish().unwrap().is_none());
    assert_eq!(w.phase(), AppendPhase::Done);
}

#[test]
fn append_failure_is_surfaced() {
    let mut w = AppendWriter::new();
    w.write(vec![1u8, 2]).unwrap().unwrap();
    let err = w.on_append(Err(Error::new(ErrorKind::NotFound, "gone"))).unwrap_err();
    assert_eq!(err.kind, ErrorKind::NotFound);
    assert_eq!(w.phase(), AppendPhase::Failed);
    assert_eq!(w.finish().unwrap_err().kind, ErrorKind::Unexpected);
}

#[test]
fn cos_write_picks_strategy() {
    let mut b = CosBuilder::<()>::new();
    b.bucket("b").endpoint("https://cos.example.com");
    let backend = b.build().unwrap();
    let bound = backend.write("dir/obj", OpWrite { append: true });
    assert_eq!(bound.path, "dir/obj");
    assert_eq!(bound.args, OpWrite { append: true });
    match bound.writer {
        Writer::Append(w) => assert_eq!(w.phase(), AppendPhase::Open),
        Writer::Multipart(_) => panic!("expected an append writer"),
    }
    match backend.write("obj", OpWrite { append: false }).writer {
        Writer::Multipart(mut w) => {
            let err = w.write(vec![0u8; 10]).unwrap().unwrap();
            assert_eq!(err.offset, 0);
            w.on_part(Ok(())).unwrap();
            assert_eq!(w.write(vec![0u8; 10]).err().unwrap().kind, ErrorKind::Unsupported);
        }
        Writer::Append(_) => panic!("expected a multipart writer"),
    }
    assert_eq!(COS_MULTI_MIN_SIZE, 1024 * 1024);
}
