use std::collections::HashMap;

use file_transfer::download::{plan_download, Transport};
use file_transfer::upload::{
    is_chunk_upload, is_temp_file_name, multipart_boundary, part_target, ChunkRequest, UploadError,
    UploadResponse,
};

/// Carries out one chunk request on an in-memory directory, the way the server
/// does on disk.
fn apply_chunk(dir: &mut HashMap<String, Vec<u8>>, c: &ChunkRequest, body: &[u8]) {
    let mut file = if c.creates_temp() {
        vec![0u8; c.total_size as usize]
    } else {
        dir.get(&c.temp_name).expect("temp file exists").clone()
    };
    let start = c.chunk_start as usize;
    if file.len() < start + body.len() {
        file.resize(start + body.len(), 0);
    }
    file[start..start + body.len()].copy_from_slice(body);
    if c.finalizes() {
        dir.remove(&c.temp_name);
        dir.insert(c.filename.clone(), file);
    } else {
        dir.insert(c.temp_name.clone(), file);
    }
}

fn chunk(id: &str, name: &[u8], index: u64, total: u64, size: u64, start: u64) -> ChunkRequest {
    let index = index.to_string();
    let total = total.to_string();
    let size = size.to_string();
    let start = start.to_string();
    ChunkRequest::from_headers(
        Some(id),
        Some(name),
        Some(index.as_bytes()),
        Some(total.as_bytes()),
        Some(size.as_bytes()),
        Some(start.as_bytes()),
    )
    .ok()
    .expect("valid chunk headers")
}

#[test]
fn two_chunks_then_download() {
    let mut dir = HashMap::new();
    let first = chunk("abc", b"data.bin", 0, 2, 10, 0);
    let second = chunk("abc", b"data.bin", 1, 2, 10, 5);
    assert_eq!(first.temp_name, ".abc.tmp");
    assert_eq!(first.filename, "data.bin");
    apply_chunk(&mut dir, &first, b"01234");
    assert_eq!(dir.get(".abc.tmp").map(|f| f.len()), Some(10));
    apply_chunk(&mut dir, &second, b"56789");
    assert!(!dir.contains_key(".abc.tmp"));
    let stored = dir.get("data.bin").unwrap().clone();
    assert_eq!(stored, b"0123456789".to_vec());
    let plan = plan_download(None, None, stored.len() as u64);
    assert_eq!(plan.status, 200);
    assert_eq!(plan.content_length, Some(10));
    assert_eq!(plan.transport, Transport::Mapped);
}

#[test]
fn three_chunks_assemble_in_order() {
    let mut dir = HashMap::new();
    dir.insert("report.txt".to_string(), b"old".to_vec());
    let payloads: [&[u8]; 3] = [b"aa", b"bbbb", b"c"];
    let mut start = 0u64;
    for (i, body) in payloads.iter().enumerate() {
        let c = chunk("f1", b"report.txt", i as u64, 3, 7, start);
        apply_chunk(&mut dir, &c, body);
        start += body.len() as u64;
    }
    assert_eq!(dir.get("report.txt").unwrap(), &b"aabbbbc".to_vec());
    assert!(!dir.contains_key(".f1.tmp"));
}

#[test]
fn chunk_messages() {
    let c = chunk("abc", b"data.bin", 0, 2, 10, 0);
    let r = c.response(5);
    assert!(r.success);
    assert_eq!(r.message, "分块 1/2 上传成功");
    assert_eq!(r.filename.as_deref(), Some("data.bin"));
    assert_eq!(r.size, Some(5));
    let last = chunk("abc", b"data.bin", 1, 2, 10, 5);
    assert_eq!(last.response(5).message, "文件上传完成");
}

#[test]
fn chunk_header_defaults_and_names() {
    let c = ChunkRequest::from_headers(None, None, None, None, None, None).ok().unwrap();
    assert_eq!(c.file_id, "unknown");
    assert_eq!(c.filename, "file_unknown");
    assert_eq!(c.temp_name, ".unknown.tmp");
    assert_eq!((c.chunk_index, c.total_chunks, c.total_size, c.chunk_start), (0, 1, 0, 0));
    assert!(c.finalizes());
    let d = ChunkRequest::from_headers(
        Some("../x"),
        Some(b"%E6%8A%A5%E5%91%8A%2F..%2Fa.txt"),
        Some(b"oops"),
        None,
        None,
        None,
    )
    .ok()
    .unwrap();
    assert_eq!(d.filename, "报告..a.txt");
    assert_eq!(d.temp_name, "...x.tmp");
    assert_eq!(d.chunk_index, 0);
}

#[test]
fn chunk_header_errors() {
    let zero = ChunkRequest::from_headers(Some("a"), Some(b"f"), Some(b"0"), Some(b"0"), None, None);
    assert_eq!(zero.err().map(|e| e), Some(UploadError::BadChunkHeader));
    let past = ChunkRequest::from_headers(Some("a"), Some(b"f"), Some(b"2"), Some(b"2"), None, None);
    assert_eq!(past.err(), Some(UploadError::BadChunkHeader));
    let dots = ChunkRequest::from_headers(Some("a"), Some(b".."), None, None, None, None);
    assert_eq!(dots.err(), Some(UploadError::EmptyFilename));
    let clash = ChunkRequest::from_headers(Some("a"), Some(b".a.tmp"), None, None, None, None);
    assert_eq!(clash.err(), Some(UploadError::NameClash));
    assert_eq!(UploadError::NameClash.status(), 400);
}

#[test]
fn multipart_boundaries() {
    assert_eq!(
        multipart_boundary(Some("multipart/form-data; boundary=------------------------test_boundary")),
        Ok("------------------------test_boundary".to_string())
    );
    assert_eq!(multipart_boundary(None), Err(UploadError::MissingContentType));
    assert_eq!(multipart_boundary(Some("text/plain")), Err(UploadError::BadBoundary));
    assert_eq!(multipart_boundary(Some("multipart/form-data")), Err(UploadError::BadBoundary));
}

#[test]
fn part_file_names() {
    assert_eq!(part_target(None), Ok(None));
    assert_eq!(part_target(Some("test_file.txt")), Ok(Some("test_file.txt".to_string())));
    assert_eq!(part_target(Some("../../etc/passwd")), Ok(Some("....etcpasswd".to_string())));
    assert_eq!(part_target(Some("a:b*c?.txt")), Ok(Some("abc.txt".to_string())));
    assert_eq!(part_target(Some("..")), Err(UploadError::EmptyFilename));
    let saved = UploadResponse::saved("test_file.txt".to_string(), 35);
    assert!(saved.success);
    assert_eq!(saved.message, "上传成功");
    assert_eq!(saved.filename.as_deref(), Some("test_file.txt"));
    assert_eq!(saved.size, Some(35));
}

#[test]
fn chunk_marker_and_temp_sweep() {
    assert!(is_chunk_upload(Some("true")));
    assert!(!is_chunk_upload(Some("True")));
    assert!(!is_chunk_upload(None));
    assert!(is_temp_file_name(".abc.tmp"));
    assert!(is_temp_file_name("..tmp"));
    assert!(!is_temp_file_name("abc.tmp"));
    assert!(!is_temp_file_name(".abc.tmpx"));
    assert!(!is_temp_file_name(".tm"));
}
