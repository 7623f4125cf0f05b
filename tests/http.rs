use bstore::collector::Collector;
use bstore::domain::{DeleteResult, File};
use bstore::file_reply::FileReply;
use bstore::fingerprint::blob_size;
use bstore::http::{
    collection_outcome_status, collection_status, delete_outcome_status, delete_status,
    inserted_id, lookup_status, BODY_LIMIT, INTERNAL_SERVER_ERROR, NOT_FOUND, OK,
};
use bstore::protocol::{DbError, ErrorKind};
use bstore::reader_stream::{ReaderStream, BUFFER_SIZE};

fn reply_for(path: &str) -> FileReply {
    let file = File {
        id: 1,
        path: path.to_owned(),
        bucket: String::new(),
        blake3_hash: String::new(),
        size: 1,
    };
    FileReply::new(Vec::new(), file)
}

fn not_found() -> DbError {
    DbError { kind: ErrorKind::NotFound, message: "Query returned no rows".to_string() }
}

#[test]
fn name_from_path_empty() {
    assert_eq!(reply_for("").name_from_path(), "");
}

#[test]
fn name_from_path_file() {
    assert_eq!(reply_for("file.ext").name_from_path(), "file.ext");
}

#[test]
fn name_from_path_in_dir() {
    assert_eq!(reply_for("dir/file.ext").name_from_path(), "file.ext");
    assert_eq!(reply_for("dir1/dir2/file.ext").name_from_path(), "file.ext");
}

#[test]
fn name_from_path_backslashed() {
    assert_eq!(reply_for("dir\\file.ext").name_from_path(), "file.ext");
    assert_eq!(reply_for("dir1\\dir2\\file.ext").name_from_path(), "file.ext");
}

#[test]
fn name_from_path_mixed_separators() {
    assert_eq!(reply_for("a\\b/c").name_from_path(), "c");
    assert_eq!(reply_for("a/b\\c").name_from_path(), "c");
    assert_eq!(reply_for("dir/").name_from_path(), "");
}

#[test]
fn download_headers() {
    let file = File {
        id: 7,
        path: "d1/f1".to_string(),
        bucket: "B".to_string(),
        blake3_hash: String::new(),
        size: 2,
    };
    let reply = FileReply::new(b"f1".to_vec(), file);
    assert_eq!(reply.content_disposition(), "attachment; filename=\"f1\"");
    assert_eq!(reply.content_length(), 2);
    assert_eq!(reply.into_data(), b"f1".to_vec());
}

#[test]
fn unknown_file_is_not_found() {
    let r: Result<File, DbError> = Err(not_found());
    assert_eq!(lookup_status(&r), NOT_FOUND);
    let ok: Result<i64, DbError> = Ok(30000);
    assert_eq!(lookup_status(&ok), OK);
}

fn engine_failure() -> DbError {
    DbError { kind: ErrorKind::Other, message: "disk I/O error".to_string() }
}

#[test]
fn engine_failures_are_server_errors() {
    let r: Result<File, DbError> = Err(engine_failure());
    assert_eq!(lookup_status(&r), INTERNAL_SERVER_ERROR);
    let d: Result<DeleteResult, DbError> = Err(engine_failure());
    assert_eq!(delete_outcome_status(&d), INTERNAL_SERVER_ERROR);
    let c: Result<Vec<File>, DbError> = Err(engine_failure());
    assert_eq!(collection_outcome_status(&c), INTERNAL_SERVER_ERROR);
}

#[test]
fn statuses_of_collections_and_deletes() {
    let empty: Result<Vec<File>, DbError> = Ok(Vec::new());
    assert_eq!(collection_outcome_status(&empty), NOT_FOUND);
    let gone: Result<DeleteResult, DbError> = Err(not_found());
    assert_eq!(delete_outcome_status(&gone), NOT_FOUND);
    assert_eq!(collection_status(0), NOT_FOUND);
    assert_eq!(collection_status(4), OK);
    assert_eq!(delete_status(&DeleteResult { files: 0, blobs: 0 }), NOT_FOUND);
    assert_eq!(delete_status(&DeleteResult { files: 4, blobs: 0 }), OK);
}

#[test]
fn failed_insert_contributes_no_id() {
    assert_eq!(inserted_id(&Ok(5)), Some(5));
    assert_eq!(inserted_id(&Err(not_found())), None);
}

#[test]
fn blob_size_limit() {
    assert_eq!(blob_size(0), Some(0));
    assert_eq!(blob_size(2), Some(2));
    assert_eq!(blob_size(2147483647), Some(i32::MAX));
    assert_eq!(blob_size(2147483648), None);
}

#[test]
fn collector_gathers_chunks() {
    let mut c = Collector::new();
    assert!(c.push(b"ab"));
    assert!(c.push(b""));
    assert!(c.push(b"cde"));
    assert_eq!(c.len(), 5);
    let (bytes, n) = c.finish();
    assert_eq!(bytes, b"abcde".to_vec());
    assert_eq!(n, 5);
}

#[test]
fn collector_refuses_beyond_limit() {
    let mut c = Collector::new();
    let big = vec![0u8; 1024];
    assert!(c.push(&big));
    assert_eq!(BODY_LIMIT, 2 * 1024 * 1024 * 1024);
    assert_eq!(c.len(), 1024);
}

#[test]
fn reader_stream_chunks() {
    let data: Vec<u8> = (0..20000u32).map(|i| (i % 251) as u8).collect();
    let mut s = ReaderStream::new(data.clone());
    let mut sizes = Vec::new();
    let mut all = Vec::new();
    while let Some(chunk) = s.next_chunk() {
        sizes.push(chunk.len());
        all.extend_from_slice(&chunk);
    }
    assert_eq!(sizes, vec![BUFFER_SIZE, BUFFER_SIZE, 20000 - 2 * BUFFER_SIZE]);
    assert_eq!(all, data);
}

#[test]
fn reader_stream_empty() {
    let mut s = ReaderStream::new(Vec::new());
    assert!(s.next_chunk().is_none());
}
