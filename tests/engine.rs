use std::collections::BTreeMap;
use std::io::Write;

use bstore::archive::extract_entries;
use bstore::domain::DeleteResult;
use bstore::http::{created_ids, delete_outcome_status, NOT_FOUND, OK};
use bstore::protocol::{
    should_retry, DbError, DeleteStage, DeleteTarget, DeleteTx, ErrorKind, InsertStage, InsertTx,
};

/// A database held in memory that answers the statements the way the
/// embedded engine does, with a working copy per transaction.
#[derive(Clone, Default)]
struct MemDb {
    blobs: BTreeMap<String, Vec<u8>>,
    files: BTreeMap<i64, (String, String, String)>,
    last_id: i64,
    busy_left: usize,
    blobs_created: usize,
}

impl MemDb {
    fn busy(&mut self) -> Option<DbError> {
        if self.busy_left > 0 {
            self.busy_left -= 1;
            Some(DbError { kind: ErrorKind::Busy, message: "database is locked".to_string() })
        } else {
            None
        }
    }

    fn sweep(&mut self) -> usize {
        let before = self.blobs.len();
        let files = self.files.clone();
        self.blobs.retain(|h, _| files.values().any(|f| &f.0 == h));
        before - self.blobs.len()
    }

    fn bucket_len(&self, bucket: &str) -> usize {
        self.files.values().filter(|f| f.2 == bucket).count()
    }

    fn data_of(&self, id: i64) -> Option<Vec<u8>> {
        let f = self.files.get(&id)?;
        self.blobs.get(&f.0).cloned()
    }
}

fn insert(db: &mut MemDb, path: &str, bucket: &str, data: &[u8]) -> Result<i64, DbError> {
    let mut tx = InsertTx::new(path.to_string(), bucket.to_string(), data.to_vec()).unwrap();
    let mut work = db.clone();
    while !tx.is_finished() {
        if let Some(e) = db.busy() {
            match tx.stage() {
                InsertStage::Begin => tx.begun(Err(e)),
                InsertStage::FindBlob => tx.blob_found(Err(e)),
                InsertStage::AddBlob => tx.blob_added(Err(e)),
                InsertStage::AddFile => tx.file_added(Err(e)),
                InsertStage::ReadLastId => tx.last_id_read(Err(e)),
                InsertStage::Commit(_) => tx.committed(Err(e)),
                InsertStage::Done(_) | InsertStage::Failed(_) => unreachable!(),
            }
            continue;
        }
        match tx.stage() {
            InsertStage::Begin => {
                work = db.clone();
                tx.begun(Ok(()));
            }
            InsertStage::FindBlob => {
                let found = work.blobs.contains_key(tx.hash());
                tx.blob_found(Ok(found));
            }
            InsertStage::AddBlob => {
                assert_eq!(tx.size() as usize, tx.data().len());
                work.blobs.insert(tx.hash().to_string(), tx.data().to_vec());
                work.blobs_created += 1;
                tx.blob_added(Ok(()));
            }
            InsertStage::AddFile => {
                let taken = work.files.values().any(|f| f.1 == tx.path() && f.2 == tx.bucket());
                if taken {
                    let e = DbError {
                        kind: ErrorKind::Constraint,
                        message: "UNIQUE constraint failed: file.path, file.bucket".to_string(),
                    };
                    tx.file_added(Err(e));
                } else {
                    work.last_id += 1;
                    let row = (tx.hash().to_string(), tx.path().to_string(), tx.bucket().to_string());
                    work.files.insert(work.last_id, row);
                    tx.file_added(Ok(()));
                }
            }
            InsertStage::ReadLastId => {
                let id = *work.files.keys().max().unwrap();
                tx.last_id_read(Ok(id));
            }
            InsertStage::Commit(_) => {
                work.busy_left = db.busy_left;
                *db = work.clone();
                tx.committed(Ok(()));
            }
            InsertStage::Done(_) | InsertStage::Failed(_) => unreachable!(),
        }
    }
    tx.into_result()
}

fn delete(db: &mut MemDb, target: DeleteTarget) -> Result<DeleteResult, DbError> {
    let mut tx = DeleteTx::new(target);
    let mut work = db.clone();
    while !tx.is_finished() {
        if let Some(e) = db.busy() {
            match tx.stage() {
                DeleteStage::Begin => tx.begun(Err(e)),
                DeleteStage::DeleteRows => tx.rows_deleted(Err(e)),
                DeleteStage::Sweep(_) => tx.swept(Err(e)),
                DeleteStage::Commit(_) => tx.committed(Err(e)),
                DeleteStage::Done(_) | DeleteStage::Failed(_) => unreachable!(),
            }
            continue;
        }
        match tx.stage() {
            DeleteStage::Begin => {
                work = db.clone();
                tx.begun(Ok(()));
            }
            DeleteStage::DeleteRows => {
                let before = work.files.len();
                match tx.target() {
                    DeleteTarget::File(id) => {
                        work.files.remove(id);
                    }
                    DeleteTarget::Bucket(b) => work.files.retain(|_, f| &f.2 != b),
                }
                tx.rows_deleted(Ok(before - work.files.len()));
            }
            DeleteStage::Sweep(_) => {
                let n = work.sweep();
                tx.swept(Ok(n));
            }
            DeleteStage::Commit(_) => {
                work.busy_left = db.busy_left;
                *db = work.clone();
                tx.committed(Ok(()));
            }
            DeleteStage::Done(_) | DeleteStage::Failed(_) => unreachable!(),
        }
    }
    tx.into_result()
}

fn four_files(db: &mut MemDb, bucket: &str) -> Vec<Result<i64, DbError>> {
    ["f1", "f2", "f3", "f4"]
        .iter()
        .map(|c| insert(db, &format!("{c}.txt"), bucket, c.as_bytes()))
        .collect()
}

fn zip_of_four() -> Vec<u8> {
    let mut w = zip::ZipWriter::new(std::io::Cursor::new(Vec::new()));
    for c in ["f1", "f2", "f3", "f4"] {
        let opts = zip::write::SimpleFileOptions::default();
        w.start_file(format!("{c}.txt"), opts).unwrap();
        w.write_all(c.as_bytes()).unwrap();
    }
    w.finish().unwrap().into_inner()
}

#[test]
fn four_files_make_four_blobs() {
    let mut db = MemDb::default();
    let ids = created_ids(&four_files(&mut db, "B1"));
    assert_eq!(ids, vec![1, 2, 3, 4]);
    assert_eq!(db.bucket_len("B1"), 4);
    assert_eq!(db.blobs.len(), 4);
    for id in ids {
        assert_eq!(db.data_of(id).unwrap().len(), 2);
    }
}

#[test]
fn zip_after_form_shares_blobs() {
    let mut db = MemDb::default();
    four_files(&mut db, "B1");
    let entries = extract_entries(zip_of_four()).unwrap();
    assert_eq!(entries.len(), 4);
    let results: Vec<_> = entries.iter().map(|(p, d)| insert(&mut db, p, "B2", d)).collect();
    assert_eq!(created_ids(&results).len(), 4);
    assert_eq!(db.bucket_len("B2"), 4);
    assert_eq!(db.blobs.len(), 4);
    assert_eq!(db.blobs_created, 4);
}

#[test]
fn zip_entries_keep_names_and_bytes() {
    let entries = extract_entries(zip_of_four()).unwrap();
    let names: Vec<&str> = entries.iter().map(|(p, _)| p.as_str()).collect();
    assert_eq!(names, vec!["f1.txt", "f2.txt", "f3.txt", "f4.txt"]);
    assert_eq!(entries[2].1, b"f3".to_vec());
}

#[test]
fn not_a_zip_is_refused() {
    assert!(extract_entries(b"not an archive".to_vec()).is_err());
}

#[test]
fn delete_bucket_removes_its_blobs() {
    let mut db = MemDb::default();
    four_files(&mut db, "B1");
    let result = delete(&mut db, DeleteTarget::Bucket("B1".to_string()));
    assert_eq!(delete_outcome_status(&result), OK);
    assert_eq!(result.unwrap(), DeleteResult { files: 4, blobs: 4 });
    assert!(db.files.is_empty() && db.blobs.is_empty());
}

#[test]
fn delete_bucket_keeps_shared_blobs() {
    let mut db = MemDb::default();
    four_files(&mut db, "B1");
    four_files(&mut db, "B2");
    let r = delete(&mut db, DeleteTarget::Bucket("B1".to_string())).unwrap();
    assert_eq!(r, DeleteResult { files: 4, blobs: 0 });
    assert_eq!(db.blobs.len(), 4);
    assert_eq!(db.bucket_len("B2"), 4);
}

#[test]
fn delete_empty_bucket_is_not_found() {
    let mut db = MemDb::default();
    four_files(&mut db, "B1");
    let result = delete(&mut db, DeleteTarget::Bucket("none".to_string()));
    assert_eq!(delete_outcome_status(&result), NOT_FOUND);
    assert_eq!(result.unwrap(), DeleteResult { files: 0, blobs: 0 });
    assert_eq!(db.files.len(), 4);
}

#[test]
fn delete_unknown_file_is_not_found() {
    let mut db = MemDb::default();
    four_files(&mut db, "B1");
    let result = delete(&mut db, DeleteTarget::File(1111111));
    assert_eq!(delete_outcome_status(&result), NOT_FOUND);
    assert_eq!(result.unwrap(), DeleteResult { files: 0, blobs: 0 });
}

#[test]
fn empty_file_round_trip() {
    let mut db = MemDb::default();
    let tx = InsertTx::new("empty.txt".to_string(), "B".to_string(), Vec::new()).unwrap();
    assert_eq!(tx.hash(), "af1349b9f5f9a1a6a0404dea36dcc9499bcb25c9adc112b7cc9a93cae41f3262");
    assert_eq!(tx.size(), 0);
    let ids = created_ids(&vec![insert(&mut db, "empty.txt", "B", b"")]);
    assert_eq!(ids.len(), 1);
    assert_eq!(db.data_of(ids[0]).unwrap(), Vec::<u8>::new());
}

#[test]
fn fingerprint_depends_on_content() {
    let a = InsertTx::new("a".to_string(), "B".to_string(), b"f1".to_vec()).unwrap();
    let b = InsertTx::new("b".to_string(), "C".to_string(), b"f1".to_vec()).unwrap();
    let c = InsertTx::new("a".to_string(), "B".to_string(), b"f2".to_vec()).unwrap();
    assert_eq!(a.hash(), b.hash());
    assert_ne!(a.hash(), c.hash());
    assert_eq!(a.hash().len(), 64);
    assert!(a.hash().chars().all(|ch| ch.is_ascii_digit() || ('a'..='f').contains(&ch)));
}

#[test]
fn insert_then_read_yields_bytes() {
    let mut db = MemDb::default();
    let id = insert(&mut db, "d1/f1", "B", b"hello").unwrap();
    assert_eq!(db.data_of(id).unwrap(), b"hello".to_vec());
}

#[test]
fn duplicate_path_is_refused_and_batch_goes_on() {
    let mut db = MemDb::default();
    let first = insert(&mut db, "x", "B", b"1");
    let second = insert(&mut db, "x", "B", b"2");
    let third = insert(&mut db, "y", "B", b"2");
    match &second {
        Err(e) => assert_eq!(e.kind, ErrorKind::Constraint),
        Ok(_) => panic!("a path occurs once in a bucket"),
    }
    assert_eq!(created_ids(&vec![first, second, third]), vec![1, 2]);
    assert_eq!(db.files.len(), 2);
    assert_eq!(db.blobs.len(), 2);
}

#[test]
fn reinsert_after_delete_gets_new_id() {
    let mut db = MemDb::default();
    let first = insert(&mut db, "p", "B", b"X").unwrap();
    assert_eq!(db.blobs.len(), 1);
    let r = delete(&mut db, DeleteTarget::File(first)).unwrap();
    assert_eq!(r, DeleteResult { files: 1, blobs: 1 });
    assert!(db.blobs.is_empty());
    let second = insert(&mut db, "p", "B", b"X").unwrap();
    assert_ne!(first, second);
    assert!(second > first);
    assert_eq!(db.blobs.len(), 1);
    assert_eq!(db.blobs_created, 2);
}

#[test]
fn ids_increase_across_deletes() {
    let mut db = MemDb::default();
    let a = insert(&mut db, "a", "B", b"1").unwrap();
    let b = insert(&mut db, "b", "B", b"2").unwrap();
    delete(&mut db, DeleteTarget::File(b)).unwrap();
    let c = insert(&mut db, "c", "B", b"3").unwrap();
    assert!(a < b && b < c);
}

#[test]
fn busy_writer_is_retried() {
    let mut db = MemDb::default();
    db.busy_left = 3;
    let id = insert(&mut db, "a", "B", b"1").unwrap();
    assert_eq!(id, 1);
    db.busy_left = 2;
    let r = delete(&mut db, DeleteTarget::Bucket("B".to_string())).unwrap();
    assert_eq!(r, DeleteResult { files: 1, blobs: 1 });
}

#[test]
fn other_errors_end_the_transaction() {
    let mut tx = InsertTx::new("a".to_string(), "B".to_string(), b"1".to_vec()).unwrap();
    tx.begun(Err(DbError { kind: ErrorKind::Other, message: "disk full".to_string() }));
    assert!(tx.is_finished());
    match tx.into_result() {
        Err(e) => assert_eq!(e.message, "disk full"),
        Ok(_) => panic!("the error must surface"),
    }
}

#[test]
fn retry_rule() {
    let busy = DbError { kind: ErrorKind::Busy, message: String::new() };
    let other = DbError { kind: ErrorKind::Constraint, message: String::new() };
    assert!(should_retry(&busy));
    assert!(!should_retry(&other));
}

#[test]
fn twenty_buckets_share_four_blobs() {
    let mut db = MemDb::default();
    for n in 0..20 {
        let ids = created_ids(&four_files(&mut db, &n.to_string()));
        assert_eq!(ids.len(), 4);
    }
    assert_eq!(db.files.len(), 80);
    assert_eq!(db.blobs.len(), 4);
}

#[test]
fn found_blob_is_not_stored_again() {
    let mut tx = InsertTx::new("a".to_string(), "B".to_string(), b"1".to_vec()).unwrap();
    tx.begun(Ok(()));
    tx.blob_found(Ok(true));
    assert!(matches!(tx.stage(), InsertStage::AddFile));
    let mut tx = InsertTx::new("a".to_string(), "B".to_string(), b"1".to_vec()).unwrap();
    tx.begun(Ok(()));
    tx.blob_found(Ok(false));
    assert!(matches!(tx.stage(), InsertStage::AddBlob));
}
