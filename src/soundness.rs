//! The write transactions do what the store's operations say. Each statement
//! that the caller runs is described by its effect on the transaction's
//! working copy of the store; an invariant per stage ties that copy to the
//! store as it was when the transaction began. A transaction that reaches its
//! end has committed exactly the operation's result.

use vstd::prelude::*;
use crate::domain::DeleteResult;
use crate::protocol::{
    delete_after_begin, delete_after_commit, delete_after_rows, delete_after_sweep,
    delete_stage_after, insert_after_begin, insert_after_blob, insert_after_commit,
    insert_after_file, insert_after_find, insert_after_last_id, insert_stage_after, DbError,
    DeleteStage, DeleteTarget, ErrorKind, InsertStage, InsertTx,
};
use crate::store::{
    after_delete_bucket, after_delete_file, after_insert, blobs_removed, blobs_with,
    files_outside, files_removed, next_id, path_taken, sweep, wf, BlobRow, FileRow, Store,
};

verus! {

/// The statement that stores a blob row: under `hash`, with the size column
/// and the bytes given.
pub open spec fn add_blob(w: Store, hash: Seq<char>, size: int, data: Seq<u8>) -> Store {
    Store { blobs: w.blobs.insert(hash, BlobRow { data, size }), ..w }
}

/// The statement that stores a file row; the engine assigns its id, above
/// every id handed out before.
pub open spec fn add_file(w: Store, hash: Seq<char>, path: Seq<char>, bucket: Seq<char>) -> Store {
    Store {
        files: w.files.insert(next_id(w), FileRow { hash, path, bucket }),
        last_id: next_id(w),
        ..w
    }
}

/// `m` is the largest id among the file rows.
pub open spec fn is_largest_id(files: Map<int, FileRow>, m: int) -> bool {
    files.contains_key(m) && forall|k: int| #[trigger] files.contains_key(k) ==> k <= m
}

/// The operation that the insert `tx` stands for, applied to `s`.
pub open spec fn insert_effect(s: Store, tx: InsertTx) -> Store {
    after_insert(s, tx.spec_path(), tx.spec_bucket(), tx.spec_data())
}

/// What the insert `tx` has done, in `stage`, to its working copy `w` of the
/// store `c0` it began from.
pub open spec fn insert_inv(stage: InsertStage, tx: InsertTx, c0: Store, w: Store) -> bool {
    match stage {
        InsertStage::Begin => true,
        InsertStage::FindBlob => w == c0,
        InsertStage::AddBlob => w == c0 && !c0.blobs.contains_key(tx.spec_hash()),
        InsertStage::AddFile => w == Store { blobs: blobs_with(c0.blobs, tx.spec_data()), ..c0 },
        InsertStage::ReadLastId => w == insert_effect(c0, tx),
        InsertStage::Commit(id) => w == insert_effect(c0, tx) && id == next_id(c0),
        InsertStage::Done(id) => w == insert_effect(c0, tx) && id == next_id(c0),
        InsertStage::Failed(e) => e.kind == ErrorKind::Constraint ==> path_taken(
            c0,
            tx.spec_path(),
            tx.spec_bucket(),
        ),
    }
}

/// Beginning: the working copy is the committed store.
pub proof fn lemma_insert_begin(tx: InsertTx, committed: Store)
    ensures
        insert_inv(insert_after_begin(Ok(())), tx, committed, committed),
{
}

/// Looking up the fingerprint: the engine answers whether it is stored.
pub proof fn lemma_insert_find(tx: InsertTx, c0: Store, w: Store)
    requires
        tx.request_ok(),
        insert_inv(InsertStage::FindBlob, tx, c0, w),
    ensures
        insert_inv(insert_after_find(Ok(w.blobs.contains_key(tx.spec_hash()))), tx, c0, w),
{
    if w.blobs.contains_key(tx.spec_hash()) {
        assert(Store { blobs: blobs_with(c0.blobs, tx.spec_data()), ..c0 } == c0);
    }
}

/// Storing the blob row with the transaction's fingerprint, size and bytes:
/// the row's size is the length of its bytes.
pub proof fn lemma_insert_add_blob(tx: InsertTx, c0: Store, w: Store)
    requires
        tx.request_ok(),
        insert_inv(InsertStage::AddBlob, tx, c0, w),
    ensures
        insert_inv(
            insert_after_blob(Ok(())),
            tx,
            c0,
            add_blob(w, tx.spec_hash(), tx.spec_size() as int, tx.spec_data()),
        ),
{
    let w2 = add_blob(w, tx.spec_hash(), tx.spec_size() as int, tx.spec_data());
    assert(w2.blobs == blobs_with(c0.blobs, tx.spec_data()));
}

/// Storing the file row: refused by the uniqueness constraint exactly when
/// the path is taken in the bucket.
pub proof fn lemma_insert_add_file(tx: InsertTx, c0: Store, w: Store, e: DbError)
    requires
        tx.request_ok(),
        insert_inv(InsertStage::AddFile, tx, c0, w),
        e.kind == ErrorKind::Constraint,
    ensures
        path_taken(w, tx.spec_path(), tx.spec_bucket()) ==> insert_inv(
            insert_after_file(Err(e)),
            tx,
            c0,
            w,
        ),
        !path_taken(w, tx.spec_path(), tx.spec_bucket()) ==> insert_inv(
            insert_after_file(Ok(())),
            tx,
            c0,
            add_file(w, tx.spec_hash(), tx.spec_path(), tx.spec_bucket()),
        ),
{
    let (path, bucket) = (tx.spec_path(), tx.spec_bucket());
    if path_taken(w, path, bucket) {
        let j = choose|j: int|
            w.files.contains_key(j) && (#[trigger] w.files[j]).path == path && w.files[j].bucket
                == bucket;
        assert(c0.files.contains_key(j) && c0.files[j].path == path && c0.files[j].bucket == bucket);
    }
}

/// Reading back the largest id yields the id of the new file.
pub proof fn lemma_insert_read_id(tx: InsertTx, c0: Store, w: Store, m: i64)
    requires
        wf(c0),
        insert_inv(InsertStage::ReadLastId, tx, c0, w),
        is_largest_id(w.files, m as int),
    ensures
        insert_inv(insert_after_last_id(Ok(m)), tx, c0, w),
{
    assert(w.files.contains_key(next_id(c0)));
}

/// Committing ends the insert with the new file's id, and the committed
/// store is the insert's result.
pub proof fn lemma_insert_commit(stage: InsertStage, tx: InsertTx, c0: Store, w: Store)
    requires
        stage is Commit,
        insert_inv(stage, tx, c0, w),
    ensures
        insert_inv(insert_after_commit(stage, Ok(())), tx, c0, w),
        insert_after_commit(stage, Ok(())) matches InsertStage::Done(id) && id == next_id(c0)
            && w == insert_effect(c0, tx),
{
}

/// Writer contention at any statement starts the insert over; any other
/// failure but a constraint ends it, with nothing committed.
pub proof fn lemma_insert_error(next: InsertStage, tx: InsertTx, c0: Store, w: Store, e: DbError)
    requires
        e.kind != ErrorKind::Constraint,
    ensures
        insert_inv(insert_stage_after(Err::<(), DbError>(e), next), tx, c0, w),
        e.kind == ErrorKind::Busy ==> insert_stage_after(Err::<(), DbError>(e), next)
            == InsertStage::Begin,
{
}

/// The file rows a delete statement removes.
pub open spec fn rows_removed(s: Store, target: DeleteTarget) -> Store {
    match target {
        DeleteTarget::File(id) => Store { files: s.files.remove(id as int), ..s },
        DeleteTarget::Bucket(b) => Store { files: files_outside(s.files, b@), ..s },
    }
}

/// The sweep statement.
pub open spec fn swept(s: Store) -> Store {
    Store { blobs: sweep(s.blobs, s.files), ..s }
}

/// The store operation a delete performs.
pub open spec fn delete_effect(s: Store, target: DeleteTarget) -> Store {
    match target {
        DeleteTarget::File(id) => after_delete_file(s, id as int),
        DeleteTarget::Bucket(b) => after_delete_bucket(s, b@),
    }
}

/// The counts a delete reports.
pub open spec fn delete_counts(before: Store, after: Store, r: DeleteResult) -> bool {
    r.files as int == files_removed(before, after) && r.blobs as int == blobs_removed(before, after)
}

/// What a delete transaction has done to its working copy `w` of the store
/// `c0` it began from, stage by stage.
pub open spec fn delete_inv(stage: DeleteStage, target: DeleteTarget, c0: Store, w: Store) -> bool {
    match stage {
        DeleteStage::Begin => true,
        DeleteStage::DeleteRows => w == c0,
        DeleteStage::Sweep(n) => w == rows_removed(c0, target) && n as int == files_removed(c0, w),
        DeleteStage::Commit(r) => w == delete_effect(c0, target) && delete_counts(c0, w, r),
        DeleteStage::Done(r) => w == delete_effect(c0, target) && delete_counts(c0, w, r),
        DeleteStage::Failed(_) => true,
    }
}

/// Beginning: the working copy is the committed store.
pub proof fn lemma_delete_begin(target: DeleteTarget, committed: Store)
    ensures
        delete_inv(delete_after_begin(Ok(())), target, committed, committed),
{
}

/// Deleting the rows: the engine reports how many went.
pub proof fn lemma_delete_rows(target: DeleteTarget, c0: Store, w: Store, n: usize)
    requires
        delete_inv(DeleteStage::DeleteRows, target, c0, w),
        n as int == files_removed(w, rows_removed(w, target)),
    ensures
        delete_inv(delete_after_rows(Ok(n)), target, c0, rows_removed(w, target)),
{
}

/// Sweeping: the engine reports how many blobs went.
pub proof fn lemma_delete_sweep(stage: DeleteStage, target: DeleteTarget, c0: Store, w: Store, m: usize)
    requires
        stage is Sweep,
        delete_inv(stage, target, c0, w),
        m as int == blobs_removed(w, swept(w)),
    ensures
        delete_inv(delete_after_sweep(stage, Ok(m)), target, c0, swept(w)),
{
}

/// Committing ends the delete with both counts.
pub proof fn lemma_delete_commit(stage: DeleteStage, target: DeleteTarget, c0: Store, w: Store)
    requires
        stage is Commit,
        delete_inv(stage, target, c0, w),
    ensures
        delete_inv(delete_after_commit(stage, Ok(())), target, c0, w),
        delete_after_commit(stage, Ok(())) matches DeleteStage::Done(r) && w == delete_effect(c0, target)
            && delete_counts(c0, w, r),
{
}

/// Writer contention at any statement starts the delete over.
pub proof fn lemma_delete_error(next: DeleteStage, target: DeleteTarget, c0: Store, w: Store, e: DbError)
    ensures
        delete_inv(delete_stage_after(Err::<(), DbError>(e), next), target, c0, w),
        e.kind == ErrorKind::Busy ==> delete_stage_after(Err::<(), DbError>(e), next)
            == DeleteStage::Begin,
{
}

} // verus!
