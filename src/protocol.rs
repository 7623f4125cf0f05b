//! The write transactions of the blob engine as state machines. The caller
//! owns the database handle: it asks the machine for the next step, runs that
//! statement, and hands the machine the statement's result. The machine makes
//! every decision: whether the blob must be stored, when to retry after
//! writer contention, and what the transaction returns.

use vstd::prelude::*;
use crate::domain::DeleteResult;
use crate::fingerprint::{blake3_hex, blob_size, fingerprint, MAX_BLOB_SIZE};

verus! {

/// The kind of a database error, as far as the protocol cares.
#[derive(Clone, Copy, PartialEq, Eq, Structural, Debug)]
pub enum ErrorKind {
    /// Another writer holds the lock: the transaction is run again.
    Busy,
    /// A uniqueness or reference constraint refused the statement.
    Constraint,
    /// No row matched a lookup.
    NotFound,
    /// Anything else the engine reports.
    Other,
}

/// A database error with the engine's own message.
#[derive(Debug)]
pub struct DbError {
    pub kind: ErrorKind,
    pub message: String,
}

/// The retry rule: only writer contention is retried.
pub fn should_retry(e: &DbError) -> (r: bool)
    ensures
        r == (e.kind == ErrorKind::Busy),
{
    e.kind == ErrorKind::Busy
}

/// The stage an insert transaction is in: the statement it waits for, or its end.
#[derive(Debug)]
pub enum InsertStage {
    /// Begin a transaction.
    Begin,
    /// Ask whether a blob with the fingerprint exists.
    FindBlob,
    /// Store the blob row with its size and bytes.
    AddBlob,
    /// Store the file row.
    AddFile,
    /// Read back the largest file id.
    ReadLastId,
    /// Commit; the id was read.
    Commit(i64),
    /// Committed with this id.
    Done(i64),
    /// Ended with this error; nothing was committed.
    Failed(DbError),
}

/// Where a transaction goes when a statement returns `r`: to `next` on
/// success, back to the start on writer contention, to its end on any other
/// error.
pub open spec fn insert_stage_after<T>(r: Result<T, DbError>, next: InsertStage) -> InsertStage {
    match r {
        Ok(_) => next,
        Err(e) => if e.kind == ErrorKind::Busy {
            InsertStage::Begin
        } else {
            InsertStage::Failed(e)
        },
    }
}

/// After the transaction was begun.
pub open spec fn insert_after_begin(r: Result<(), DbError>) -> InsertStage {
    insert_stage_after(r, InsertStage::FindBlob)
}

/// After asking for the blob: a blob already stored is not stored again.
pub open spec fn insert_after_find(r: Result<bool, DbError>) -> InsertStage {
    insert_stage_after(
        r,
        if r matches Ok(true) {
            InsertStage::AddFile
        } else {
            InsertStage::AddBlob
        },
    )
}

/// After storing the blob row.
pub open spec fn insert_after_blob(r: Result<(), DbError>) -> InsertStage {
    insert_stage_after(r, InsertStage::AddFile)
}

/// After storing the file row.
pub open spec fn insert_after_file(r: Result<(), DbError>) -> InsertStage {
    insert_stage_after(r, InsertStage::ReadLastId)
}

/// After reading the largest id: that id is the result.
pub open spec fn insert_after_last_id(r: Result<i64, DbError>) -> InsertStage {
    insert_stage_after(r, InsertStage::Commit(r->Ok_0))
}

/// After the commit.
pub open spec fn insert_after_commit(stage: InsertStage, r: Result<(), DbError>) -> InsertStage {
    insert_stage_after(r, InsertStage::Done(stage->Commit_0))
}

/// One insert of a file into a bucket, from its first statement to its end.
pub struct InsertTx {
    path: String,
    bucket: String,
    data: Vec<u8>,
    hash: String,
    size: i32,
    stage: InsertStage,
}

impl InsertTx {
    pub closed spec fn spec_stage(&self) -> InsertStage {
        self.stage
    }

    pub closed spec fn spec_path(&self) -> Seq<char> {
        self.path@
    }

    pub closed spec fn spec_bucket(&self) -> Seq<char> {
        self.bucket@
    }

    pub closed spec fn spec_data(&self) -> Seq<u8> {
        self.data@
    }

    pub closed spec fn spec_hash(&self) -> Seq<char> {
        self.hash@
    }

    pub closed spec fn spec_size(&self) -> i32 {
        self.size
    }

    /// The request and its derived values.
    pub open spec fn request_ok(&self) -> bool {
        &&& self.spec_hash() == blake3_hex(self.spec_data())
        &&& self.spec_data().len() <= MAX_BLOB_SIZE
        &&& self.spec_size() as int == self.spec_data().len()
    }

    /// Both hold the same request.
    pub open spec fn same_request(&self, other: &InsertTx) -> bool {
        &&& self.spec_path() == other.spec_path()
        &&& self.spec_bucket() == other.spec_bucket()
        &&& self.spec_data() == other.spec_data()
        &&& self.spec_hash() == other.spec_hash()
        &&& self.spec_size() == other.spec_size()
    }

    /// Prepares the insert of `data` as `path` in `bucket`: computes the
    /// fingerprint outside the transaction. Payloads too large for the size
    /// column are refused.
    pub fn new(path: String, bucket: String, data: Vec<u8>) -> (r: Option<InsertTx>)
        ensures
            r is Some <==> data@.len() <= MAX_BLOB_SIZE,
            r matches Some(tx) ==> {
                &&& tx.spec_stage() == InsertStage::Begin
                &&& tx.spec_path() == path@
                &&& tx.spec_bucket() == bucket@
                &&& tx.spec_data() == data@
                &&& tx.request_ok()
            },
    {
        match blob_size(data.len()) {
            Some(size) => {
                let hash = fingerprint(data.as_slice());
                Some(InsertTx { path, bucket, data, hash, size, stage: InsertStage::Begin })
            },
            None => None,
        }
    }

    /// The stage the transaction is in.
    pub fn stage(&self) -> (r: &InsertStage)
        ensures
            *r == self.spec_stage(),
    {
        &self.stage
    }

    pub fn path(&self) -> (r: &str)
        ensures
            r@ == self.spec_path(),
    {
        self.path.as_str()
    }

    pub fn bucket(&self) -> (r: &str)
        ensures
            r@ == self.spec_bucket(),
    {
        self.bucket.as_str()
    }

    /// The bytes to store in the blob row.
    pub fn data(&self) -> (r: &[u8])
        ensures
            r@ == self.spec_data(),
    {
        self.data.as_slice()
    }

    /// The fingerprint of the bytes.
    pub fn hash(&self) -> (r: &str)
        ensures
            r@ == self.spec_hash(),
    {
        self.hash.as_str()
    }

    /// The size column of the blob row.
    pub fn size(&self) -> (r: i32)
        ensures
            r == self.spec_size(),
    {
        self.size
    }

    fn advance(&mut self, r: Result<(), DbError>, next: InsertStage)
        ensures
            final(self).spec_stage() == insert_stage_after(r, next),
            final(self).same_request(old(self)),
    {
        match r {
            Ok(()) => self.stage = next,
            Err(e) => self.stage = if should_retry(&e) {
                InsertStage::Begin
            } else {
                InsertStage::Failed(e)
            },
        }
    }

    /// The transaction was begun (or not).
    pub fn begun(&mut self, r: Result<(), DbError>)
        requires
            old(self).spec_stage() == InsertStage::Begin,
        ensures
            final(self).spec_stage() == insert_after_begin(r),
            final(self).same_request(old(self)),
    {
        self.advance(r, InsertStage::FindBlob);
    }

    /// Whether a blob with the fingerprint is stored: only a new blob is added.
    pub fn blob_found(&mut self, r: Result<bool, DbError>)
        requires
            old(self).spec_stage() == InsertStage::FindBlob,
        ensures
            final(self).spec_stage() == insert_after_find(r),
            final(self).same_request(old(self)),
    {
        match r {
            Ok(found) => {
                let next = if found {
                    InsertStage::AddFile
                } else {
                    InsertStage::AddBlob
                };
                self.advance(Ok(()), next);
            },
            Err(e) => self.advance(Err(e), InsertStage::AddBlob),
        }
    }

    /// The blob row was stored (or not).
    pub fn blob_added(&mut self, r: Result<(), DbError>)
        requires
            old(self).spec_stage() == InsertStage::AddBlob,
        ensures
            final(self).spec_stage() == insert_after_blob(r),
            final(self).same_request(old(self)),
    {
        self.advance(r, InsertStage::AddFile);
    }

    /// The file row was stored (or not).
    pub fn file_added(&mut self, r: Result<(), DbError>)
        requires
            old(self).spec_stage() == InsertStage::AddFile,
        ensures
            final(self).spec_stage() == insert_after_file(r),
            final(self).same_request(old(self)),
    {
        self.advance(r, InsertStage::ReadLastId);
    }

    /// The largest file id was read: it is the id of the new file.
    pub fn last_id_read(&mut self, r: Result<i64, DbError>)
        requires
            old(self).spec_stage() == InsertStage::ReadLastId,
        ensures
            final(self).spec_stage() == insert_after_last_id(r),
            final(self).same_request(old(self)),
    {
        match r {
            Ok(id) => self.advance(Ok(()), InsertStage::Commit(id)),
            Err(e) => self.advance(Err(e), InsertStage::ReadLastId),
        }
    }

    /// The commit went through (or not).
    pub fn committed(&mut self, r: Result<(), DbError>)
        requires
            old(self).spec_stage() is Commit,
        ensures
            final(self).spec_stage() == insert_after_commit(old(self).spec_stage(), r),
            final(self).same_request(old(self)),
    {
        let id = match self.stage {
            InsertStage::Commit(id) => id,
            _ => 0,
        };
        self.advance(r, InsertStage::Done(id));
    }

    /// Whether the transaction has ended.
    pub fn is_finished(&self) -> (r: bool)
        ensures
            r == (self.spec_stage() is Done || self.spec_stage() is Failed),
    {
        matches!(self.stage, InsertStage::Done(_) | InsertStage::Failed(_))
    }

    /// What the insert returns: the new id, or the error that ended it.
    pub fn into_result(self) -> (r: Result<i64, DbError>)
        requires
            self.spec_stage() is Done || self.spec_stage() is Failed,
        ensures
            self.spec_stage() matches InsertStage::Done(id) ==> r == Ok::<i64, DbError>(id),
            self.spec_stage() matches InsertStage::Failed(e) ==> r == Err::<i64, DbError>(e),
    {
        match self.stage {
            InsertStage::Done(id) => Ok(id),
            InsertStage::Failed(e) => Err(e),
            _ => Ok(0),
        }
    }
}

/// What a delete removes: one file by id, or every file of a bucket.
#[derive(Debug)]
pub enum DeleteTarget {
    File(i64),
    Bucket(String),
}

/// The stage a delete transaction is in.
#[derive(Debug)]
pub enum DeleteStage {
    /// Begin a transaction.
    Begin,
    /// Delete the targeted file rows.
    DeleteRows,
    /// Sweep the blobs no file refers to; this many file rows went.
    Sweep(usize),
    /// Commit; the counts are known.
    Commit(DeleteResult),
    /// Committed with these counts.
    Done(DeleteResult),
    /// Ended with this error; nothing was committed.
    Failed(DbError),
}

/// Where a delete goes when a statement returns `r`.
pub open spec fn delete_stage_after<T>(r: Result<T, DbError>, next: DeleteStage) -> DeleteStage {
    match r {
        Ok(_) => next,
        Err(e) => if e.kind == ErrorKind::Busy {
            DeleteStage::Begin
        } else {
            DeleteStage::Failed(e)
        },
    }
}

/// After the transaction was begun.
pub open spec fn delete_after_begin(r: Result<(), DbError>) -> DeleteStage {
    delete_stage_after(r, DeleteStage::DeleteRows)
}

/// After deleting the file rows: their count is kept.
pub open spec fn delete_after_rows(r: Result<usize, DbError>) -> DeleteStage {
    delete_stage_after(r, DeleteStage::Sweep(r->Ok_0))
}

/// After the sweep: both counts are the result.
pub open spec fn delete_after_sweep(stage: DeleteStage, r: Result<usize, DbError>) -> DeleteStage {
    delete_stage_after(r, DeleteStage::Commit(DeleteResult { files: stage->Sweep_0, blobs: r->Ok_0 }))
}

/// After the commit.
pub open spec fn delete_after_commit(stage: DeleteStage, r: Result<(), DbError>) -> DeleteStage {
    delete_stage_after(r, DeleteStage::Done(stage->Commit_0))
}

/// One delete, from its first statement to its end.
pub struct DeleteTx {
    target: DeleteTarget,
    stage: DeleteStage,
}

impl DeleteTx {
    pub closed spec fn spec_stage(&self) -> DeleteStage {
        self.stage
    }

    pub closed spec fn spec_target(&self) -> DeleteTarget {
        self.target
    }

    /// Prepares a delete of `target`.
    pub fn new(target: DeleteTarget) -> (r: DeleteTx)
        ensures
            r.spec_stage() == DeleteStage::Begin,
            r.spec_target() == target,
    {
        DeleteTx { target, stage: DeleteStage::Begin }
    }

    /// The stage the transaction is in.
    pub fn stage(&self) -> (r: &DeleteStage)
        ensures
            *r == self.spec_stage(),
    {
        &self.stage
    }

    /// What the delete removes.
    pub fn target(&self) -> (r: &DeleteTarget)
        ensures
            *r == self.spec_target(),
    {
        &self.target
    }

    fn advance(&mut self, r: Result<(), DbError>, next: DeleteStage)
        ensures
            final(self).spec_stage() == delete_stage_after(r, next),
            final(self).spec_target() == old(self).spec_target(),
    {
        match r {
            Ok(()) => self.stage = next,
            Err(e) => self.stage = if should_retry(&e) {
                DeleteStage::Begin
            } else {
                DeleteStage::Failed(e)
            },
        }
    }

    /// The transaction was begun (or not).
    pub fn begun(&mut self, r: Result<(), DbError>)
        requires
            old(self).spec_stage() == DeleteStage::Begin,
        ensures
            final(self).spec_stage() == delete_after_begin(r),
            final(self).spec_target() == old(self).spec_target(),
    {
        self.advance(r, DeleteStage::DeleteRows);
    }

    /// The targeted file rows were deleted: this many.
    pub fn rows_deleted(&mut self, r: Result<usize, DbError>)
        requires
            old(self).spec_stage() == DeleteStage::DeleteRows,
        ensures
            final(self).spec_stage() == delete_after_rows(r),
            final(self).spec_target() == old(self).spec_target(),
    {
        match r {
            Ok(n) => self.advance(Ok(()), DeleteStage::Sweep(n)),
            Err(e) => self.advance(Err(e), DeleteStage::DeleteRows),
        }
    }

    /// The sweep removed this many blobs.
    pub fn swept(&mut self, r: Result<usize, DbError>)
        requires
            old(self).spec_stage() is Sweep,
        ensures
            final(self).spec_stage() == delete_after_sweep(old(self).spec_stage(), r),
            final(self).spec_target() == old(self).spec_target(),
    {
        let files = match self.stage {
            DeleteStage::Sweep(n) => n,
            _ => 0,
        };
        match r {
            Ok(blobs) => self.advance(Ok(()), DeleteStage::Commit(DeleteResult { files, blobs })),
            Err(e) => self.advance(Err(e), DeleteStage::DeleteRows),
        }
    }

    /// The commit went through (or not).
    pub fn committed(&mut self, r: Result<(), DbError>)
        requires
            old(self).spec_stage() is Commit,
        ensures
            final(self).spec_stage() == delete_after_commit(old(self).spec_stage(), r),
            final(self).spec_target() == old(self).spec_target(),
    {
        let counts = match self.stage {
            DeleteStage::Commit(c) => c,
            _ => DeleteResult::none(),
        };
        self.advance(r, DeleteStage::Done(counts));
    }

    /// Whether the transaction has ended.
    pub fn is_finished(&self) -> (r: bool)
        ensures
            r == (self.spec_stage() is Done || self.spec_stage() is Failed),
    {
        matches!(self.stage, DeleteStage::Done(_) | DeleteStage::Failed(_))
    }

    /// What the delete returns: the counts, or the error that ended it.
    pub fn into_result(self) -> (r: Result<DeleteResult, DbError>)
        requires
            self.spec_stage() is Done || self.spec_stage() is Failed,
        ensures
            self.spec_stage() matches DeleteStage::Done(c) ==> r == Ok::<DeleteResult, DbError>(c),
            self.spec_stage() matches DeleteStage::Failed(e) ==> r == Err::<DeleteResult, DbError>(e),
    {
        match self.stage {
            DeleteStage::Done(c) => Ok(c),
            DeleteStage::Failed(e) => Err(e),
            _ => Ok(DeleteResult::none()),
        }
    }
}

} // verus!
