//! Records shared by the server and the client.

use vstd::prelude::*;

verus! {

/// A bucket and the number of files that refer to it.
#[derive(Debug)]
pub struct Bucket {
    pub id: String,
    pub files_count: i64,
}

/// Metadata of one stored file, joined with the size of its blob.
#[derive(Debug)]
pub struct File {
    pub id: i64,
    pub path: String,
    pub bucket: String,
    pub blake3_hash: String,
    pub size: usize,
}

/// Rows removed from each relation by one delete.
#[derive(Clone, Copy, PartialEq, Eq, Structural, Debug)]
pub struct DeleteResult {
    pub files: usize,
    pub blobs: usize,
}

impl DeleteResult {
    /// The result of a delete that removed nothing.
    pub fn none() -> (r: DeleteResult)
        ensures
            r.files == 0,
            r.blobs == 0,
    {
        DeleteResult { files: 0, blobs: 0 }
    }
}

/// How a database handle is opened.
#[derive(Clone, Copy, PartialEq, Eq, Structural, Debug)]
pub enum Mode {
    ReadWrite,
    ReadOnly,
}

/// The operations of the blob engine on one database handle.
pub trait Storage {
    type Err;

    /// Creates the relations and the unique index of a new database file.
    fn new_database(&self) -> Result<(), Self::Err>;

    /// Inserts `data` as `path` in `bucket` and returns the new file's id.
    fn insert_file(&mut self, path: &str, bucket: &str, data: Vec<u8>) -> Result<i64, Self::Err>;

    /// Removes every file of `bucket`, then every blob no file refers to.
    fn delete_bucket(&mut self, bucket: &str) -> Result<DeleteResult, Self::Err>;

    /// The buckets with their file counts.
    fn get_buckets(&mut self) -> Result<Vec<Bucket>, Self::Err>;

    /// The files of `bucket`.
    fn get_files(&mut self, bucket: &str) -> Result<Vec<File>, Self::Err>;

    /// The file of `bucket` with the largest id.
    fn get_last_file(&mut self, bucket: &str) -> Result<File, Self::Err>;

    /// The stored bytes of file `id`.
    fn get_file_data(&self, id: i64) -> Result<Vec<u8>, Self::Err>;

    /// The metadata of file `id`.
    fn get_file_info(&mut self, id: i64) -> Result<File, Self::Err>;

    /// The metadata of the file with this exact path in `bucket`.
    fn search_file_info(&mut self, bucket: &str, path: &str) -> Result<File, Self::Err>;

    /// Removes file `id`, then every blob no file refers to.
    fn delete_file(&mut self, id: i64) -> Result<DeleteResult, Self::Err>;
}

/// What the client needs to upload one local file.
pub struct FileParams {
    pub uri: String,
    pub file: String,
    pub bucket: String,
    pub new_file_name: Option<String>,
}

} // verus!
