//! The content of the database as a mathematical value: the `blob` and `file`
//! relations, the invariants they keep, and what each write operation does to
//! them.

use vstd::prelude::*;
use crate::fingerprint::{blake3_hex, MAX_BLOB_SIZE};

verus! {

/// A row of the `file` relation, without its id.
pub struct FileRow {
    pub hash: Seq<char>,
    pub path: Seq<char>,
    pub bucket: Seq<char>,
}

/// A row of the `blob` relation, without its fingerprint.
pub struct BlobRow {
    pub data: Seq<u8>,
    pub size: int,
}

/// The blob row that stores `data`.
pub open spec fn blob_row(data: Seq<u8>) -> BlobRow {
    BlobRow { data, size: data.len() as int }
}

/// The committed state: blobs keyed by fingerprint, files keyed by id, and
/// the largest id ever handed out (ids are never reused).
pub struct Store {
    pub blobs: Map<Seq<char>, BlobRow>,
    pub files: Map<int, FileRow>,
    pub last_id: int,
}

/// Some file row refers to the blob `h`.
pub open spec fn referenced(files: Map<int, FileRow>, h: Seq<char>) -> bool {
    exists|id: int| files.contains_key(id) && (#[trigger] files[id]).hash == h
}

/// Some file row has this path inside this bucket.
pub open spec fn path_taken(s: Store, path: Seq<char>, bucket: Seq<char>) -> bool {
    exists|id: int|
        s.files.contains_key(id) && (#[trigger] s.files[id]).path == path && s.files[id].bucket
            == bucket
}

/// The invariants of a committed store.
pub open spec fn wf(s: Store) -> bool {
    &&& s.blobs.dom().finite()
    &&& s.files.dom().finite()
    &&& s.last_id >= 0
    // every blob is stored under its own fingerprint, its size is its length,
    // and that fits the column
    &&& forall|h: Seq<char>| #[trigger]
        s.blobs.contains_key(h) ==> blake3_hex(s.blobs[h].data) == h && s.blobs[h].size
            == s.blobs[h].data.len() && s.blobs[h].size <= MAX_BLOB_SIZE
    // every blob is referred to by some file
    &&& forall|h: Seq<char>| #[trigger] s.blobs.contains_key(h) ==> referenced(s.files, h)
    // every file refers to a stored blob
    &&& forall|id: int| #[trigger]
        s.files.contains_key(id) ==> s.blobs.contains_key(s.files[id].hash)
    // a path occurs at most once in a bucket
    &&& forall|i: int, j: int|
        #![trigger s.files[i], s.files[j]]
        s.files.contains_key(i) && s.files.contains_key(j) && s.files[i].path == s.files[j].path
            && s.files[i].bucket == s.files[j].bucket ==> i == j
    // ids are positive and none exceeds the last one handed out
    &&& forall|id: int| #[trigger] s.files.contains_key(id) ==> 0 < id <= s.last_id
}

/// The empty database, as the schema creates it.
pub open spec fn empty_store() -> Store {
    Store { blobs: Map::empty(), files: Map::empty(), last_id: 0 }
}

/// The id that the next insert gets.
pub open spec fn next_id(s: Store) -> int {
    s.last_id + 1
}

/// The blob relation after storing `data`: unchanged when its fingerprint is
/// already there.
pub open spec fn blobs_with(blobs: Map<Seq<char>, BlobRow>, data: Seq<u8>) -> Map<Seq<char>, BlobRow> {
    if blobs.contains_key(blake3_hex(data)) {
        blobs
    } else {
        blobs.insert(blake3_hex(data), blob_row(data))
    }
}

/// The store after inserting `data` as `path` in `bucket` (when the path is free).
pub open spec fn after_insert(s: Store, path: Seq<char>, bucket: Seq<char>, data: Seq<u8>) -> Store {
    Store {
        blobs: blobs_with(s.blobs, data),
        files: s.files.insert(next_id(s), FileRow { hash: blake3_hex(data), path, bucket }),
        last_id: next_id(s),
    }
}

/// The blobs that some file still refers to: the cleanup sweep.
pub open spec fn sweep(blobs: Map<Seq<char>, BlobRow>, files: Map<int, FileRow>) -> Map<Seq<char>, BlobRow> {
    blobs.restrict(blobs.dom().filter(|h: Seq<char>| referenced(files, h)))
}

/// The files that remain when those of `bucket` are removed.
pub open spec fn files_outside(files: Map<int, FileRow>, bucket: Seq<char>) -> Map<int, FileRow> {
    files.restrict(files.dom().filter(|id: int| files[id].bucket != bucket))
}

/// The store after removing the file `id`, followed by the sweep.
pub open spec fn after_delete_file(s: Store, id: int) -> Store {
    Store { blobs: sweep(s.blobs, s.files.remove(id)), files: s.files.remove(id), last_id: s.last_id }
}

/// The store after removing every file of `bucket`, followed by the sweep.
pub open spec fn after_delete_bucket(s: Store, bucket: Seq<char>) -> Store {
    Store {
        blobs: sweep(s.blobs, files_outside(s.files, bucket)),
        files: files_outside(s.files, bucket),
        last_id: s.last_id,
    }
}

/// How many file rows a delete removed.
pub open spec fn files_removed(before: Store, after: Store) -> int {
    before.files.dom().len() - after.files.dom().len()
}

/// How many blob rows a delete removed.
pub open spec fn blobs_removed(before: Store, after: Store) -> int {
    before.blobs.dom().len() - after.blobs.dom().len()
}

/// The bytes that a download of file `id` yields.
pub open spec fn file_data(s: Store, id: int) -> Seq<u8> {
    s.blobs[s.files[id].hash].data
}

/// The store holds no blob under the fingerprint of `data` but `data` itself.
pub open spec fn no_collision(s: Store, data: Seq<u8>) -> bool {
    s.blobs.contains_key(blake3_hex(data)) ==> s.blobs[blake3_hex(data)].data == data
}

} // verus!
