//! What holds of the store across its write operations.

use vstd::prelude::*;
use crate::domain::DeleteResult;
use crate::fingerprint::{blake3_hex, MAX_BLOB_SIZE};
use crate::http::{delete_status_of, NOT_FOUND};
use crate::store::{
    after_delete_bucket, after_delete_file, after_insert, blob_row, blobs_removed, empty_store, file_data,
    files_outside, files_removed, next_id, no_collision, path_taken, referenced, sweep, wf, FileRow,
    Store,
};

verus! {

/// The empty database is well formed.
pub proof fn lemma_empty_wf()
    ensures
        wf(empty_store()),
{
}

/// Inserting a file into a free path keeps every invariant: each blob still
/// matches its fingerprint and size, each file refers to exactly one stored
/// blob, paths stay unique within a bucket, and every blob stays referenced.
pub proof fn lemma_insert_keeps_wf(s: Store, path: Seq<char>, bucket: Seq<char>, data: Seq<u8>)
    requires
        wf(s),
        !path_taken(s, path, bucket),
        data.len() <= MAX_BLOB_SIZE,
    ensures
        wf(after_insert(s, path, bucket, data)),
        after_insert(s, path, bucket, data).files.contains_key(next_id(s)),
{
    let t = after_insert(s, path, bucket, data);
    let h = blake3_hex(data);
    let id = next_id(s);
    assert(t.files[id].hash == h);
    assert forall|k: Seq<char>| #[trigger] t.blobs.contains_key(k) implies referenced(t.files, k) by {
        if k == h {
            assert(t.files.contains_key(id) && t.files[id].hash == k);
        } else {
            assert(s.blobs.contains_key(k));
            let j = choose|j: int| s.files.contains_key(j) && (#[trigger] s.files[j]).hash == k;
            assert(t.files.contains_key(j) && t.files[j].hash == k);
        }
    }
    assert forall|i: int, j: int|
        #![trigger t.files[i], t.files[j]]
        t.files.contains_key(i) && t.files.contains_key(j) && t.files[i].path == t.files[j].path
            && t.files[i].bucket == t.files[j].bucket implies i == j by {
        if i == id && j != id {
            assert(s.files.contains_key(j) && s.files[j].path == path && s.files[j].bucket == bucket);
        } else if j == id && i != id {
            assert(s.files.contains_key(i) && s.files[i].path == path && s.files[i].bucket == bucket);
        }
    }
}

/// The sweep keeps exactly the referenced blobs of a well-formed blob set.
proof fn lemma_sweep_wf(s: Store, files: Map<int, FileRow>)
    requires
        wf(s),
        files.dom().subset_of(s.files.dom()),
        forall|id: int| #[trigger] files.contains_key(id) ==> files[id] == s.files[id],
    ensures
        wf(Store { blobs: sweep(s.blobs, files), files, last_id: s.last_id }),
        forall|h: Seq<char>| #[trigger]
            sweep(s.blobs, files).contains_key(h) <==> s.blobs.contains_key(h) && referenced(files, h),
{
    let t = Store { blobs: sweep(s.blobs, files), files, last_id: s.last_id };
    vstd::set_lib::lemma_len_subset(files.dom(), s.files.dom());
    assert(t.blobs.dom().subset_of(s.blobs.dom()));
    vstd::set_lib::lemma_len_subset(t.blobs.dom(), s.blobs.dom());
    assert forall|h: Seq<char>| #[trigger] t.blobs.contains_key(h) implies referenced(t.files, h) by {
    }
    assert forall|i: int, j: int|
        #![trigger t.files[i], t.files[j]]
        t.files.contains_key(i) && t.files.contains_key(j) && t.files[i].path == t.files[j].path
            && t.files[i].bucket == t.files[j].bucket implies i == j by {
        assert(s.files.contains_key(i) && s.files.contains_key(j));
        assert(s.files[i] == t.files[i] && s.files[j] == t.files[j]);
    }
    assert forall|id: int| #[trigger] files.contains_key(id) implies t.blobs.contains_key(files[id].hash) by {
        assert(s.files.contains_key(id));
        assert(referenced(files, files[id].hash));
    }
}

/// Removing one file keeps every invariant and leaves no orphaned blob.
pub proof fn lemma_delete_file_keeps_wf(s: Store, id: int)
    requires
        wf(s),
    ensures
        wf(after_delete_file(s, id)),
        forall|h: Seq<char>| #[trigger] after_delete_file(s, id).blobs.contains_key(h)
            ==> referenced(after_delete_file(s, id).files, h),
{
    lemma_sweep_wf(s, s.files.remove(id));
}

/// Removing a bucket keeps every invariant and leaves no orphaned blob.
pub proof fn lemma_delete_bucket_keeps_wf(s: Store, bucket: Seq<char>)
    requires
        wf(s),
    ensures
        wf(after_delete_bucket(s, bucket)),
        forall|h: Seq<char>| #[trigger] after_delete_bucket(s, bucket).blobs.contains_key(h)
            ==> referenced(after_delete_bucket(s, bucket).files, h),
{
    lemma_sweep_wf(s, files_outside(s.files, bucket));
}

/// In a well-formed store each file refers to exactly one blob row: the one
/// stored under its fingerprint.
pub proof fn lemma_file_has_one_blob(s: Store, id: int)
    requires
        wf(s),
        s.files.contains_key(id),
    ensures
        s.blobs.dom().filter(|h: Seq<char>| h == s.files[id].hash).len() == 1,
{
    let hs = s.blobs.dom().filter(|h: Seq<char>| h == s.files[id].hash);
    assert(hs =~= set![s.files[id].hash]);
}

/// Two inserts of the same bytes under different names create exactly one
/// blob row, whose size is the length of those bytes, and both files refer
/// to it.
pub proof fn lemma_same_content_one_blob(
    s: Store,
    path1: Seq<char>,
    bucket1: Seq<char>,
    path2: Seq<char>,
    bucket2: Seq<char>,
    data: Seq<u8>,
)
    requires
        wf(s),
        !path_taken(s, path1, bucket1),
        !path_taken(s, path2, bucket2),
        path1 != path2 || bucket1 != bucket2,
        data.len() <= MAX_BLOB_SIZE,
        !s.blobs.contains_key(blake3_hex(data)),
    ensures
        ({
            let s1 = after_insert(s, path1, bucket1, data);
            let s2 = after_insert(s1, path2, bucket2, data);
            &&& !path_taken(s1, path2, bucket2)
            &&& s2.blobs == s.blobs.insert(blake3_hex(data), blob_row(data))
            &&& s2.blobs.dom().len() == s.blobs.dom().len() + 1
            &&& s2.blobs[blake3_hex(data)].size == data.len()
            &&& s2.files[next_id(s)].hash == blake3_hex(data)
            &&& s2.files[next_id(s1)].hash == blake3_hex(data)
        }),
{
    let s1 = after_insert(s, path1, bucket1, data);
    lemma_insert_keeps_wf(s, path1, bucket1, data);
    if path_taken(s1, path2, bucket2) {
        let j = choose|j: int|
            s1.files.contains_key(j) && (#[trigger] s1.files[j]).path == path2 && s1.files[j].bucket
                == bucket2;
        assert(s.files.contains_key(j) && s.files[j].path == path2 && s.files[j].bucket == bucket2);
    }
    assert(next_id(s1) != next_id(s));
}

/// Each insert hands out an id larger than every id the store ever held, and
/// no delete lowers the largest id handed out.
pub proof fn lemma_ids_increase(s: Store, path: Seq<char>, bucket: Seq<char>, data: Seq<u8>, id: int, b: Seq<char>)
    requires
        wf(s),
    ensures
        forall|k: int| #[trigger] s.files.contains_key(k) ==> k < next_id(s),
        s.last_id < next_id(s),
        after_insert(s, path, bucket, data).last_id == next_id(s),
        after_delete_file(s, id).last_id == s.last_id,
        after_delete_bucket(s, b).last_id == s.last_id,
{
}

/// Reading back a file just inserted yields exactly its bytes.
pub proof fn lemma_insert_then_read(s: Store, path: Seq<char>, bucket: Seq<char>, data: Seq<u8>)
    requires
        wf(s),
        !path_taken(s, path, bucket),
        data.len() <= MAX_BLOB_SIZE,
        no_collision(s, data),
    ensures
        after_insert(s, path, bucket, data).files.contains_key(next_id(s)),
        file_data(after_insert(s, path, bucket, data), next_id(s)) == data,
{
}

/// Insert, delete the new file, insert the same file again: the second insert
/// finds its path free, gets another id, and the blob, created by the first
/// insert and dropped by the delete, is created again.
pub proof fn lemma_reinsert_after_delete(s: Store, path: Seq<char>, bucket: Seq<char>, data: Seq<u8>)
    requires
        wf(s),
        !path_taken(s, path, bucket),
        data.len() <= MAX_BLOB_SIZE,
        !s.blobs.contains_key(blake3_hex(data)),
    ensures
        ({
            let s1 = after_insert(s, path, bucket, data);
            let s2 = after_delete_file(s1, next_id(s));
            let s3 = after_insert(s2, path, bucket, data);
            &&& wf(s2)
            &&& !path_taken(s2, path, bucket)
            &&& next_id(s2) != next_id(s)
            &&& s1.blobs.contains_key(blake3_hex(data))
            &&& !s2.blobs.contains_key(blake3_hex(data))
            &&& s3.blobs.contains_key(blake3_hex(data))
            &&& file_data(s3, next_id(s2)) == data
        }),
{
    let h = blake3_hex(data);
    let s1 = after_insert(s, path, bucket, data);
    let s2 = after_delete_file(s1, next_id(s));
    lemma_insert_keeps_wf(s, path, bucket, data);
    lemma_delete_file_keeps_wf(s1, next_id(s));
    if path_taken(s2, path, bucket) {
        let j = choose|j: int|
            s2.files.contains_key(j) && (#[trigger] s2.files[j]).path == path && s2.files[j].bucket
                == bucket;
        assert(s.files.contains_key(j) && s.files[j].path == path && s.files[j].bucket == bucket);
    }
    if s2.blobs.contains_key(h) {
        let j = choose|j: int| s2.files.contains_key(j) && (#[trigger] s2.files[j]).hash == h;
        assert(s.files.contains_key(j));
        assert(s.blobs.contains_key(s.files[j].hash));
    }
}

/// Deleting a bucket that holds no file changes nothing, counts no row, and
/// its response is 404 with both counts zero.
pub proof fn lemma_delete_empty_bucket(s: Store, bucket: Seq<char>, r: DeleteResult)
    requires
        wf(s),
        forall|id: int| #[trigger] s.files.contains_key(id) ==> s.files[id].bucket != bucket,
        r.files as int == files_removed(s, after_delete_bucket(s, bucket)),
        r.blobs as int == blobs_removed(s, after_delete_bucket(s, bucket)),
    ensures
        after_delete_bucket(s, bucket) == s,
        r == (DeleteResult { files: 0, blobs: 0 }),
        delete_status_of(r) == NOT_FOUND,
{
    let t = after_delete_bucket(s, bucket);
    assert(t.files =~= s.files);
    assert(t.blobs =~= s.blobs);
}

/// Deleting a bucket removes exactly its files, and removes a blob exactly
/// when no file of another bucket refers to it.
pub proof fn lemma_delete_bucket_exact(s: Store, bucket: Seq<char>)
    requires
        wf(s),
    ensures
        forall|id: int| #[trigger] after_delete_bucket(s, bucket).files.contains_key(id)
            <==> s.files.contains_key(id) && s.files[id].bucket != bucket,
        forall|h: Seq<char>| #[trigger] s.blobs.contains_key(h) ==> (
            after_delete_bucket(s, bucket).blobs.contains_key(h) <==> exists|id: int|
                s.files.contains_key(id) && (#[trigger] s.files[id]).hash == h && s.files[id].bucket
                    != bucket),
        files_removed(s, after_delete_bucket(s, bucket)) == s.files.dom().filter(
            |id: int| s.files[id].bucket == bucket,
        ).len(),
{
    let t = after_delete_bucket(s, bucket);
    let gone = s.files.dom().filter(|id: int| s.files[id].bucket == bucket);
    assert forall|h: Seq<char>| #[trigger] s.blobs.contains_key(h) implies (t.blobs.contains_key(h)
        <==> exists|id: int|
        s.files.contains_key(id) && (#[trigger] s.files[id]).hash == h && s.files[id].bucket
            != bucket) by {
        if t.blobs.contains_key(h) {
            let j = choose|j: int| t.files.contains_key(j) && (#[trigger] t.files[j]).hash == h;
            assert(s.files.contains_key(j) && s.files[j].hash == h && s.files[j].bucket != bucket);
        }
        if exists|id: int|
            s.files.contains_key(id) && (#[trigger] s.files[id]).hash == h && s.files[id].bucket
                != bucket {
            let j = choose|j: int|
                s.files.contains_key(j) && (#[trigger] s.files[j]).hash == h && s.files[j].bucket
                    != bucket;
            assert(t.files.contains_key(j) && t.files[j].hash == h);
        }
    }
    assert(s.files.dom() =~= t.files.dom() + gone);
    assert(t.files.dom().disjoint(gone));
    vstd::set_lib::lemma_len_subset(t.files.dom(), s.files.dom());
    vstd::set_lib::lemma_len_subset(gone, s.files.dom());
    vstd::set_lib::lemma_set_disjoint_lens(t.files.dom(), gone);
}

} // verus!
