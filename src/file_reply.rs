//! A file download: the bytes and the headers that describe them.

use vstd::prelude::*;
use crate::domain::File;

verus! {

/// A path separator: forward or backward slash.
pub open spec fn is_separator(c: char) -> bool {
    c == '/' || c == '\\'
}

/// `k` is where the last component of `path` starts: right after its last
/// separator, or at the start when there is none.
pub open spec fn is_name_start(path: Seq<char>, k: int) -> bool {
    &&& 0 <= k <= path.len()
    &&& (k == 0 || is_separator(path[k - 1]))
    &&& forall|j: int| k <= j < path.len() ==> !is_separator(#[trigger] path[j])
}

/// `name` is the last component of `path`.
pub open spec fn is_base_name(path: Seq<char>, name: Seq<char>) -> bool {
    exists|k: int| is_name_start(path, k) && name == path.subrange(k, path.len() as int)
}

/// A path has one last component.
pub proof fn lemma_base_name_unique(path: Seq<char>, a: Seq<char>, b: Seq<char>)
    requires
        is_base_name(path, a),
        is_base_name(path, b),
    ensures
        a == b,
{
    let ka = choose|k: int| is_name_start(path, k) && a == path.subrange(k, path.len() as int);
    let kb = choose|k: int| is_name_start(path, k) && b == path.subrange(k, path.len() as int);
    if ka < kb {
        assert(!is_separator(path[kb - 1]));
    } else if kb < ka {
        assert(!is_separator(path[ka - 1]));
    }
}

/// The bytes of a stored file together with its metadata.
pub struct FileReply {
    data: Vec<u8>,
    file: File,
}

impl FileReply {
    pub closed spec fn spec_data(&self) -> Seq<u8> {
        self.data@
    }

    pub closed spec fn spec_file(&self) -> File {
        self.file
    }

    pub fn new(data: Vec<u8>, file: File) -> (r: FileReply)
        ensures
            r.spec_data() == data@,
            r.spec_file() == file,
    {
        FileReply { data, file }
    }

    /// The file name offered to the client: the part of the path after its
    /// last forward or backward slash, or the whole path.
    pub fn name_from_path(&self) -> (r: &str)
        ensures
            is_base_name(self.spec_file().path@, r@),
    {
        let path = self.file.path.as_str();
        let len = path.unicode_len();
        let mut k: usize = len;
        while k > 0 && path.get_char(k - 1) != '/' && path.get_char(k - 1) != '\\'
            invariant
                len == path@.len(),
                k <= len,
                forall|j: int| k <= j < len ==> !is_separator(#[trigger] path@[j]),
            decreases k,
        {
            k = k - 1;
        }
        let name = path.substring_char(k, len);
        assert(is_name_start(path@, k as int));
        name
    }

    /// The `Content-Disposition` header: an attachment with the file name.
    pub fn content_disposition(&self) -> (r: String)
        ensures
            exists|name: Seq<char>|
                is_base_name(self.spec_file().path@, name) && r@ == "attachment; filename=\""@
                    + name + "\""@,
    {
        let name = self.name_from_path();
        let mut r = String::from_str("attachment; filename=\"");
        r.append(name);
        r.append("\"");
        r
    }

    /// The `Content-Length` header: the size recorded for the blob.
    pub fn content_length(&self) -> (r: usize)
        ensures
            r == self.spec_file().size,
    {
        self.file.size
    }

    /// The file's metadata.
    pub fn file(&self) -> (r: &File)
        ensures
            *r == self.spec_file(),
    {
        &self.file
    }

    /// The body of the response.
    pub fn into_data(self) -> (r: Vec<u8>)
        ensures
            r@ == self.spec_data(),
    {
        self.data
    }
}

} // verus!
