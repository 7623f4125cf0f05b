//! Reads the entries of a zip archive held in memory, for a batch insert.

use vstd::prelude::*;

verus! {

#[verifier::external_type_specification]
#[verifier::external_body]
#[verifier::reject_recursive_types(T)]
pub struct ExCursor<T>(std::io::Cursor<T>);

#[verifier::external_type_specification]
#[verifier::external_body]
#[verifier::reject_recursive_types(R)]
pub struct ExZipArchive<R>(zip::ZipArchive<R>);

/// An archive read from bytes in memory.
pub type Archive = zip::ZipArchive<std::io::Cursor<Vec<u8>>>;

/// One entry as the archive yields it: `None` where it cannot be read, else
/// its sanitized name (`None` where that is not text) and its bytes.
pub type EntryView = Option<(Option<Seq<char>>, Seq<u8>)>;

/// The entries of an archive, by index.
pub uninterp spec fn zip_entries(a: Archive) -> Seq<EntryView>;

/// The entries that `zip::ZipArchive::new` finds in `data`, or `None` where
/// it cannot read `data` as an archive.
pub uninterp spec fn zip_read(data: Seq<u8>) -> Option<Seq<EntryView>>;

/// Relies on `zip::ZipArchive::new`: reads the central directory of `data`.
/// The error becomes its message.
#[verifier::external_body]
fn open_archive(data: Vec<u8>) -> (r: Result<Archive, String>)
    ensures
        r is Err <==> zip_read(data@) is None,
        r matches Ok(a) ==> zip_read(data@) == Some(zip_entries(a)),
{
    zip::ZipArchive::new(std::io::Cursor::new(data)).map_err(|e| e.to_string())
}

/// Relies on `zip::ZipArchive::len`: the number of entries.
#[verifier::external_body]
fn archive_len(a: &Archive) -> (r: usize)
    ensures
        r == zip_entries(*a).len(),
{
    a.len()
}

/// Relies on `zip::ZipArchive::by_index`, `ZipFile::mangled_name` and the
/// copy of the entry's bytes: entry `i` as plain values.
#[verifier::external_body]
fn read_entry(a: &mut Archive, i: usize) -> (r: Option<(Option<String>, Vec<u8>)>)
    requires
        i < zip_entries(*old(a)).len(),
    ensures
        zip_entries(*final(a)) == zip_entries(*old(a)),
        r is None <==> zip_entries(*old(a))[i as int] is None,
        r matches Some((name, bytes)) ==> zip_entries(*old(a))[i as int] matches Some((n, b)) && b
            == bytes@ && (name is None <==> n is None) && (name matches Some(t) ==> n == Some(t@)),
{
    let mut entry = a.by_index(i).ok()?;
    let name = entry.mangled_name().to_str().map(String::from);
    let mut bytes: Vec<u8> = Vec::new();
    std::io::copy(&mut entry, &mut bytes).ok()?;
    Some((name, bytes))
}

/// An entry is stored when it can be read and its name is non-empty text.
pub open spec fn kept(e: EntryView) -> bool {
    e matches Some((Some(name), _)) && name.len() > 0
}

/// The `(path, bytes)` pairs of the stored entries, in archive order.
pub open spec fn kept_entries(entries: Seq<EntryView>) -> Seq<(Seq<char>, Seq<u8>)>
    decreases entries.len(),
{
    if entries.len() == 0 {
        Seq::empty()
    } else {
        let rest = kept_entries(entries.drop_last());
        if kept(entries.last()) {
            rest.push((entries.last()->Some_0.0->Some_0, entries.last()->Some_0.1))
        } else {
            rest
        }
    }
}

/// The view of extracted pairs.
pub open spec fn pairs_view(v: Seq<(String, Vec<u8>)>) -> Seq<(Seq<char>, Seq<u8>)> {
    v.map_values(|e: (String, Vec<u8>)| (e.0@, e.1@))
}

/// The stored entries of the archive in `data`: each readable entry with a
/// non-empty textual name, in order; the other entries are skipped. Fails,
/// with the reader's message, only where `data` is not an archive.
pub fn extract_entries(data: Vec<u8>) -> (r: Result<Vec<(String, Vec<u8>)>, String>)
    ensures
        r is Err <==> zip_read(data@) is None,
        r matches Ok(v) ==> pairs_view(v@) == kept_entries(zip_read(data@)->Some_0),
{
    let ghost bytes = data@;
    let mut archive = match open_archive(data) {
        Ok(a) => a,
        Err(e) => return Err(e),
    };
    let ghost entries = zip_entries(archive);
    let n = archive_len(&archive);
    let mut out: Vec<(String, Vec<u8>)> = Vec::new();
    let mut i: usize = 0;
    while i < n
        invariant
            n == entries.len(),
            i <= n,
            zip_entries(archive) == entries,
            zip_read(bytes) == Some(entries),
            pairs_view(out@) == kept_entries(entries.subrange(0, i as int)),
        decreases n - i,
    {
        let ghost prefix = entries.subrange(0, i as int + 1);
        assert(prefix.drop_last() == entries.subrange(0, i as int));
        assert(prefix.last() == entries[i as int]);
        match read_entry(&mut archive, i) {
            Some((Some(name), bytes)) => {
                if name.as_str().unicode_len() > 0 {
                    let ghost before = out@;
                    out.push((name, bytes));
                    assert(pairs_view(out@) == pairs_view(before).push((out@.last().0@, out@.last().1@)));
                }
            },
            _ => {},
        }
        i = i + 1;
    }
    assert(entries.subrange(0, n as int) == entries);
    Ok(out)
}

} // verus!
