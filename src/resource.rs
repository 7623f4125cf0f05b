//! A URL that the client extends path piece by path piece.

use vstd::prelude::*;

verus! {

/// The serialization of the URL that `url::Url::parse` makes of `s`, or
/// `None` where it refuses `s`.
pub uninterp spec fn url_parse(s: Seq<char>) -> Option<Seq<char>>;

/// The path segments that `url::Url::path_segments` gives for the URL `u`,
/// or `None` where the URL cannot be a base.
pub uninterp spec fn url_segments(u: Seq<char>) -> Option<Seq<Seq<char>>>;

/// The URL `u` after `url::Url::set_path(path)`.
pub uninterp spec fn url_with_path(u: Seq<char>, path: Seq<char>) -> Seq<char>;

/// What `url::Url::join` makes of `path` relative to `u`, or `None` where it
/// refuses it.
pub uninterp spec fn url_joined(u: Seq<char>, path: Seq<char>) -> Option<Seq<char>>;

/// Above this length the URL is not changed: setting a path keeps a URL's
/// length within 32 bits.
pub const URL_LIMIT: usize = 0x1000_0000;

/// Relies on `url::Url::parse` and the URL's serialization.
#[verifier::external_body]
fn parse_url(s: &str) -> (r: Option<String>)
    ensures
        r is None <==> url_parse(s@) is None,
        r matches Some(u) ==> url_parse(s@) == Some(u@),
{
    url::Url::parse(s).ok().map(String::from)
}

/// Relies on `url::Url::path_segments`, on the URL that `u` serializes.
#[verifier::external_body]
fn path_segments(u: &str) -> (r: Option<Vec<String>>)
    ensures
        r is None <==> url_segments(u@) is None,
        r matches Some(v) ==> url_segments(u@) == Some(v@.map_values(|x: String| x@)),
{
    let url = url::Url::parse(u).ok()?;
    url.path_segments().map(|s| s.map(String::from).collect())
}

/// Relies on `url::Url::set_path`, on the URL that `u` serializes.
#[verifier::external_body]
fn set_path(u: &str, path: &str) -> (r: String)
    requires
        u@.len() + path@.len() <= URL_LIMIT,
    ensures
        r@ == url_with_path(u@, path@),
{
    match url::Url::parse(u) {
        Ok(mut url) => {
            url.set_path(path);
            url.into()
        },
        Err(_) => u.to_string(),
    }
}

/// Relies on `url::Url::join`, on the URL that `u` serializes.
#[verifier::external_body]
fn join(u: &str, path: &str) -> (r: Option<String>)
    ensures
        r is None <==> url_joined(u@, path@) is None,
        r matches Some(j) ==> url_joined(u@, path@) == Some(j@),
{
    match url::Url::parse(u) {
        Ok(url) => url.join(path).ok().map(String::from),
        Err(_) => None,
    }
}

/// The non-empty pieces, each followed by a slash.
pub open spec fn pieces_joined(segs: Seq<Seq<char>>) -> Seq<char>
    decreases segs.len(),
{
    if segs.len() == 0 {
        Seq::empty()
    } else {
        let r = pieces_joined(segs.drop_last());
        if segs.last().len() == 0 {
            r
        } else {
            r + segs.last() + seq!['/']
        }
    }
}

/// `s` with each run of slashes reduced to one slash after the piece before
/// it; slashes before the first piece are dropped.
pub open spec fn squeeze(s: Seq<char>) -> Seq<char>
    decreases s.len(),
{
    if s.len() == 0 {
        Seq::empty()
    } else {
        let r = squeeze(s.drop_last());
        if s.last() != '/' {
            r.push(s.last())
        } else if s.len() >= 2 && s[s.len() - 2] != '/' {
            r.push('/')
        } else {
            r
        }
    }
}

/// `s` ends with a slash.
pub open spec fn ends_with_slash(s: Seq<char>) -> bool {
    s.len() > 0 && s.last() == '/'
}

/// The non-empty pieces of `s` between slashes, each followed by a slash.
pub open spec fn slash_terminated(s: Seq<char>) -> Seq<char> {
    if s.len() > 0 && s.last() != '/' {
        squeeze(s).push('/')
    } else {
        squeeze(s)
    }
}

/// The path made of the existing segments followed by the pieces of `path`:
/// it ends with a slash only where `path` does.
pub open spec fn new_path(segs: Seq<Seq<char>>, path: Seq<char>) -> Seq<char> {
    let p = pieces_joined(segs) + slash_terminated(path);
    if ends_with_slash(path) || p.len() == 0 {
        p
    } else {
        p.drop_last()
    }
}

/// The URL `u` with `path` appended.
pub open spec fn appended(u: Seq<char>, path: Seq<char>) -> Seq<char> {
    match url_segments(u) {
        Some(segs) => if u.len() + new_path(segs, path).len() <= URL_LIMIT {
            url_with_path(u, new_path(segs, path))
        } else {
            u
        },
        None => match url_joined(u, path) {
            Some(j) => j,
            None => u,
        },
    }
}

/// Joins the non-empty segments, each followed by a slash.
fn join_segments(segs: &Vec<String>) -> (r: String)
    ensures
        r@ == pieces_joined(segs@.map_values(|x: String| x@)),
{
    let ghost view = segs@.map_values(|x: String| x@);
    let mut r = String::new();
    let mut i: usize = 0;
    proof {
        reveal_strlit("/");
    }
    while i < segs.len()
        invariant
            i <= segs@.len(),
            view == segs@.map_values(|x: String| x@),
            "/"@ == seq!['/'],
            r@ == pieces_joined(view.subrange(0, i as int)),
        decreases segs@.len() - i,
    {
        assert(view.subrange(0, i as int + 1).drop_last() == view.subrange(0, i as int));
        let seg = segs[i].as_str();
        assert(seg@ == view[i as int]);
        assert(view.subrange(0, i as int + 1).last() == view[i as int]);
        if seg.unicode_len() > 0 {
            r.append(seg);
            r.append("/");
        }
        i = i + 1;
    }
    assert(view.subrange(0, segs@.len() as int) == view);
    r
}

/// The pieces of `path`, each followed by a slash.
fn path_pieces(path: &str) -> (r: String)
    ensures
        r@ == slash_terminated(path@),
{
    let n = path.unicode_len();
    let mut r = String::new();
    let mut i: usize = 0;
    proof {
        reveal_strlit("/");
    }
    while i < n
        invariant
            n == path@.len(),
            i <= n,
            "/"@ == seq!['/'],
            r@ == squeeze(path@.subrange(0, i as int)),
        decreases n - i,
    {
        let ghost prefix = path@.subrange(0, i as int + 1);
        assert(prefix.drop_last() == path@.subrange(0, i as int));
        assert(prefix.last() == path@[i as int]);
        assert(i >= 1 ==> prefix[prefix.len() - 2] == path@[i - 1]);
        let c = path.get_char(i);
        if c != '/' {
            r.append(path.substring_char(i, i + 1));
            assert(path@.subrange(i as int, i as int + 1) == seq![c]);
        } else if i >= 1 && path.get_char(i - 1) != '/' {
            r.append("/");
        }
        i = i + 1;
    }
    assert(path@.subrange(0, n as int) == path@);
    if n > 0 && path.get_char(n - 1) != '/' {
        r.append("/");
    }
    r
}

/// A URL held as its serialization.
pub struct Resource {
    url: String,
}

impl Resource {
    /// The serialization of the URL.
    pub closed spec fn spec_url(&self) -> Seq<char> {
        self.url@
    }

    /// The resource for `uri`, or `None` where it is not an absolute URL.
    pub fn new(uri: &str) -> (r: Option<Resource>)
        ensures
            r is None <==> url_parse(uri@) is None,
            r matches Some(res) ==> url_parse(uri@) == Some(res.spec_url()),
    {
        match parse_url(uri) {
            Some(url) => Some(Resource { url }),
            None => None,
        }
    }

    /// Appends the pieces of `path` between slashes to the URL's path,
    /// skipping empty pieces; the result ends with a slash only where `path`
    /// does. A URL that cannot be a base is joined with `path` instead, and
    /// kept where the join fails.
    pub fn append_path(&mut self, path: &str) -> (r: &mut Self)
        ensures
            r.spec_url() == appended(old(self).spec_url(), path@),
            *final(self) == *final(r),
    {
        match path_segments(self.url.as_str()) {
            Some(segs) => {
                let ghost old_url = self.url@;
                let ghost segs_view = segs@.map_values(|x: String| x@);
                let mut p = join_segments(&segs);
                let tail = path_pieces(path);
                p.append(tail.as_str());
                let n = path.unicode_len();
                let plen = p.as_str().unicode_len();
                let keep_slash = n > 0 && path.get_char(n - 1) == '/';
                assert(p@ == pieces_joined(segs_view) + slash_terminated(path@));
                assert(keep_slash == ends_with_slash(path@));
                let to_set = if keep_slash || plen == 0 {
                    p
                } else {
                    String::from_str(p.as_str().substring_char(0, plen - 1))
                };
                assert(to_set@ == new_path(segs_view, path@));
                let ulen = self.url.as_str().unicode_len();
                let tlen = to_set.as_str().unicode_len();
                if tlen <= URL_LIMIT && ulen <= URL_LIMIT - tlen {
                    self.url = set_path(self.url.as_str(), to_set.as_str());
                }
            },
            None => {
                if let Some(j) = join(self.url.as_str(), path) {
                    self.url = j;
                }
            },
        }
        self
    }

    /// The URL as text.
    pub fn to_string(&self) -> (r: String)
        ensures
            r@ == self.spec_url(),
    {
        self.url.clone()
    }
}

} // verus!
