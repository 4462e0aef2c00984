//! Layout of the output directory: where each post's files go.
use vstd::prelude::*;
use crate::config::FileNaming;
use crate::paths::{join, path_join};
use crate::text::{
    chars_of, is_alphanumeric, is_whitespace, push_char, push_str, unicode_alphanumeric,
    unicode_whitespace,
};

verus! {

/// The longest file name stem, in characters, that sanitizing keeps.
pub const MAX_FILENAME_CHARS: usize = 100;

/// Computes the paths of downloaded files under a base directory.
pub struct OutputManager {
    base_dir: String,
    file_naming: FileNaming,
}

/// A character that may stay in a file name unchanged.
pub open spec fn filename_safe_char(c: char) -> bool {
    unicode_alphanumeric(c) || c == '-' || c == '_' || c == ' '
}

/// Each character is kept when safe and otherwise replaced by `_`.
pub open spec fn sanitize_char(c: char) -> char {
    if filename_safe_char(c) {
        c
    } else {
        '_'
    }
}

/// `str::trim_start`: leading white space removed.
pub open spec fn trim_start_ws(s: Seq<char>) -> Seq<char>
    decreases s.len(),
{
    if s.len() > 0 && unicode_whitespace(s[0]) {
        trim_start_ws(s.drop_first())
    } else {
        s
    }
}

/// `str::trim_end`: trailing white space removed.
pub open spec fn trim_end_ws(s: Seq<char>) -> Seq<char>
    decreases s.len(),
{
    if s.len() > 0 && unicode_whitespace(s.last()) {
        trim_end_ws(s.drop_last())
    } else {
        s
    }
}

/// `str::trim`.
pub open spec fn trim_ws(s: Seq<char>) -> Seq<char> {
    trim_start_ws(trim_end_ws(s))
}

/// The first `n` characters of `s`, or all of them when there are fewer.
pub open spec fn take_at_most(s: Seq<char>, n: nat) -> Seq<char> {
    if s.len() <= n {
        s
    } else {
        s.take(n as int)
    }
}

/// The sanitized file name stem: unsafe characters replaced by `_`, white
/// space trimmed from both ends, and at most 100 characters kept.
pub open spec fn sanitized(s: Seq<char>) -> Seq<char> {
    take_at_most(trim_ws(s.map_values(|c: char| sanitize_char(c))), MAX_FILENAME_CHARS as nat)
}

/// The file name of a post's file under a naming scheme.
pub open spec fn file_name(
    naming: FileNaming,
    post_id: Seq<char>,
    title: Option<Seq<char>>,
    ext: Seq<char>,
) -> Seq<char> {
    match naming {
        FileNaming::Id => post_id + "."@ + ext,
        FileNaming::Title => sanitized(
            match title {
                Some(t) => t,
                None => post_id,
            },
        ) + "."@ + ext,
        FileNaming::IdTitle => {
            let t = sanitized(
                match title {
                    Some(t) => t,
                    None => Seq::empty(),
                },
            );
            if t.len() == 0 {
                post_id + "."@ + ext
            } else {
                post_id + "-"@ + t + "."@ + ext
            }
        },
    }
}

/// An optional string slice, by its view.
pub open spec fn opt_str_view(o: Option<&str>) -> Option<Seq<char>> {
    match o {
        Some(s) => Some(s@),
        None => None,
    }
}

/// `{base}/{source_type}/{source_name}`.
pub open spec fn source_dir_spec(base: Seq<char>, source_type: Seq<char>, source_name: Seq<char>) -> Seq<
    char,
> {
    join(join(base, source_type), source_name)
}

proof fn lemma_trim_start_shrinks(s: Seq<char>)
    ensures
        trim_start_ws(s).len() <= s.len(),
        trim_start_ws(s) == s.skip(s.len() - trim_start_ws(s).len()),
    decreases s.len(),
{
    if s.len() > 0 && unicode_whitespace(s[0]) {
        lemma_trim_start_shrinks(s.drop_first());
        let t = trim_start_ws(s.drop_first());
        assert(s.drop_first().skip(s.drop_first().len() - t.len()) == s.skip(s.len() - t.len()));
    } else {
        assert(s.skip(0) == s);
    }
}

proof fn lemma_trim_end_shrinks(s: Seq<char>)
    ensures
        trim_end_ws(s).len() <= s.len(),
        trim_end_ws(s) == s.take(trim_end_ws(s).len() as int),
    decreases s.len(),
{
    if s.len() > 0 && unicode_whitespace(s.last()) {
        lemma_trim_end_shrinks(s.drop_last());
        let t = trim_end_ws(s.drop_last());
        assert(s.drop_last().take(t.len() as int) == s.take(t.len() as int));
    } else {
        assert(s.take(s.len() as int) == s);
    }
}

/// Every character of a sanitized name is a safe one.
pub proof fn lemma_sanitized_safe(s: Seq<char>)
    ensures
        sanitized(s).len() <= MAX_FILENAME_CHARS,
        forall|i: int| 0 <= i < sanitized(s).len() ==> filename_safe_char(#[trigger] sanitized(s)[i]),
{
    let m = s.map_values(|c: char| sanitize_char(c));
    assert forall|i: int| 0 <= i < m.len() implies filename_safe_char(#[trigger] m[i]) by {}
    lemma_trim_end_shrinks(m);
    let e = trim_end_ws(m);
    lemma_trim_start_shrinks(e);
    let t = trim_start_ws(e);
    assert forall|i: int| 0 <= i < t.len() implies filename_safe_char(#[trigger] t[i]) by {
        assert(t[i] == e[e.len() - t.len() + i]);
        assert(e[e.len() - t.len() + i] == m[e.len() - t.len() + i]);
    }
}

/// Sanitizes a string for use as a file name: characters other than
/// alphanumerics, `-`, `_` and space become `_`, surrounding white space is
/// trimmed, and at most 100 characters are kept.
pub fn sanitize_filename(name: &str) -> (r: String)
    ensures
        r@ == sanitized(name@),
        r@.len() <= MAX_FILENAME_CHARS,
        forall|i: int| 0 <= i < r@.len() ==> filename_safe_char(#[trigger] r@[i]),
{
    let cs = chars_of(name);
    // map
    let mut m: Vec<char> = Vec::new();
    let mut i: usize = 0;
    while i < cs.len()
        invariant
            i <= cs.len(),
            m@ == cs@.take(i as int).map_values(|c: char| sanitize_char(c)),
        decreases cs.len() - i,
    {
        let c = cs[i];
        let safe = is_alphanumeric(c) || c == '-' || c == '_' || c == ' ';
        let out = if safe {
            c
        } else {
            '_'
        };
        m.push(out);
        assert(cs@.take(i + 1).map_values(|c: char| sanitize_char(c)) == cs@.take(i as int).map_values(
            |c: char| sanitize_char(c),
        ).push(sanitize_char(cs@[i as int])));
        i = i + 1;
    }
    assert(cs@.take(cs.len() as int) == cs@);
    // trim the end
    let mut hi = m.len();
    assert(m@.take(hi as int) == m@);
    while hi > 0 && is_whitespace(m[hi - 1])
        invariant
            hi <= m.len(),
            trim_end_ws(m@) == trim_end_ws(m@.take(hi as int)),
        decreases hi,
    {
        assert(m@.take(hi as int).drop_last() == m@.take(hi - 1));
        hi = hi - 1;
    }
    proof {
        if hi > 0 {
            assert(m@.take(hi as int).last() == m@[hi - 1]);
        }
    }
    // trim the start
    let mut lo: usize = 0;
    assert(m@.take(hi as int).skip(0) == m@.take(hi as int));
    while lo < hi && is_whitespace(m[lo])
        invariant
            lo <= hi <= m.len(),
            trim_ws(m@) == trim_start_ws(m@.subrange(lo as int, hi as int)),
        decreases hi - lo,
    {
        assert(m@.subrange(lo as int, hi as int).drop_first() == m@.subrange(lo + 1, hi as int));
        lo = lo + 1;
    }
    proof {
        if lo < hi {
            assert(m@.subrange(lo as int, hi as int)[0] == m@[lo as int]);
        }
    }
    let ghost t = m@.subrange(lo as int, hi as int);
    assert(trim_ws(m@) == t);
    // keep at most 100 characters
    let end = if hi - lo <= MAX_FILENAME_CHARS {
        hi
    } else {
        lo + MAX_FILENAME_CHARS
    };
    let mut r = String::new();
    let mut k = lo;
    while k < end
        invariant
            lo <= k <= end <= hi <= m.len(),
            r@ == m@.subrange(lo as int, k as int),
        decreases end - k,
    {
        push_char(&mut r, m[k]);
        assert(m@.subrange(lo as int, k + 1) == m@.subrange(lo as int, k as int).push(m@[k as int]));
        k = k + 1;
    }
    assert(r@ == take_at_most(t, MAX_FILENAME_CHARS as nat));
    proof {
        lemma_sanitized_safe(name@);
    }
    r
}

impl OutputManager {
    /// The base directory.
    pub closed spec fn base(&self) -> Seq<char> {
        self.base_dir@
    }

    /// The naming scheme.
    pub closed spec fn naming(&self) -> FileNaming {
        self.file_naming
    }

    /// A manager rooted at `base_dir` naming files by `file_naming`.
    pub fn new(base_dir: String, file_naming: FileNaming) -> (r: Self)
        ensures
            r.base() == base_dir@,
            r.naming() == file_naming,
    {
        OutputManager { base_dir, file_naming }
    }

    /// The directory of a source, `{base}/{source_type}/{source_name}`.
    pub fn source_dir(&self, source_type: &str, source_name: &str) -> (r: String)
        ensures
            r@ == source_dir_spec(self.base(), source_type@, source_name@),
    {
        let d = path_join(self.base_dir.as_str(), source_type);
        path_join(d.as_str(), source_name)
    }

    /// The path of a post's file with the given extension.
    pub fn post_path(
        &self,
        source_type: &str,
        source_name: &str,
        post_id: &str,
        title: Option<&str>,
        extension: &str,
    ) -> (r: String)
        ensures
            r@ == join(
                source_dir_spec(self.base(), source_type@, source_name@),
                file_name(self.naming(), post_id@, opt_str_view(title), extension@),
            ),
    {
        let dir = self.source_dir(source_type, source_name);
        let mut filename = String::new();
        proof {
            reveal_strlit(".");
            reveal_strlit("-");
        }
        match self.file_naming {
            FileNaming::Id => {
                push_str(&mut filename, post_id);
            },
            FileNaming::Title => {
                let t = match title {
                    Some(t) => t,
                    None => post_id,
                };
                let safe = sanitize_filename(t);
                push_str(&mut filename, safe.as_str());
            },
            FileNaming::IdTitle => {
                let t = match title {
                    Some(t) => t,
                    None => "",
                };
                proof {
                    reveal_strlit("");
                }
                let safe = sanitize_filename(t);
                push_str(&mut filename, post_id);
                if safe.as_str().unicode_len() > 0 {
                    push_char(&mut filename, '-');
                    push_str(&mut filename, safe.as_str());
                }
            },
        }
        push_char(&mut filename, '.');
        push_str(&mut filename, extension);
        path_join(dir.as_str(), filename.as_str())
    }

    /// The directory holding a gallery post's images, `{source dir}/{id}_gallery`.
    pub fn gallery_dir(&self, source_type: &str, source_name: &str, post_id: &str) -> (r: String)
        ensures
            r@ == join(
                source_dir_spec(self.base(), source_type@, source_name@),
                post_id@ + "_gallery"@,
            ),
    {
        let dir = self.source_dir(source_type, source_name);
        let mut name = String::new();
        push_str(&mut name, post_id);
        push_str(&mut name, "_gallery");
        path_join(dir.as_str(), name.as_str())
    }

    /// The path of the sync database, `{base}/reddit-dl.db`.
    pub fn db_path(&self) -> (r: String)
        ensures
            r@ == join(self.base(), "reddit-dl.db"@),
    {
        path_join(self.base_dir.as_str(), "reddit-dl.db")
    }
}

/// Under the `Id` scheme the title plays no part in a file's name, and under
/// every scheme the name ends with the extension.
pub proof fn lemma_file_name_shape(
    naming: FileNaming,
    post_id: Seq<char>,
    t1: Option<Seq<char>>,
    t2: Option<Seq<char>>,
    ext: Seq<char>,
)
    ensures
        file_name(FileNaming::Id, post_id, t1, ext) == file_name(FileNaming::Id, post_id, t2, ext),
        file_name(naming, post_id, t1, ext).len() > ext.len(),
        file_name(naming, post_id, t1, ext).skip(
            file_name(naming, post_id, t1, ext).len() - ext.len() - 1,
        ) == "."@ + ext,
{
    reveal_strlit(".");
    let f = file_name(naming, post_id, t1, ext);
    let stem = match naming {
        FileNaming::Id => post_id,
        FileNaming::Title => sanitized(
            match t1 {
                Some(t) => t,
                None => post_id,
            },
        ),
        FileNaming::IdTitle => {
            let t = sanitized(
                match t1 {
                    Some(t) => t,
                    None => Seq::empty(),
                },
            );
            if t.len() == 0 {
                post_id
            } else {
                post_id + "-"@ + t
            }
        },
    };
    assert(f == stem + ("."@ + ext));
    assert(f.skip(f.len() - ext.len() - 1) == "."@ + ext);
}

/// Under `IdTitle` a title whose sanitized form is non-empty names the file
/// `{id}-{sanitized title}.{ext}`, and an empty one (or none) names it
/// `{id}.{ext}`. Every character between the id's `-` and the extension's
/// `.` is then a letter or digit, `-`, `_` or a space, so a title cannot add a
/// directory or change the extension, and there are at most 100 of them.
pub proof fn lemma_id_title_file_name(post_id: Seq<char>, title: Option<Seq<char>>, ext: Seq<char>)
    ensures
        ({
            let t = match title {
                Some(t) => sanitized(t),
                None => Seq::empty(),
            };
            &&& t.len() > 0 ==> file_name(FileNaming::IdTitle, post_id, title, ext) == post_id + "-"@
                + t + "."@ + ext
            &&& t.len() == 0 ==> file_name(FileNaming::IdTitle, post_id, title, ext) == post_id
                + "."@ + ext
            &&& t.len() <= MAX_FILENAME_CHARS
            &&& forall|i: int|
                0 <= i < t.len() ==> {
                    let c = #[trigger] file_name(FileNaming::IdTitle, post_id, title, ext)[post_id.len()
                        + 1 + i];
                    unicode_alphanumeric(c) || c == '-' || c == '_' || c == ' '
                }
        }),
{
    reveal_strlit("");
    let t = match title {
        Some(x) => sanitized(x),
        None => Seq::<char>::empty(),
    };
    match title {
        Some(x) => lemma_sanitized_safe(x),
        None => {},
    }
    let f = file_name(FileNaming::IdTitle, post_id, title, ext);
    if t.len() > 0 {
        assert(f == post_id + "-"@ + t + "."@ + ext);
        assert forall|i: int| 0 <= i < t.len() implies ({
            let c = #[trigger] f[post_id.len() + 1 + i];
            unicode_alphanumeric(c) || c == '-' || c == '_' || c == ' '
        }) by {
            reveal_strlit("-");
            assert(f[post_id.len() + 1 + i] == t[i]);
            assert(filename_safe_char(t[i]));
        }
    }
}

/// Under `Title` the file is named `{sanitized title}.{ext}`, the id standing
/// in for a missing title, and its stem holds only letters or digits, `-`,
/// `_` and spaces.
pub proof fn lemma_title_file_name(post_id: Seq<char>, title: Option<Seq<char>>, ext: Seq<char>)
    ensures
        ({
            let t = sanitized(
                match title {
                    Some(t) => t,
                    None => post_id,
                },
            );
            &&& file_name(FileNaming::Title, post_id, title, ext) == t + "."@ + ext
            &&& forall|i: int|
                0 <= i < t.len() ==> {
                    let c = #[trigger] file_name(FileNaming::Title, post_id, title, ext)[i];
                    unicode_alphanumeric(c) || c == '-' || c == '_' || c == ' '
                }
        }),
{
    let x = match title {
        Some(t) => t,
        None => post_id,
    };
    lemma_sanitized_safe(x);
    let t = sanitized(x);
    let f = file_name(FileNaming::Title, post_id, title, ext);
    assert forall|i: int| 0 <= i < t.len() implies ({
        let c = #[trigger] f[i];
        unicode_alphanumeric(c) || c == '-' || c == '_' || c == ' '
    }) by {
        assert(f[i] == t[i]);
        assert(filename_safe_char(t[i]));
    }
}

/// Sanitizing keeps exactly the characters that are letters or digits, `-`,
/// `_` or spaces and puts `_` in place of each other one, before trimming and
/// cutting: a title of safe characters without surrounding white space, at
/// most 100 long, is kept as it is.
pub proof fn lemma_sanitized_keeps_safe_titles(s: Seq<char>)
    requires
        s.len() <= MAX_FILENAME_CHARS,
        forall|i: int| 0 <= i < s.len() ==> filename_safe_char(#[trigger] s[i]),
        s.len() > 0 ==> !unicode_whitespace(s[0]) && !unicode_whitespace(s.last()),
    ensures
        sanitized(s) == s,
{
    let m = s.map_values(|c: char| sanitize_char(c));
    assert(m =~= s);
    assert(trim_end_ws(s) == s);
    assert(trim_start_ws(s) == s);
}

} // verus!
