//! The sources of posts and the decisions made while fetching them.
use vstd::prelude::*;
use crate::config::SourcesConfig;
use crate::post::Post;
use crate::text::{chars_of, eq_str, starts_with, starts_with_str, string_of};

pub mod follows;
pub mod friends;
pub mod subreddit;

verus! {

/// A source to sync, as named on the command line or in the configuration.
#[derive(Debug, Clone)]
pub enum SourceSpec {
    /// The friends of the user.
    Friends(String),
    /// The users the user follows.
    Follows(String),
    /// The posts the user saved.
    Saved(String),
    /// The posts of one user.
    User(String),
    /// The posts of one subreddit.
    Subreddit(String),
}

/// A [`SourceSpec`] by its characters.
pub enum SourceKind {
    Friends(Seq<char>),
    Follows(Seq<char>),
    Saved(Seq<char>),
    User(Seq<char>),
    Subreddit(Seq<char>),
}

impl View for SourceSpec {
    type V = SourceKind;

    open spec fn view(&self) -> SourceKind {
        match self {
            SourceSpec::Friends(u) => SourceKind::Friends(u@),
            SourceSpec::Follows(u) => SourceKind::Follows(u@),
            SourceSpec::Saved(u) => SourceKind::Saved(u@),
            SourceSpec::User(u) => SourceKind::User(u@),
            SourceSpec::Subreddit(s) => SourceKind::Subreddit(s@),
        }
    }
}

/// The source a `--source` argument names: `user:X`, `subreddit:X`,
/// `friends`, `follows` or `saved`; anything else names none.
pub open spec fn source_named(arg: Seq<char>, username: Seq<char>) -> Option<SourceKind> {
    if starts_with(arg, "user:"@) {
        Some(SourceKind::User(arg.skip(5)))
    } else if starts_with(arg, "subreddit:"@) {
        Some(SourceKind::Subreddit(arg.skip(10)))
    } else if arg == "friends"@ {
        Some(SourceKind::Friends(username))
    } else if arg == "follows"@ {
        Some(SourceKind::Follows(username))
    } else if arg == "saved"@ {
        Some(SourceKind::Saved(username))
    } else {
        None
    }
}

/// Reads one `--source` argument.
pub fn parse_source_spec(arg: &str, username: &str) -> (r: Option<SourceSpec>)
    ensures
        match r {
            Some(s) => source_named(arg@, username@) == Some(s@),
            None => source_named(arg@, username@) is None,
        },
{
    let a = chars_of(arg);
    proof {
        reveal_strlit("user:");
        reveal_strlit("subreddit:");
    }
    if starts_with_str(&a, "user:") {
        let rest = string_of(&a, 5, a.len());
        assert(a@.subrange(5, a@.len() as int) == a@.skip(5));
        return Some(SourceSpec::User(rest));
    }
    if starts_with_str(&a, "subreddit:") {
        let rest = string_of(&a, 10, a.len());
        assert(a@.subrange(10, a@.len() as int) == a@.skip(10));
        return Some(SourceSpec::Subreddit(rest));
    }
    if eq_str(arg, "friends") {
        Some(SourceSpec::Friends(String::from_str(username)))
    } else if eq_str(arg, "follows") {
        Some(SourceSpec::Follows(String::from_str(username)))
    } else if eq_str(arg, "saved") {
        Some(SourceSpec::Saved(String::from_str(username)))
    } else {
        None
    }
}

/// The sources the `--source` arguments name, in order, skipping unknown ones.
pub open spec fn named_sources(args: Seq<Seq<char>>, username: Seq<char>) -> Seq<SourceKind>
    decreases args.len(),
{
    if args.len() == 0 {
        Seq::empty()
    } else {
        let prev = named_sources(args.drop_last(), username);
        match source_named(args.last(), username) {
            Some(s) => prev.push(s),
            None => prev,
        }
    }
}

/// The sources the configuration enables: friends, follows, saved, in that order.
pub open spec fn configured_sources(config: SourcesConfig, username: Seq<char>) -> Seq<SourceKind> {
    let a = if config.friends {
        seq![SourceKind::Friends(username)]
    } else {
        Seq::empty()
    };
    let b = if config.follows {
        a.push(SourceKind::Follows(username))
    } else {
        a
    };
    if config.saved {
        b.push(SourceKind::Saved(username))
    } else {
        b
    }
}

/// The sources to sync: exactly those the `--source` arguments name when
/// there are any, else those the configuration enables.
pub open spec fn sources_to_sync(config: SourcesConfig, username: Seq<char>, args: Seq<Seq<char>>) -> Seq<
    SourceKind,
> {
    if args.len() > 0 {
        named_sources(args, username)
    } else {
        configured_sources(config, username)
    }
}

/// Builds the list of sources to sync.
pub fn build_sources(config: &SourcesConfig, username: &str, cli_sources: &Vec<String>) -> (r: Vec<
    SourceSpec,
>)
    ensures
        r@.map_values(|s: SourceSpec| s@) == sources_to_sync(
            *config,
            username@,
            cli_sources@.map_values(|a: String| a@),
        ),
{
    let ghost args = cli_sources@.map_values(|a: String| a@);
    let mut r: Vec<SourceSpec> = Vec::new();
    if cli_sources.len() > 0 {
        let mut i: usize = 0;
        while i < cli_sources.len()
            invariant
                i <= cli_sources.len(),
                args == cli_sources@.map_values(|a: String| a@),
                r@.map_values(|s: SourceSpec| s@) == named_sources(args.take(i as int), username@),
            decreases cli_sources.len() - i,
        {
            let ghost prev = r@.map_values(|s: SourceSpec| s@);
            assert(args.take(i + 1).drop_last() == args.take(i as int));
            assert(args.take(i + 1).last() == cli_sources@[i as int]@);
            match parse_source_spec(cli_sources[i].as_str(), username) {
                Some(s) => {
                    r.push(s);
                    assert(r@.map_values(|s: SourceSpec| s@) == prev.push(s@));
                },
                None => {},
            }
            i = i + 1;
        }
        assert(args.take(cli_sources.len() as int) == args);
        return r;
    }
    if config.friends {
        r.push(SourceSpec::Friends(String::from_str(username)));
    }
    if config.follows {
        r.push(SourceSpec::Follows(String::from_str(username)));
    }
    if config.saved {
        r.push(SourceSpec::Saved(String::from_str(username)));
    }
    assert(r@.map_values(|s: SourceSpec| s@) == configured_sources(*config, username@));
    r
}

/// Without `--source` arguments the sources synced are the user's friends
/// exactly when the configuration enables them, and likewise the followed
/// users and the saved posts; nothing else is synced, each at most once.
pub proof fn lemma_configured_sources(config: SourcesConfig, username: Seq<char>)
    ensures
        sources_to_sync(config, username, Seq::empty()).contains(SourceKind::Friends(username))
            <==> config.friends,
        sources_to_sync(config, username, Seq::empty()).contains(SourceKind::Follows(username))
            <==> config.follows,
        sources_to_sync(config, username, Seq::empty()).contains(SourceKind::Saved(username))
            <==> config.saved,
        sources_to_sync(config, username, Seq::empty()).len() == (if config.friends {
            1int
        } else {
            0
        }) + (if config.follows {
            1int
        } else {
            0
        }) + (if config.saved {
            1int
        } else {
            0
        }),
        forall|i: int|
            0 <= i < sources_to_sync(config, username, Seq::empty()).len() ==> {
                let k = #[trigger] sources_to_sync(config, username, Seq::empty())[i];
                k == SourceKind::Friends(username) || k == SourceKind::Follows(username) || k
                    == SourceKind::Saved(username)
            },
{
    let r = sources_to_sync(config, username, Seq::empty());
    let f = SourceKind::Friends(username);
    let w = SourceKind::Follows(username);
    let v = SourceKind::Saved(username);
    if config.friends {
        assert(r[0] == f);
    }
    if config.follows {
        assert(r[if config.friends { 1int } else { 0 }] == w);
    }
    if config.saved {
        assert(r[r.len() - 1] == v);
    }
    if r.contains(f) {
        let i = choose|i: int| 0 <= i < r.len() && r[i] == f;
        assert(r[i] == f);
    }
    if r.contains(w) {
        let i = choose|i: int| 0 <= i < r.len() && r[i] == w;
        assert(r[i] == w);
    }
    if r.contains(v) {
        let i = choose|i: int| 0 <= i < r.len() && r[i] == v;
        assert(r[i] == v);
    }
}

/// With `--source` arguments the configuration plays no part, and each
/// argument gives at most one source.
pub proof fn lemma_named_sources_override(
    c1: SourcesConfig,
    c2: SourcesConfig,
    username: Seq<char>,
    args: Seq<Seq<char>>,
)
    requires
        args.len() > 0,
    ensures
        sources_to_sync(c1, username, args) == sources_to_sync(c2, username, args),
        sources_to_sync(c1, username, args).len() <= args.len(),
    decreases args.len(),
{
    lemma_named_sources_len(args, username);
}

proof fn lemma_named_sources_len(args: Seq<Seq<char>>, username: Seq<char>)
    ensures
        named_sources(args, username).len() <= args.len(),
    decreases args.len(),
{
    if args.len() > 0 {
        lemma_named_sources_len(args.drop_last(), username);
    }
}

/// The index of the first post at or after `k` named `cursor`, or the
/// number of posts when there is none.
pub open spec fn cursor_pos_from(posts: Seq<Post>, cursor: Seq<char>, k: int) -> int
    decreases posts.len() - k,
{
    if k < 0 || k >= posts.len() {
        posts.len() as int
    } else if posts[k].name@ == cursor {
        k
    } else {
        cursor_pos_from(posts, cursor, k + 1)
    }
}

/// The posts before the cursor: all of them without a cursor, else those
/// before the first post whose fullname is the cursor.
pub open spec fn until_cursor(posts: Seq<Post>, cursor: Option<Seq<char>>) -> Seq<Post> {
    match cursor {
        Some(c) => posts.take(cursor_pos_from(posts, c, 0)),
        None => posts,
    }
}

pub(crate) proof fn lemma_cursor_pos_from(posts: Seq<Post>, cursor: Seq<char>, k: int)
    requires
        0 <= k <= posts.len(),
    ensures
        k <= cursor_pos_from(posts, cursor, k) <= posts.len(),
        forall|j: int| k <= j < cursor_pos_from(posts, cursor, k) ==> posts[j].name@ != cursor,
        cursor_pos_from(posts, cursor, k) < posts.len() ==> posts[cursor_pos_from(
            posts,
            cursor,
            k,
        )].name@ == cursor,
    decreases posts.len() - k,
{
    if k < posts.len() && posts[k].name@ != cursor {
        lemma_cursor_pos_from(posts, cursor, k + 1);
    }
}

/// The posts kept before a cursor are a prefix of the posts, none of them is
/// named by the cursor, and without a matching post all of them are kept.
pub proof fn lemma_until_cursor(posts: Seq<Post>, cursor: Option<Seq<char>>)
    ensures
        until_cursor(posts, cursor).len() <= posts.len(),
        until_cursor(posts, cursor) == posts.take(until_cursor(posts, cursor).len() as int),
        cursor matches Some(c) ==> forall|j: int|
            0 <= j < until_cursor(posts, cursor).len() ==> until_cursor(posts, cursor)[j].name@
                != c,
        cursor matches Some(c) ==> ((forall|j: int| 0 <= j < posts.len() ==> posts[j].name@ != c)
            ==> until_cursor(posts, cursor) == posts),
{
    match cursor {
        Some(c) => {
            lemma_cursor_pos_from(posts, c, 0);
            let k = cursor_pos_from(posts, c, 0);
            if forall|j: int| 0 <= j < posts.len() ==> posts[j].name@ != c {
                if k < posts.len() {
                    assert(posts[k].name@ == c);
                }
                assert(posts.take(posts.len() as int) == posts);
            }
        },
        None => {
            assert(posts.take(posts.len() as int) == posts);
        },
    }
}

/// The position of the cursor among `posts`, as [`cursor_pos_from`] from 0.
pub fn cursor_position(posts: &Vec<Post>, cursor: &str) -> (r: usize)
    ensures
        r == cursor_pos_from(posts@, cursor@, 0),
{
    let mut k: usize = 0;
    while k < posts.len()
        invariant
            k <= posts.len(),
            cursor_pos_from(posts@, cursor@, 0) == cursor_pos_from(posts@, cursor@, k as int),
        decreases posts.len() - k,
    {
        if eq_str(posts[k].name.as_str(), cursor) {
            return k;
        }
        k = k + 1;
    }
    k
}

/// Keeps the posts before the cursor (newest first, a fetch stops at the
/// post already seen).
pub fn take_until_cursor(posts: Vec<Post>, cursor: Option<&str>) -> (r: Vec<Post>)
    ensures
        r@ == until_cursor(
            posts@,
            match cursor {
                Some(c) => Some(c@),
                None => None,
            },
        ),
{
    match cursor {
        Some(c) => {
            let k = cursor_position(&posts, c);
            proof {
                lemma_cursor_pos_from(posts@, c@, 0);
            }
            let mut p = posts;
            p.truncate(k);
            p
        },
        None => posts,
    }
}

/// Adds to `all` the posts of one user that come before the cursor.
pub fn append_until_cursor(all: &mut Vec<Post>, posts: Vec<Post>, cursor: Option<&str>)
    ensures
        final(all)@ == old(all)@ + until_cursor(
            posts@,
            match cursor {
                Some(c) => Some(c@),
                None => None,
            },
        ),
{
    let mut kept = take_until_cursor(posts, cursor);
    all.append(&mut kept);
}

/// How many posts are fetched from each user when no limit is given.
pub const DEFAULT_POSTS_PER_USER: u32 = 25;

/// How many posts are fetched from each friend or followed user: the limit
/// when one is given, else [`DEFAULT_POSTS_PER_USER`].
pub fn posts_per_user(limit: Option<u32>) -> (r: u32)
    ensures
        r == match limit {
            Some(n) => n,
            None => DEFAULT_POSTS_PER_USER,
        },
{
    match limit {
        Some(n) => n,
        None => DEFAULT_POSTS_PER_USER,
    }
}

} // verus!
