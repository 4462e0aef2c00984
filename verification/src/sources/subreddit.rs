//! The newest posts of a subreddit, page by page.
use vstd::prelude::*;
use crate::post::Post;
use crate::sources::{cursor_pos_from, cursor_position, lemma_cursor_pos_from};

verus! {

/// The number of posts asked for per page.
pub const PER_PAGE: u32 = 100;

/// The newest posts of one subreddit.
pub struct SubredditSource {
    name: String,
}

impl SubredditSource {
    /// The subreddit's name.
    pub closed spec fn name(&self) -> Seq<char> {
        self.name@
    }

    /// The subreddit `name`.
    pub fn new(name: String) -> (r: Self)
        ensures
            r.name() == name@,
    {
        SubredditSource { name }
    }

    /// The source type, `subreddits`.
    pub fn source_type(&self) -> (r: &str)
        ensures
            r@ == "subreddits"@,
    {
        "subreddits"
    }

    /// The source name: the subreddit's name.
    pub fn source_name(&self) -> (r: &str)
        ensures
            r@ == self.name(),
    {
        self.name.as_str()
    }
}

/// The state of fetching a subreddit: the posts gathered so far, the page
/// cursor and whether fetching is over.
pub struct SubredditPager {
    pub collected: Vec<Post>,
    pub max_posts: usize,
    pub after: Option<String>,
    pub done: bool,
}

/// How many posts of a page are kept: those before the cursor, up to the room
/// left below the limit.
pub open spec fn kept_count(posts: Seq<Post>, cursor: Option<Seq<char>>, room: int) -> int {
    let k = match cursor {
        Some(c) => cursor_pos_from(posts, c, 0),
        None => posts.len() as int,
    };
    if k < room {
        k
    } else {
        room
    }
}

/// Fetching ends with a page when the page is empty, when the cursor was met,
/// when the limit was reached, or when there is no next page.
pub open spec fn page_ends_fetch(
    posts: Seq<Post>,
    cursor: Option<Seq<char>>,
    room: int,
    next_after: Option<String>,
) -> bool {
    let k = match cursor {
        Some(c) => cursor_pos_from(posts, c, 0),
        None => posts.len() as int,
    };
    posts.len() == 0 || k < posts.len() || room <= k || next_after is None
}

impl SubredditPager {
    /// The pager's invariant: fewer posts than the limit while fetching goes on.
    pub open spec fn wf(&self) -> bool {
        &&& self.max_posts <= u32::MAX
        &&& self.collected.len() <= self.max_posts
        &&& !self.done ==> self.collected.len() < self.max_posts
    }

    /// A pager for at most `limit` posts (no limit when `None`).
    pub fn new(limit: Option<u32>) -> (r: Self)
        ensures
            r.wf(),
            r.collected@.len() == 0,
            r.after is None,
            r.max_posts == match limit {
                Some(l) => l as usize,
                None => u32::MAX as usize,
            },
            r.done == (r.max_posts == 0),
    {
        let max_posts = match limit {
            Some(l) => l as usize,
            None => u32::MAX as usize,
        };
        SubredditPager { collected: Vec::new(), max_posts, after: None, done: max_posts == 0 }
    }

    /// The number of posts to ask for in the next page: a full page, or the
    /// room left below the limit when that is smaller.
    pub fn next_limit(&self) -> (r: u32)
        requires
            self.wf(),
            !self.done,
        ensures
            r == if PER_PAGE <= self.max_posts - self.collected.len() {
                PER_PAGE as int
            } else {
                self.max_posts - self.collected.len()
            },
            r > 0,
    {
        let room = self.max_posts - self.collected.len();
        if (PER_PAGE as usize) <= room {
            PER_PAGE
        } else {
            room as u32
        }
    }

    /// Takes in one fetched page, newest first: the posts before the cursor
    /// are gathered until the limit is reached, and fetching goes on with
    /// `next_after` unless the page ends it.
    pub fn absorb(&mut self, posts: Vec<Post>, next_after: Option<String>, cursor: Option<&str>)
        requires
            old(self).wf(),
            !old(self).done,
        ensures
            final(self).wf(),
            final(self).max_posts == old(self).max_posts,
            final(self).collected@ == old(self).collected@ + posts@.take(
                kept_count(
                    posts@,
                    match cursor {
                        Some(c) => Some(c@),
                        None => None,
                    },
                    old(self).max_posts - old(self).collected.len(),
                ),
            ),
            final(self).done == page_ends_fetch(
                posts@,
                match cursor {
                    Some(c) => Some(c@),
                    None => None,
                },
                old(self).max_posts - old(self).collected.len(),
                next_after,
            ),
            !final(self).done ==> final(self).after == next_after,
    {
        let ghost ps = posts@;
        let room = self.max_posts - self.collected.len();
        let n_posts = posts.len();
        if n_posts == 0 {
            self.done = true;
            assert(ps.take(0) == Seq::<Post>::empty());
            assert(self.collected@ == old(self).collected@ + ps.take(0));
            return;
        }
        let k = match cursor {
            Some(c) => {
                proof {
                    lemma_cursor_pos_from(ps, c@, 0);
                }
                cursor_position(&posts, c)
            },
            None => posts.len(),
        };
        let keep = if k < room {
            k
        } else {
            room
        };
        let mut page = posts;
        page.truncate(keep);
        assert(page@ == ps.take(keep as int));
        self.collected.append(&mut page);
        let ends = k < n_posts || room <= k || next_after.is_none();
        self.done = ends;
        if !ends {
            self.after = next_after;
        }
    }
}

} // verus!
