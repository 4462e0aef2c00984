//! The decisions of a sync: where the fetch of each source stops, which
//! fetched posts are downloaded, and the cursor a batch leaves for the next
//! sync.
use vstd::prelude::*;
use crate::post::Post;
use crate::progress::Tally;
use crate::sources::{cursor_pos_from, lemma_cursor_pos_from, until_cursor};

verus! {

/// The cursor a sync of one source stops at: none with `--full`, which
/// re-scans everything (downloads are still deduplicated), else the one the
/// last sync stored.
pub open spec fn stop_cursor(full: bool, stored: Option<Seq<char>>) -> Option<Seq<char>> {
    if full {
        None
    } else {
        stored
    }
}

/// Where the fetch of one source stops, given `--full` and the stored
/// cursor (its post's fullname).
pub fn sync_stop_cursor(full: bool, stored: Option<String>) -> (r: Option<String>)
    ensures
        match r {
            Some(c) => stop_cursor(
                full,
                match stored {
                    Some(s) => Some(s@),
                    None => None,
                },
            ) == Some(c@),
            None => stop_cursor(
                full,
                match stored {
                    Some(s) => Some(s@),
                    None => None,
                },
            ) is None,
        },
{
    if full {
        None
    } else {
        stored
    }
}

/// What becomes of one fetched post.
#[derive(PartialEq, Eq, Structural, Debug, Clone, Copy)]
pub enum PostAction {
    /// Already recorded, from this source or another: skipped.
    Skip,
    /// Downloaded and recorded.
    Download,
}

/// The cursor a batch leaves: the fullname of its first post, the newest
/// fetched.
pub open spec fn batch_cursor(posts: Seq<Post>) -> Option<Seq<char>> {
    if posts.len() > 0 {
        Some(posts[0].name@)
    } else {
        None
    }
}

/// The sync of one batch of fetched posts: the counts so far, and the cursor
/// the batch leaves once it is committed.
pub struct SyncBatch {
    pub tally: Tally,
    pub cursor: Option<String>,
}

impl SyncBatch {
    /// A batch of `posts`, newest first, with nothing counted yet.
    pub fn start(posts: &Vec<Post>) -> (r: Self)
        ensures
            r.tally.downloaded == 0,
            r.tally.skipped == 0,
            match r.cursor {
                Some(c) => batch_cursor(posts@) == Some(c@),
                None => batch_cursor(posts@) is None,
            },
    {
        let cursor = if posts.len() > 0 {
            Some(posts[0].name.clone())
        } else {
            None
        };
        SyncBatch { tally: Tally::new(), cursor }
    }

    /// Decides on the next post: one already recorded is skipped, any other
    /// downloaded; the decision is counted.
    pub fn decide(&mut self, already_recorded: bool) -> (r: PostAction)
        requires
            already_recorded ==> old(self).tally.skipped < u32::MAX,
            !already_recorded ==> old(self).tally.downloaded < u32::MAX,
        ensures
            already_recorded ==> r == PostAction::Skip && final(self).tally.skipped == old(
                self,
            ).tally.skipped + 1 && final(self).tally.downloaded == old(self).tally.downloaded,
            !already_recorded ==> r == PostAction::Download && final(self).tally.downloaded
                == old(self).tally.downloaded + 1 && final(self).tally.skipped == old(
                self,
            ).tally.skipped,
            final(self).cursor == old(self).cursor,
    {
        if already_recorded {
            self.tally.count_skipped();
            PostAction::Skip
        } else {
            self.tally.count_downloaded();
            PostAction::Download
        }
    }
}

/// Resuming a source: the next sync, stopping at the cursor a batch left,
/// keeps exactly the posts newer than that batch, where the listing shows
/// those posts and then the batch and none of them bears the fullname of the
/// batch's newest post. With `--full` it keeps the whole listing.
pub proof fn lemma_resume_after_batch(batch: Seq<Post>, newer: Seq<Post>, stored: Option<Seq<char>>)
    requires
        batch.len() > 0,
        forall|j: int| 0 <= j < newer.len() ==> newer[j].name@ != batch[0].name@,
    ensures
        until_cursor(newer + batch, stop_cursor(false, batch_cursor(batch))) == newer,
        until_cursor(newer + batch, stop_cursor(true, stored)) == newer + batch,
{
    let listing = newer + batch;
    let c = batch[0].name@;
    lemma_cursor_pos_from(listing, c, 0);
    let k = cursor_pos_from(listing, c, 0);
    assert(listing[newer.len() as int] == batch[0]);
    if k < newer.len() {
        assert(listing[k] == newer[k]);
    }
    if k > newer.len() {
        assert(listing[newer.len() as int].name@ != c);
    }
    assert(k == newer.len());
    assert(listing.take(k) =~= newer);
}

} // verus!
