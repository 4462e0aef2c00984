//! A Reddit post with the fields needed for downloading and archiving.
use vstd::prelude::*;
use crate::storage::metadata::PostMetadata;

verus! {

/// A Reddit post. The creation time, a floating-point number in the API,
/// is kept by the caller beside the post.
#[derive(Debug, Clone)]
pub struct Post {
    pub id: String,
    /// Fullname like "t3_abc123"
    pub name: String,
    pub title: String,
    pub author: String,
    pub subreddit: String,
    pub permalink: String,
    pub url: Option<String>,
    pub selftext: String,
    pub is_self: bool,
    pub is_video: bool,
    pub score: i64,
    pub num_comments: i64,
    pub is_gallery: Option<bool>,
    pub gallery_data: Option<GalleryData>,
    pub media_metadata: Option<MediaMetadataMap>,
    pub media: Option<Media>,
    pub preview: Option<Preview>,
}

/// The ordered items of a gallery post.
#[derive(Debug, Clone)]
pub struct GalleryData {
    pub items: Vec<GalleryItem>,
}

/// One gallery item, naming its entry in the media metadata.
#[derive(Debug, Clone)]
pub struct GalleryItem {
    pub media_id: String,
    pub id: i64,
}

/// Metadata of one gallery image.
#[derive(Debug, Clone)]
pub struct MediaMetadataItem {
    pub status: String,
    /// "Image", "AnimatedImage"
    pub e: String,
    /// MIME type like "image/jpg"
    pub m: String,
    pub s: Option<MediaSource>,
}

/// The source renditions of a gallery image.
#[derive(Debug, Clone)]
pub struct MediaSource {
    /// URL
    pub u: Option<String>,
    pub gif: Option<String>,
    pub mp4: Option<String>,
    /// width
    pub x: Option<i32>,
    /// height
    pub y: Option<i32>,
}

/// Reddit-hosted media of a post.
#[derive(Debug, Clone)]
pub struct Media {
    pub reddit_video: Option<RedditVideo>,
}

/// A Reddit-hosted video.
#[derive(Debug, Clone)]
pub struct RedditVideo {
    pub fallback_url: String,
    pub dash_url: Option<String>,
    pub height: Option<i32>,
    pub width: Option<i32>,
    pub duration: Option<i32>,
    pub is_gif: bool,
}

/// Preview images of a post.
#[derive(Debug, Clone)]
pub struct Preview {
    pub images: Vec<PreviewImage>,
}

/// One preview image.
#[derive(Debug, Clone)]
pub struct PreviewImage {
    pub source: PreviewSource,
}

/// The full-size rendition of a preview image.
#[derive(Debug, Clone)]
pub struct PreviewSource {
    pub url: String,
    pub width: i32,
    pub height: i32,
}

/// The media metadata of a gallery post, keyed by media id. Entries are kept
/// in insertion order; a later entry for a key replaces an earlier one, as in
/// a hash map.
#[derive(Debug, Clone)]
pub struct MediaMetadataMap {
    entries: Vec<(String, MediaMetadataItem)>,
}

/// The map described by a sequence of entries, later entries winning.
pub open spec fn entries_map(es: Seq<(String, MediaMetadataItem)>) -> Map<Seq<char>, MediaMetadataItem>
    decreases es.len(),
{
    if es.len() == 0 {
        Map::empty()
    } else {
        entries_map(es.drop_last()).insert(es.last().0@, es.last().1)
    }
}

impl View for MediaMetadataMap {
    type V = Map<Seq<char>, MediaMetadataItem>;

    closed spec fn view(&self) -> Map<Seq<char>, MediaMetadataItem> {
        entries_map(self.entries@)
    }
}

impl MediaMetadataMap {
    /// An empty map.
    pub fn new() -> (r: Self)
        ensures
            r@ == Map::<Seq<char>, MediaMetadataItem>::empty(),
    {
        MediaMetadataMap { entries: Vec::new() }
    }

    /// Sets the entry for `key` to `value`.
    pub fn insert(&mut self, key: String, value: MediaMetadataItem)
        ensures
            final(self)@ == old(self)@.insert(key@, value),
    {
        let ghost k = key@;
        self.entries.push((key, value));
        assert(self.entries@.drop_last() == old(self).entries@);
    }

    /// The entry for `key`, if any.
    pub fn get(&self, key: &str) -> (r: Option<&MediaMetadataItem>)
        ensures
            r matches Some(v) ==> self@.contains_key(key@) && self@[key@] == *v,
            r is None ==> !self@.contains_key(key@),
    {
        let mut n = self.entries.len();
        assert(self.entries@.take(n as int) == self.entries@);
        while n > 0
            invariant
                n <= self.entries.len(),
                self@.contains_key(key@) == entries_map(self.entries@.take(n as int)).contains_key(
                    key@,
                ),
                self@.contains_key(key@) ==> self@[key@] == entries_map(
                    self.entries@.take(n as int),
                )[key@],
            decreases n,
        {
            let ghost t = self.entries@.take(n as int);
            assert(t.drop_last() == self.entries@.take(n - 1));
            assert(t.last() == self.entries@[n - 1]);
            if crate::text::eq_str(self.entries[n - 1].0.as_str(), key) {
                return Some(&self.entries[n - 1].1);
            }
            n = n - 1;
        }
        None
    }
}

impl Post {
    /// The metadata written beside a post's files: the post's fields, the
    /// link or an empty string, and the text only for a self-post.
    pub fn to_metadata(&self) -> (r: PostMetadata)
        ensures
            r.id@ == self.id@,
            r.title@ == self.title@,
            r.author@ == self.author@,
            r.subreddit@ == self.subreddit@,
            r.permalink@ == self.permalink@,
            r.url@ == (match self.url {
                Some(u) => u@,
                None => Seq::empty(),
            }),
            r.score == self.score,
            r.num_comments == self.num_comments,
            r.is_self == self.is_self,
            r.is_video == self.is_video,
            r.selftext matches Some(t) ==> self.is_self && t@ == self.selftext@,
            r.selftext is None ==> !self.is_self,
    {
        PostMetadata {
            id: self.id.clone(),
            title: self.title.clone(),
            author: self.author.clone(),
            subreddit: self.subreddit.clone(),
            permalink: self.permalink.clone(),
            url: match &self.url {
                Some(u) => u.clone(),
                None => String::new(),
            },
            score: self.score,
            num_comments: self.num_comments,
            is_self: self.is_self,
            is_video: self.is_video,
            selftext: if self.is_self {
                Some(self.selftext.clone())
            } else {
                None
            },
        }
    }
}

} // verus!
