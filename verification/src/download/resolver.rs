//! Deciding what kind of download a post needs.
use vstd::prelude::*;
use crate::post::Post;
use crate::text::{find_from, occurs_at, 
    after_last, after_last_exec, before_first, before_first_exec, chars_of, contains, contains_str,
    eq_str, find, find_str, lemma_find_from, lemma_rfind_char, push_str, rfind_char,
    rfind_char_exec, slice_vec, starts_with, starts_with_str, string_from, string_of, to_lowercase,
    lowercase, is_ascii_text, ascii_lowercase, ascii_lower,
};

verus! {

/// The kind of media a post contains, used to dispatch to the right downloader.
#[derive(Debug)]
pub enum MediaType {
    DirectImage { url: String, extension: String },
    RedditVideo { video_url: String, audio_url: Option<String> },
    RedditGallery,
    ImgurSingle { url: String },
    ImgurAlbum { url: String },
    SelfPost,
    ExternalLink { url: String },
    NoMedia,
}

/// A [`MediaType`] by the characters of its strings.
pub enum MediaKind {
    DirectImage { url: Seq<char>, extension: Seq<char> },
    RedditVideo { video_url: Seq<char>, audio_url: Option<Seq<char>> },
    RedditGallery,
    ImgurSingle { url: Seq<char> },
    ImgurAlbum { url: Seq<char> },
    SelfPost,
    ExternalLink { url: Seq<char> },
    NoMedia,
}

impl View for MediaType {
    type V = MediaKind;

    open spec fn view(&self) -> MediaKind {
        match self {
            MediaType::DirectImage { url, extension } => MediaKind::DirectImage {
                url: url@,
                extension: extension@,
            },
            MediaType::RedditVideo { video_url, audio_url } => MediaKind::RedditVideo {
                video_url: video_url@,
                audio_url: match audio_url {
                    Some(a) => Some(a@),
                    None => None,
                },
            },
            MediaType::RedditGallery => MediaKind::RedditGallery,
            MediaType::ImgurSingle { url } => MediaKind::ImgurSingle { url: url@ },
            MediaType::ImgurAlbum { url } => MediaKind::ImgurAlbum { url: url@ },
            MediaType::SelfPost => MediaKind::SelfPost,
            MediaType::ExternalLink { url } => MediaKind::ExternalLink { url: url@ },
            MediaType::NoMedia => MediaKind::NoMedia,
        }
    }
}

/// The file extensions recognised as direct downloads.
pub open spec fn is_media_extension(e: Seq<char>) -> bool {
    e == "jpg"@ || e == "jpeg"@ || e == "png"@ || e == "gif"@ || e == "webp"@ || e == "mp4"@
        || e == "gifv"@
}

/// Whether `e` is one of the recognised media extensions.
pub fn is_media_extension_exec(e: &str) -> (r: bool)
    ensures
        r == is_media_extension(e@),
{
    eq_str(e, "jpg") || eq_str(e, "jpeg") || eq_str(e, "png") || eq_str(e, "gif") || eq_str(e, "webp")
        || eq_str(e, "mp4") || eq_str(e, "gifv")
}

/// The part of a URL before its query and fragment.
pub open spec fn url_path_part(url: Seq<char>) -> Seq<char> {
    before_first(before_first(url, '?'), '#')
}

/// What follows the last `.` of the last path segment of a URL (query and
/// fragment left out), if that segment holds a `.`.
pub open spec fn url_suffix(url: Seq<char>) -> Option<Seq<char>> {
    let last = after_last(url_path_part(url), '/');
    match rfind_char(last, '.') {
        Some(d) => Some(last.skip(d + 1)),
        None => None,
    }
}

/// The lower-cased extension of the last path segment of a URL, if it has a
/// non-empty one.
pub open spec fn url_extension(url: Seq<char>) -> Option<Seq<char>> {
    match url_suffix(url) {
        Some(x) => if x.len() > 0 {
            Some(lowercase(x))
        } else {
            None
        },
        None => None,
    }
}

/// No character of `s` is `.`, `/`, `?` or `#`.
pub open spec fn free_of_url_marks(s: Seq<char>) -> bool {
    forall|i: int| 0 <= i < s.len() ==> #[trigger] s[i] != '.' && s[i] != '/' && s[i] != '?' && s[i]
        != '#'
}

/// No character of `s` is an ASCII capital.
pub open spec fn no_ascii_capitals(s: Seq<char>) -> bool {
    forall|i: int| 0 <= i < s.len() ==> !('A' <= #[trigger] s[i] <= 'Z')
}

/// `before_first(s, c)` holds no `c`, and is a prefix of `s`.
proof fn lemma_before_first(s: Seq<char>, c: char)
    ensures
        before_first(s, c).len() <= s.len(),
        forall|i: int| 0 <= i < before_first(s, c).len() ==> #[trigger] before_first(s, c)[i]
            == s[i] && s[i] != c,
{
    lemma_find_from(s, seq![c], 0);
    assert forall|j: int| 0 <= j < s.len() && s[j] == c implies occurs_at(s, seq![c], j) by {
        assert(s.subrange(j, j + 1) =~= seq![c]);
    }
    match find(s, seq![c]) {
        Some(k) => {
            assert forall|i: int| 0 <= i < k implies s[i] != c by {
                if s[i] == c {
                    assert(occurs_at(s, seq![c], i));
                }
            }
        },
        None => {},
    }
}

/// `after_last(s, c)` holds no `c`, and is a suffix of `s`.
proof fn lemma_after_last(s: Seq<char>, c: char)
    ensures
        after_last(s, c).len() <= s.len(),
        forall|i: int| 0 <= i < after_last(s, c).len() ==> #[trigger] after_last(s, c)[i]
            == s[s.len() - after_last(s, c).len() + i] && after_last(s, c)[i] != c,
{
    lemma_rfind_char(s, c);
}

/// The extension of a URL is present exactly when the text after the last
/// `.` of its last path segment is non-empty. That text holds no `.`, `/`,
/// `?` or `#`, and where it is ASCII the extension is its ASCII lower case:
/// no capitals and none of those characters.
pub proof fn lemma_url_extension_shape(url: Seq<char>)
    ensures
        url_extension(url) is Some <==> (url_suffix(url) matches Some(x) && x.len() > 0),
        url_suffix(url) matches Some(x) ==> free_of_url_marks(x),
        url_extension(url) matches Some(e) ==> (is_ascii_text(url_suffix(url)->0) ==> e
            == ascii_lowercase(url_suffix(url)->0) && e.len() > 0 && no_ascii_capitals(e)
            && free_of_url_marks(e)),
{
    let p1 = before_first(url, '?');
    let p2 = before_first(p1, '#');
    let last = after_last(p2, '/');
    lemma_before_first(url, '?');
    lemma_before_first(p1, '#');
    lemma_after_last(p2, '/');
    lemma_rfind_char(last, '.');
    assert forall|i: int| 0 <= i < last.len() implies #[trigger] last[i] != '/' && last[i] != '?'
        && last[i] != '#' by {
        let j = p2.len() - last.len() + i;
        assert(p2[j] == p1[j]);
        assert(p1[j] == url[j]);
    }
    match rfind_char(last, '.') {
        Some(d) => {
            let x = last.skip(d + 1);
            assert forall|i: int| 0 <= i < x.len() implies #[trigger] x[i] != '.' && x[i] != '/'
                && x[i] != '?' && x[i] != '#' by {
                assert(x[i] == last[d + 1 + i]);
            }
            if x.len() > 0 && is_ascii_text(x) {
                let e = ascii_lowercase(x);
                assert forall|i: int| 0 <= i < e.len() implies !('A' <= #[trigger] e[i] <= 'Z') by {
                    assert(e[i] == ascii_lower(x[i]));
                }
                assert forall|i: int| 0 <= i < e.len() implies #[trigger] e[i] != '.' && e[i] != '/'
                    && e[i] != '?' && e[i] != '#' by {
                    assert(e[i] == ascii_lower(x[i]));
                }
            }
        },
        None => {},
    }
}

/// Extracts the file extension from a URL path, lowercased, without the dot.
/// The query string and fragment are ignored. An extension is never empty,
/// holds no ASCII capital and none of `.`, `/`, `?` and `#`.
pub fn extension_from_url(url: &str) -> (r: Option<String>)
    ensures
        match r {
            Some(e) => url_extension(url@) == Some(e@) && e@.len() > 0 && no_ascii_capitals(e@)
                && free_of_url_marks(e@),
            None => url_extension(url@) is None,
        },
{
    proof {
        lemma_url_extension_shape(url@);
    }
    let u = chars_of(url);
    let p1 = before_first_exec(&u, '?');
    let p2 = before_first_exec(&p1, '#');
    let last = after_last_exec(&p2, '/');
    match rfind_char_exec(&last, '.') {
        Some(d) => {
            proof {
                lemma_rfind_char(last@, '.');
                assert(rfind_char(last@, '.') == Some(d as int));
            }
            assert(d < last.len());
            if d + 1 < last.len() {
                let tail = string_of(&last, d + 1, last.len());
                assert(last@.subrange(d + 1, last@.len() as int) == last@.skip(d + 1));
                let e = to_lowercase(tail.as_str());
                proof {
                    assert(url_suffix(url@) == Some(tail@));
                    assert forall|i: int| 0 <= i < e@.len() implies #[trigger] e@[i] != '.'
                        && e@[i] != '/' && e@[i] != '?' && e@[i] != '#' by {
                        let c = e@[i];
                        assert(e@.contains(c));
                        if c == '.' || c == '/' || c == '?' || c == '#' {
                            let j = choose|j: int| 0 <= j < tail@.len() && tail@[j] == c;
                            assert(free_of_url_marks(tail@));
                            assert(tail@[j] != '.' && tail@[j] != '/' && tail@[j] != '?'
                                && tail@[j] != '#');
                        }
                    }
                }
                Some(e)
            } else {
                None
            }
        },
        None => None,
    }
}

/// The audio stream beside a Reddit video: the last path segment of the URL
/// (without its query) replaced by `DASH_audio.mp4`.
pub open spec fn audio_url_of(video_url: Seq<char>) -> Option<Seq<char>> {
    let base = before_first(video_url, '?');
    match rfind_char(base, '/') {
        Some(i) => Some(base.take(i) + "/DASH_audio.mp4"@),
        None => None,
    }
}

/// Derives the audio-only URL of a Reddit video (`DASH_720.mp4` becomes
/// `DASH_audio.mp4`).
pub fn derive_audio_url(video_url: &str) -> (r: Option<String>)
    ensures
        match r {
            Some(a) => audio_url_of(video_url@) == Some(a@),
            None => audio_url_of(video_url@) is None,
        },
{
    let u = chars_of(video_url);
    let base = before_first_exec(&u, '?');
    match rfind_char_exec(&base, '/') {
        Some(i) => {
            proof {
                lemma_rfind_char(base@, '/');
            }
            let mut r = string_of(&base, 0, i);
            assert(base@.subrange(0, i as int) == base@.take(i as int));
            push_str(&mut r, "/DASH_audio.mp4");
            Some(r)
        },
        None => None,
    }
}

/// The number of non-empty `/`-separated segments of `s[..n]`: the positions
/// where such a segment begins.
pub open spec fn segment_starts(s: Seq<char>, n: int) -> nat
    decreases n,
{
    if n <= 0 || n > s.len() {
        0
    } else {
        segment_starts(s, n - 1) + if s[n - 1] != '/' && (n == 1 || s[n - 2] == '/') {
            1nat
        } else {
            0nat
        }
    }
}

/// The number of non-empty segments of `s.split('/')`.
pub open spec fn nonempty_segments(s: Seq<char>) -> nat {
    segment_starts(s, s.len() as int)
}

/// Whether a URL looks like an Imgur single-image page such as
/// `https://imgur.com/AbCdEfG`: on imgur.com, not an album or gallery, with
/// exactly one non-empty path segment after the domain.
pub open spec fn looks_imgur_single(url: Seq<char>) -> bool {
    &&& contains(url, "imgur.com"@)
    &&& !contains(url, "/a/"@)
    &&& !contains(url, "/gallery/"@)
    &&& match find(url, "imgur.com/"@) {
        Some(i) => nonempty_segments(url.skip(i + 10)) == 1,
        None => false,
    }
}

fn count_segments(s: &Vec<char>) -> (r: u64)
    ensures
        r == nonempty_segments(s@),
{
    let mut count: u64 = 0;
    let mut n: usize = 0;
    while n < s.len()
        invariant
            n <= s.len(),
            count == segment_starts(s@, n as int),
            count <= n,
        decreases s.len() - n,
    {
        if s[n] != '/' && (n == 0 || s[n - 1] == '/') {
            count = count + 1;
        }
        n = n + 1;
    }
    count
}

/// Returns true if the URL looks like an Imgur single-image page.
pub fn is_imgur_single(url: &str) -> (r: bool)
    ensures
        r == looks_imgur_single(url@),
{
    let u = chars_of(url);
    proof {
        reveal_strlit("imgur.com/");
    }
    if !contains_str(&u, "imgur.com") {
        return false;
    }
    if contains_str(&u, "/a/") || contains_str(&u, "/gallery/") {
        return false;
    }
    match find_str(&u, "imgur.com/") {
        Some(i) => {
            proof {
                lemma_find_from(u@, "imgur.com/"@, 0);
                assert("imgur.com/"@.len() == 10);
                assert(find_from(u@, "imgur.com/"@, 0) == Some(i as int));
                assert(occurs_at(u@, "imgur.com/"@, i as int));
            }
            let n = u.len();
            assert(i + 10 <= n);
            let rest = slice_vec(&u, i + 10, n);
            assert(u@.subrange(i + 10, u@.len() as int) == u@.skip(i + 10));
            count_segments(&rest) == 1
        },
        None => false,
    }
}

/// The extension of a URL, or `jpg` when it has none.
pub open spec fn extension_or_jpg(url: Seq<char>) -> Seq<char> {
    match url_extension(url) {
        Some(e) => e,
        None => "jpg"@,
    }
}

/// The media type of a post, from its fields alone.
pub open spec fn media_kind(post: Post) -> MediaKind {
    if post.is_self {
        MediaKind::SelfPost
    } else {
        match post.url {
            None => MediaKind::NoMedia,
            Some(u) => {
                let url = u@;
                let m = before_first(url, '#');
                if !starts_with(url, "http://"@) && !starts_with(url, "https://"@) {
                    MediaKind::NoMedia
                } else if post.is_gallery == Some(true) {
                    MediaKind::RedditGallery
                } else if post.is_video && post.media is Some && post.media->0.reddit_video is Some {
                    let rv = post.media->0.reddit_video->0;
                    MediaKind::RedditVideo {
                        video_url: rv.fallback_url@,
                        audio_url: audio_url_of(rv.fallback_url@),
                    }
                } else if contains(m, "preview.redd.it"@) || contains(m, "i.redd.it"@) {
                    MediaKind::DirectImage { url, extension: extension_or_jpg(m) }
                } else if contains(m, "imgur.com/a/"@) || contains(m, "imgur.com/gallery/"@) {
                    MediaKind::ImgurAlbum { url }
                } else if contains(m, "i.imgur.com"@) || looks_imgur_single(m) {
                    MediaKind::ImgurSingle { url }
                } else if url_extension(m) is Some && is_media_extension(url_extension(m)->0) {
                    MediaKind::DirectImage { url, extension: url_extension(m)->0 }
                } else {
                    MediaKind::ExternalLink { url }
                }
            },
        }
    }
}

fn extension_or_jpg_exec(url: &str) -> (r: String)
    ensures
        r@ == extension_or_jpg(url@),
{
    match extension_from_url(url) {
        Some(e) => e,
        None => String::from_str("jpg"),
    }
}

/// Inspects a post and decides what kind of download it needs.
pub fn resolve_media_type(post: &Post) -> (r: MediaType)
    ensures
        r@ == media_kind(*post),
{
    if post.is_self {
        return MediaType::SelfPost;
    }
    let url = match &post.url {
        Some(u) => u.clone(),
        None => return MediaType::NoMedia,
    };
    let uv = chars_of(url.as_str());
    if !starts_with_str(&uv, "http://") && !starts_with_str(&uv, "https://") {
        return MediaType::NoMedia;
    }
    let mv = before_first_exec(&uv, '#');
    let m = string_from(&mv);
    if post.is_gallery == Some(true) {
        return MediaType::RedditGallery;
    }
    if post.is_video {
        if let Some(media) = &post.media {
            if let Some(rv) = &media.reddit_video {
                let audio_url = derive_audio_url(rv.fallback_url.as_str());
                return MediaType::RedditVideo { video_url: rv.fallback_url.clone(), audio_url };
            }
        }
    }
    if contains_str(&mv, "preview.redd.it") || contains_str(&mv, "i.redd.it") {
        let extension = extension_or_jpg_exec(m.as_str());
        return MediaType::DirectImage { url, extension };
    }
    if contains_str(&mv, "imgur.com/a/") || contains_str(&mv, "imgur.com/gallery/") {
        return MediaType::ImgurAlbum { url };
    }
    if contains_str(&mv, "i.imgur.com") || is_imgur_single(m.as_str()) {
        return MediaType::ImgurSingle { url };
    }
    if let Some(ext) = extension_from_url(m.as_str()) {
        if is_media_extension_exec(ext.as_str()) {
            return MediaType::DirectImage { url, extension: ext };
        }
    }
    MediaType::ExternalLink { url }
}

/// A post that is an http(s) link, not a self post, not a Reddit gallery and
/// not a Reddit video.
pub open spec fn plain_link(post: Post) -> bool {
    &&& !post.is_self
    &&& post.url is Some
    &&& (starts_with(post.url->0@, "http://"@) || starts_with(post.url->0@, "https://"@))
    &&& post.is_gallery != Some(true)
    &&& !(post.is_video && post.media is Some && post.media->0.reddit_video is Some)
}

/// Imgur albums and galleries: a plain link whose URL, fragment aside, names
/// `imgur.com/a/` or `imgur.com/gallery/` and is not on Reddit's image hosts
/// is an Imgur album, with the post's URL.
pub proof fn lemma_imgur_album_links(post: Post)
    requires
        plain_link(post),
        contains(before_first(post.url->0@, '#'), "imgur.com/a/"@) || contains(
            before_first(post.url->0@, '#'),
            "imgur.com/gallery/"@,
        ),
        !contains(before_first(post.url->0@, '#'), "i.redd.it"@),
        !contains(before_first(post.url->0@, '#'), "preview.redd.it"@),
    ensures
        media_kind(post) == (MediaKind::ImgurAlbum { url: post.url->0@ }),
{
}

/// A self post is a self post whatever else it holds; a post that is not one
/// and has no http(s) URL has no media; a Reddit gallery with an http(s) URL
/// is a gallery.
pub proof fn lemma_post_kinds(post: Post)
    ensures
        post.is_self ==> media_kind(post) == MediaKind::SelfPost,
        !post.is_self && (post.url is None || !(starts_with(post.url->0@, "http://"@) || starts_with(
            post.url->0@,
            "https://"@,
        ))) ==> media_kind(post) == MediaKind::NoMedia,
        !post.is_self && post.url is Some && (starts_with(post.url->0@, "http://"@) || starts_with(
            post.url->0@,
            "https://"@,
        )) && post.is_gallery == Some(true) ==> media_kind(post) == MediaKind::RedditGallery,
{
}

/// Images on Reddit's hosts: a plain link whose URL, fragment aside, is on
/// `i.redd.it` or `preview.redd.it` is a direct image with the post's URL and
/// the URL's extension, or `jpg` without one, even where it also names Imgur.
pub proof fn lemma_reddit_hosted_images(post: Post)
    requires
        plain_link(post),
        contains(before_first(post.url->0@, '#'), "i.redd.it"@) || contains(
            before_first(post.url->0@, '#'),
            "preview.redd.it"@,
        ),
    ensures
        media_kind(post) == (MediaKind::DirectImage {
            url: post.url->0@,
            extension: match url_extension(before_first(post.url->0@, '#')) {
                Some(e) => e,
                None => "jpg"@,
            },
        }),
{
}

/// A Reddit video, with an http(s) link, that is neither a self post nor a
/// gallery is its fallback stream with the audio stream beside it.
pub proof fn lemma_reddit_videos(post: Post)
    requires
        !post.is_self,
        post.url is Some,
        starts_with(post.url->0@, "http://"@) || starts_with(post.url->0@, "https://"@),
        post.is_gallery != Some(true),
        post.is_video,
        post.media is Some,
        post.media->0.reddit_video is Some,
    ensures
        media_kind(post) == (MediaKind::RedditVideo {
            video_url: post.media->0.reddit_video->0.fallback_url@,
            audio_url: audio_url_of(post.media->0.reddit_video->0.fallback_url@),
        }),
{
}

/// Whatever kind a post with a URL resolves to, a kind that carries a URL
/// carries the post's own URL, unchanged.
pub proof fn lemma_kind_keeps_url(post: Post)
    requires
        post.url is Some,
    ensures
        media_kind(post) matches MediaKind::DirectImage { url, .. } ==> url == post.url->0@,
        media_kind(post) matches MediaKind::ImgurSingle { url } ==> url == post.url->0@,
        media_kind(post) matches MediaKind::ImgurAlbum { url } ==> url == post.url->0@,
        media_kind(post) matches MediaKind::ExternalLink { url } ==> url == post.url->0@,
{
}

} // verus!
