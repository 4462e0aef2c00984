//! Decisions of media downloading: size limits, retries, gallery layouts.
use vstd::prelude::*;
use crate::download::resolver::{extension_from_url, url_extension};
use crate::error::Error;
use crate::paths::{join, path_join};
use crate::post::{MediaMetadataItem, Post};
use crate::text::{
    chars_of, contains, contains_str, decimal, eq_str, find_from, push_char, push_str,
    replace, replace_exec, starts_with, string_from, u64_to_decimal,
};

verus! {

/// The largest file, in bytes, that is downloaded (500 MiB).
pub const MAX_FILE_SIZE: u64 = 524288000;

/// The number of extra attempts after a transient download failure.
pub const DOWNLOAD_RETRIES: u32 = 2;

/// The file extension a MIME type names.
pub open spec fn mime_extension(mime: Seq<char>) -> Option<Seq<char>> {
    if mime == "image/jpeg"@ || mime == "image/jpg"@ {
        Some("jpg"@)
    } else if mime == "image/png"@ {
        Some("png"@)
    } else if mime == "image/gif"@ {
        Some("gif"@)
    } else if mime == "image/webp"@ {
        Some("webp"@)
    } else if mime == "video/mp4"@ {
        Some("mp4"@)
    } else {
        None
    }
}

/// Maps a MIME type string to a file extension.
pub fn ext_from_mime(mime: &str) -> (r: Option<String>)
    ensures
        match r {
            Some(e) => mime_extension(mime@) == Some(e@),
            None => mime_extension(mime@) is None,
        },
{
    if eq_str(mime, "image/jpeg") || eq_str(mime, "image/jpg") {
        Some(String::from_str("jpg"))
    } else if eq_str(mime, "image/png") {
        Some(String::from_str("png"))
    } else if eq_str(mime, "image/gif") {
        Some(String::from_str("gif"))
    } else if eq_str(mime, "image/webp") {
        Some(String::from_str("webp"))
    } else if eq_str(mime, "video/mp4") {
        Some(String::from_str("mp4"))
    } else {
        None
    }
}

/// A download failure that no retry can mend: the server answered 403 or 404.
pub open spec fn permanent_failure(e: Error) -> bool {
    match e {
        Error::Other(msg) => contains(msg@, "HTTP 403"@) || contains(msg@, "HTTP 404"@),
        _ => false,
    }
}

/// Returns true if the error is permanent and should not be retried.
pub fn is_permanent_download_error(e: &Error) -> (r: bool)
    ensures
        r == permanent_failure(*e),
{
    match e {
        Error::Other(msg) => {
            let m = chars_of(msg.as_str());
            contains_str(&m, "HTTP 403") || contains_str(&m, "HTTP 404")
        },
        _ => false,
    }
}

/// What follows a failed download attempt.
#[derive(Debug, PartialEq, Eq)]
pub enum RetryStep {
    /// Wait this many seconds, then try again.
    Retry { delay_secs: u64 },
    /// Report the failure.
    GiveUp,
}

/// After the failure `e` of attempt `attempt` (from zero): a permanent failure
/// is reported at once; otherwise the download is tried again, after as many
/// seconds as the number of the next attempt, until all attempts are used.
pub open spec fn retry_step(attempt: u32, e: Error) -> RetryStep {
    if permanent_failure(e) {
        RetryStep::GiveUp
    } else if attempt + 1 < DOWNLOAD_RETRIES + 1 {
        RetryStep::Retry { delay_secs: (attempt + 1) as u64 }
    } else {
        RetryStep::GiveUp
    }
}

/// Decides what follows the failure `e` of download attempt `attempt`.
pub fn after_download_failure(attempt: u32, e: &Error) -> (r: RetryStep)
    ensures
        r == retry_step(attempt, *e),
{
    if is_permanent_download_error(e) {
        RetryStep::GiveUp
    } else if attempt < DOWNLOAD_RETRIES {
        RetryStep::Retry { delay_secs: attempt as u64 + 1 }
    } else {
        RetryStep::GiveUp
    }
}

/// The two streaming downloaders, which word their errors differently.
#[derive(Debug, Clone, Copy, PartialEq, Eq)]
pub enum Transfer {
    /// A media file downloaded straight to its final path.
    Direct,
    /// A stream downloaded to a temporary file.
    ToFile,
}

/// The error for an HTTP status that ends an attempt: 403 and 404 are
/// permanent, any other status outside 200..=299 is transient.
pub open spec fn status_error(status: u16, status_text: Seq<char>, url: Seq<char>, t: Transfer) -> Option<
    Seq<char>,
> {
    let middle = if t == Transfer::Direct {
        " downloading "@
    } else {
        " for "@
    };
    if status == 403 || status == 404 {
        Some("HTTP "@ + status_text + " (permanent)"@ + middle + url)
    } else if !(200 <= status <= 299) {
        Some("HTTP "@ + status_text + middle + url)
    } else {
        None
    }
}

/// Checks the HTTP status of a download response. `status_text` is how the
/// status is displayed, such as `404 Not Found`.
pub fn check_status(status: u16, status_text: &str, url: &str, t: Transfer) -> (r: Result<(), Error>)
    ensures
        match r {
            Ok(()) => status_error(status, status_text@, url@, t) is None,
            Err(Error::Other(msg)) => status_error(status, status_text@, url@, t) == Some(msg@),
            Err(_) => false,
        },
{
    let permanent = status == 403 || status == 404;
    if !permanent && 200 <= status && status <= 299 {
        return Ok(());
    }
    let mut msg = String::from_str("HTTP ");
    push_str(&mut msg, status_text);
    if permanent {
        push_str(&mut msg, " (permanent)");
    }
    match t {
        Transfer::Direct => push_str(&mut msg, " downloading "),
        Transfer::ToFile => push_str(&mut msg, " for "),
    }
    push_str(&mut msg, url);
    Err(Error::Other(msg))
}

/// A status of 403 or 404 gives an error that is never retried, when the
/// status text begins with the code, as an HTTP status is displayed.
pub proof fn lemma_permanent_status_not_retried(
    status: u16,
    status_text: Seq<char>,
    url: Seq<char>,
    t: Transfer,
    msg: String,
    attempt: u32,
)
    requires
        status == 403 || status == 404,
        starts_with(status_text, decimal(status as nat)),
        status_error(status, status_text, url, t) == Some(msg@),
    ensures
        permanent_failure(Error::Other(msg)),
        retry_step(attempt, Error::Other(msg)) == RetryStep::GiveUp,
{
    reveal_strlit("HTTP 403");
    reveal_strlit("HTTP 404");
    reveal_strlit("HTTP ");
    reveal_strlit(" (permanent)");
    reveal_with_fuel(decimal, 3);
    let m = msg@;
    let d = decimal(status as nat);
    assert(d.len() == 3);
    assert(m.subrange(0, 5) == "HTTP "@);
    assert(m.subrange(5, 8) == status_text.take(3));
    if status == 403 {
        assert(d == seq!['4', '0', '3']);
        assert(m.subrange(0, 8) == "HTTP 403"@);
        assert(find_from(m, "HTTP 403"@, 0) == Some(0int));
    } else {
        assert(d == seq!['4', '0', '4']);
        assert(m.subrange(0, 8) == "HTTP 404"@);
        assert(find_from(m, "HTTP 404"@, 0) == Some(0int));
    }
}


/// The error for a declared `Content-Length` above the limit.
pub open spec fn content_length_error(len: Option<u64>, url: Seq<char>, t: Transfer) -> Option<Seq<char>> {
    match len {
        Some(n) => if n > MAX_FILE_SIZE {
            Some("File too large ("@ + decimal(n as nat) + " bytes, limit "@ + decimal(
                MAX_FILE_SIZE as nat,
            ) + if t == Transfer::Direct {
                " bytes): "@
            } else {
                "): "@
            } + url)
        } else {
            None
        },
        None => None,
    }
}

/// Rejects a response whose declared length exceeds [`MAX_FILE_SIZE`].
pub fn check_content_length(len: Option<u64>, url: &str, t: Transfer) -> (r: Result<(), Error>)
    ensures
        match r {
            Ok(()) => content_length_error(len, url@, t) is None,
            Err(Error::Other(msg)) => content_length_error(len, url@, t) == Some(msg@),
            Err(_) => false,
        },
{
    match len {
        Some(n) => {
            if n > MAX_FILE_SIZE {
                let mut msg = String::from_str("File too large (");
                let ns = u64_to_decimal(n);
                push_str(&mut msg, ns.as_str());
                push_str(&mut msg, " bytes, limit ");
                let lim = u64_to_decimal(MAX_FILE_SIZE);
                push_str(&mut msg, lim.as_str());
                match t {
                    Transfer::Direct => push_str(&mut msg, " bytes): "),
                    Transfer::ToFile => push_str(&mut msg, "): "),
                }
                push_str(&mut msg, url);
                return Err(Error::Other(msg));
            }
            Ok(())
        },
        None => Ok(()),
    }
}

/// The count of bytes streamed to a file so far.
pub struct StreamTally {
    pub bytes_written: u64,
}

/// The error once more than [`MAX_FILE_SIZE`] bytes have been streamed.
pub open spec fn too_large_error(url: Seq<char>) -> Seq<char> {
    "File too large (exceeded "@ + decimal(MAX_FILE_SIZE as nat) + " bytes during download): "@ + url
}

/// The error for a response without a body.
pub open spec fn empty_body_error(url: Seq<char>) -> Seq<char> {
    "Empty response body (0 bytes) for "@ + url
}

impl StreamTally {
    /// Nothing streamed yet.
    pub fn new() -> (r: Self)
        ensures
            r.bytes_written == 0,
    {
        StreamTally { bytes_written: 0 }
    }

    /// Counts a chunk of `n` bytes. Once the total exceeds [`MAX_FILE_SIZE`]
    /// the download is abandoned with an error.
    pub fn add_chunk(&mut self, n: usize, url: &str) -> (r: Result<(), Error>)
        requires
            old(self).bytes_written <= MAX_FILE_SIZE,
        ensures
            old(self).bytes_written + n <= MAX_FILE_SIZE ==> r is Ok && final(self).bytes_written
                == old(self).bytes_written + n,
            old(self).bytes_written + n > MAX_FILE_SIZE ==> (match r {
                Err(Error::Other(msg)) => msg@ == too_large_error(url@),
                _ => false,
            }) && final(self).bytes_written == old(self).bytes_written,
    {
        if n as u64 > MAX_FILE_SIZE - self.bytes_written {
            let mut msg = String::from_str("File too large (exceeded ");
            let lim = u64_to_decimal(MAX_FILE_SIZE);
            push_str(&mut msg, lim.as_str());
            push_str(&mut msg, " bytes during download): ");
            push_str(&mut msg, url);
            return Err(Error::Other(msg));
        }
        self.bytes_written = self.bytes_written + n as u64;
        Ok(())
    }

    /// Ends the stream: an empty body is an error.
    pub fn finish(&self, url: &str) -> (r: Result<(), Error>)
        ensures
            self.bytes_written > 0 ==> r is Ok,
            self.bytes_written == 0 ==> (match r {
                Err(Error::Other(msg)) => msg@ == empty_body_error(url@),
                _ => false,
            }),
    {
        if self.bytes_written == 0 {
            let mut msg = String::from_str("Empty response body (0 bytes) for ");
            push_str(&mut msg, url);
            return Err(Error::Other(msg));
        }
        Ok(())
    }
}

/// What `Path::with_extension` makes of a path held as text and an
/// extension: the path with its extension replaced, or added, or removed
/// where `ext` is empty.
pub uninterp spec fn path_with_extension(path: Seq<char>, ext: Seq<char>) -> Seq<char>;

/// `std::path::Path::with_extension`, on a path held as text. It panics on an
/// extension that holds a path separator, so such an extension is not
/// accepted. The contract claims only that the result is a function of the
/// path and the extension, named [`path_with_extension`]; both arguments are
/// UTF-8, so the text of the result loses nothing.
#[verifier::external_body]
fn with_extension(path: &str, ext: &str) -> (r: String)
    requires
        !ext@.contains('/'),
        !ext@.contains('\\'),
    ensures
        r@ == path_with_extension(path@, ext@),
{
    std::path::Path::new(path).with_extension(ext).to_string_lossy().into_owned()
}

/// The partial files of a Reddit video, written beside its final file.
pub struct VideoTempFiles {
    pub video: String,
    pub audio: String,
}

/// The final path without its extension, which both partial files extend.
pub open spec fn video_temp_base(path: Seq<char>) -> Seq<char> {
    path_with_extension(path, ""@)
}

/// Where the video and the audio track of the video saved at `path` are
/// downloaded before they become the final file.
pub fn video_temp_files(path: &str) -> (r: VideoTempFiles)
    ensures
        r.video@ == path_with_extension(video_temp_base(path@), "_video.mp4.tmp"@),
        r.audio@ == path_with_extension(video_temp_base(path@), "_audio.mp4.tmp"@),
{
    proof {
        reveal_strlit("");
        reveal_strlit("_video.mp4.tmp");
        reveal_strlit("_audio.mp4.tmp");
    }
    let base = with_extension(path, "");
    let video = with_extension(base.as_str(), "_video.mp4.tmp");
    let audio = with_extension(base.as_str(), "_audio.mp4.tmp");
    VideoTempFiles { video, audio }
}

/// How a Reddit video download ends once its video track is saved.
#[derive(PartialEq, Eq, Structural, Debug, Clone, Copy)]
pub enum VideoFinish {
    /// Merge both tracks into the final file with ffmpeg and remove the
    /// partial files.
    Merge,
    /// The video track alone becomes the final file; `remove_audio` says
    /// whether a downloaded audio track is deleted.
    VideoOnly { remove_audio: bool },
}

/// `audio` is `None` for a video without an audio track, else whether the
/// track downloaded; `ffmpeg` whether ffmpeg can be run. Only a downloaded
/// audio track makes ffmpeg matter.
pub open spec fn video_finish_spec(audio: Option<bool>, ffmpeg: bool) -> VideoFinish {
    match audio {
        Some(true) => if ffmpeg {
            VideoFinish::Merge
        } else {
            VideoFinish::VideoOnly { remove_audio: true }
        },
        _ => VideoFinish::VideoOnly { remove_audio: false },
    }
}

/// Decides how a Reddit video download ends, from the outcome of its audio
/// track and whether ffmpeg is available.
pub fn video_finish(audio: Option<bool>, ffmpeg: bool) -> (r: VideoFinish)
    ensures
        r == video_finish_spec(audio, ffmpeg),
{
    match audio {
        Some(true) => if ffmpeg {
            VideoFinish::Merge
        } else {
            VideoFinish::VideoOnly { remove_audio: true }
        },
        _ => VideoFinish::VideoOnly { remove_audio: false },
    }
}

/// The error for an ffmpeg run that did not succeed.
pub open spec fn ffmpeg_failure_message(status_text: Seq<char>, path: Seq<char>) -> Seq<char> {
    "ffmpeg exited with status "@ + status_text + " for "@ + path
}

/// The outcome of merging with ffmpeg: success, or an error naming the exit
/// status (as displayed, such as `exit status: 1`) and the final path.
pub fn ffmpeg_outcome(success: bool, status_text: &str, path: &str) -> (r: Result<(), Error>)
    ensures
        success ==> r is Ok,
        !success ==> (match r {
            Err(Error::Other(msg)) => msg@ == ffmpeg_failure_message(status_text@, path@),
            _ => false,
        }),
{
    if success {
        return Ok(());
    }
    let mut msg = String::from_str("ffmpeg exited with status ");
    push_str(&mut msg, status_text);
    push_str(&mut msg, " for ");
    push_str(&mut msg, path);
    Err(Error::Other(msg))
}

/// One image of a gallery: where to fetch it and where to write it.
pub struct GalleryFile {
    pub url: String,
    pub path: String,
}

/// The first rendition present: mp4, then the direct URL, then gif.
pub open spec fn preferred_rendition(mp4: Option<String>, u: Option<String>, gif: Option<String>) -> Option<
    Seq<char>,
> {
    match mp4 {
        Some(m) => Some(m@),
        None => match u {
            Some(x) => Some(x@),
            None => match gif {
                Some(g) => Some(g@),
                None => None,
            },
        },
    }
}

/// The file of the gallery item numbered `number` (from one), or `None` when it
/// is skipped: missing from the metadata, with a status other than `valid` or
/// empty, without a source, or without a usable URL. The URL is
/// HTML-unescaped (`&amp;` becomes `&`); the extension comes from the MIME
/// type, else the URL, else is `jpg`.
pub open spec fn gallery_item_file(
    metadata: Map<Seq<char>, MediaMetadataItem>,
    media_id: Seq<char>,
    dir: Seq<char>,
    number: nat,
) -> Option<(Seq<char>, Seq<char>)> {
    if !metadata.contains_key(media_id) {
        None
    } else {
        let meta = metadata[media_id];
        if meta.status@ != "valid"@ && meta.status@.len() != 0 {
            None
        } else {
            match meta.s {
                None => None,
                Some(src) => match preferred_rendition(src.mp4, src.u, src.gif) {
                    None => None,
                    Some(raw) => {
                        let url = replace(raw, "&amp;"@, "&"@);
                        let ext = match mime_extension(meta.m@) {
                            Some(e) => e,
                            None => match url_extension(url) {
                                Some(e) => e,
                                None => "jpg"@,
                            },
                        };
                        Some((url, join(dir, decimal(number) + "."@ + ext)))
                    },
                },
            }
        }
    }
}

/// The files of the first `n` gallery items, in gallery order.
pub open spec fn gallery_plan(
    ids: Seq<Seq<char>>,
    metadata: Map<Seq<char>, MediaMetadataItem>,
    dir: Seq<char>,
    n: int,
) -> Seq<(Seq<char>, Seq<char>)>
    decreases n,
{
    if n <= 0 || n > ids.len() {
        Seq::empty()
    } else {
        let prev = gallery_plan(ids, metadata, dir, n - 1);
        match gallery_item_file(metadata, ids[n - 1], dir, n as nat) {
            Some(f) => prev.push(f),
            None => prev,
        }
    }
}

/// The media ids of a gallery, in order.
pub open spec fn gallery_ids(post: Post) -> Seq<Seq<char>> {
    post.gallery_data->0.items@.map_values(|it: crate::post::GalleryItem| it.media_id@)
}

/// The files of a gallery post, or `None` when the post lacks gallery data
/// or media metadata.
pub open spec fn gallery_files_spec(post: Post, dir: Seq<char>) -> Option<Seq<(Seq<char>, Seq<char>)>> {
    if post.gallery_data is None || post.media_metadata is None {
        None
    } else {
        let ids = gallery_ids(post);
        Some(gallery_plan(ids, post.media_metadata->0@, dir, ids.len() as int))
    }
}

/// A planned file by its characters.
pub open spec fn gallery_file_view(f: GalleryFile) -> (Seq<char>, Seq<char>) {
    (f.url@, f.path@)
}

fn gallery_item_file_exec(meta: &MediaMetadataItem, dir: &str, number: u64) -> (r: Option<
    GalleryFile,
>)
    ensures
        match r {
            Some(f) => Some(gallery_file_view(f)) == gallery_item_file(
                Map::empty().insert(Seq::<char>::empty(), *meta),
                Seq::<char>::empty(),
                dir@,
                number as nat,
            ),
            None => gallery_item_file(
                Map::empty().insert(Seq::<char>::empty(), *meta),
                Seq::<char>::empty(),
                dir@,
                number as nat,
            ) is None,
        },
{
    let ghost md = Map::empty().insert(Seq::<char>::empty(), *meta);
    assert(md.contains_key(Seq::<char>::empty()));
    assert(md[Seq::<char>::empty()] == *meta);
    if !eq_str(meta.status.as_str(), "valid") && meta.status.as_str().unicode_len() != 0 {
        return None;
    }
    let source = match &meta.s {
        Some(s) => s,
        None => return None,
    };
    let raw = match &source.mp4 {
        Some(m) => m,
        None => match &source.u {
            Some(u) => u,
            None => match &source.gif {
                Some(g) => g,
                None => return None,
            },
        },
    };
    let rv = chars_of(raw.as_str());
    let from = chars_of("&amp;");
    let to = chars_of("&");
    proof {
        reveal_strlit("&amp;");
    }
    let uv = replace_exec(&rv, &from, &to);
    let url = string_from(&uv);
    let ext = match ext_from_mime(meta.m.as_str()) {
        Some(e) => e,
        None => match extension_from_url(url.as_str()) {
            Some(e) => e,
            None => String::from_str("jpg"),
        },
    };
    let mut name = u64_to_decimal(number);
    push_char(&mut name, '.');
    push_str(&mut name, ext.as_str());
    proof {
        reveal_strlit(".");
    }
    let path = path_join(dir, name.as_str());
    Some(GalleryFile { url, path })
}

/// Plans the downloads of a gallery post's images into `gallery_dir`: the
/// item numbered `n` (from one) is written to `{gallery_dir}/{n}.{ext}`.
/// Returns `None` when the post lacks gallery data or media metadata.
pub fn gallery_files(post: &Post, gallery_dir: &str) -> (r: Option<Vec<GalleryFile>>)
    ensures
        match r {
            Some(v) => gallery_files_spec(*post, gallery_dir@) == Some(
                v@.map_values(|f: GalleryFile| gallery_file_view(f)),
            ),
            None => gallery_files_spec(*post, gallery_dir@) is None,
        },
{
    let gallery_data = match &post.gallery_data {
        Some(gd) => gd,
        None => return None,
    };
    let metadata = match &post.media_metadata {
        Some(mm) => mm,
        None => return None,
    };
    let ghost ids = gallery_ids(*post);
    let mut r: Vec<GalleryFile> = Vec::new();
    let mut i: usize = 0;
    while i < gallery_data.items.len()
        invariant
            i <= gallery_data.items.len(),
            ids == gallery_data.items@.map_values(|it: crate::post::GalleryItem| it.media_id@),
            r@.map_values(|f: GalleryFile| gallery_file_view(f)) == gallery_plan(
                ids,
                metadata@,
                gallery_dir@,
                i as int,
            ),
        decreases gallery_data.items.len() - i,
    {
        let ghost prev = r@.map_values(|f: GalleryFile| gallery_file_view(f));
        let item = &gallery_data.items[i];
        assert(ids[i as int] == item.media_id@);
        match metadata.get(item.media_id.as_str()) {
            Some(meta) => {
                let f = gallery_item_file_exec(meta, gallery_dir, (i + 1) as u64);
                assert(gallery_item_file(metadata@, ids[i as int], gallery_dir@, (i + 1) as nat)
                    == gallery_item_file(
                    Map::empty().insert(Seq::<char>::empty(), *meta),
                    Seq::<char>::empty(),
                    gallery_dir@,
                    (i + 1) as nat,
                ));
                match f {
                    Some(f) => {
                        r.push(f);
                        assert(r@.map_values(|f: GalleryFile| gallery_file_view(f)) == prev.push(
                            gallery_file_view(f),
                        ));
                    },
                    None => {},
                }
            },
            None => {},
        }
        i = i + 1;
    }
    Some(r)
}

/// The number of `true` outcomes among the first `n`.
pub open spec fn successes(outcomes: Seq<bool>, n: int) -> nat
    decreases n,
{
    if n <= 0 || n > outcomes.len() {
        0
    } else {
        successes(outcomes, n - 1) + if outcomes[n - 1] {
            1nat
        } else {
            0nat
        }
    }
}

/// Counting further outcomes never lowers the count.
proof fn lemma_successes_grow(outcomes: Seq<bool>, m: int, n: int)
    requires
        0 <= m <= n <= outcomes.len(),
    ensures
        successes(outcomes, m) <= successes(outcomes, n),
    decreases n - m,
{
    if m < n {
        lemma_successes_grow(outcomes, m, n - 1);
    }
}

/// How many files of a gallery or album were saved, from the outcome of each
/// download: the successes, at most one per file.
pub fn saved_count(outcomes: &Vec<bool>) -> (r: u32)
    requires
        successes(outcomes@, outcomes.len() as int) <= u32::MAX,
    ensures
        r == successes(outcomes@, outcomes.len() as int),
        r <= outcomes.len(),
{
    let mut count: u32 = 0;
    let mut i: usize = 0;
    while i < outcomes.len()
        invariant
            i <= outcomes.len(),
            successes(outcomes@, outcomes.len() as int) <= u32::MAX,
            count == successes(outcomes@, i as int),
            count <= i,
        decreases outcomes.len() - i,
    {
        proof {
            lemma_successes_grow(outcomes@, i + 1, outcomes.len() as int);
        }
        if outcomes[i] {
            count = count + 1;
        }
        i = i + 1;
    }
    count
}

} // verus!
