//! Imgur links: album hashes, direct image URLs and file extensions.
use vstd::prelude::*;
use crate::download::media::{ext_from_mime, mime_extension};
use crate::download::resolver::{extension_from_url, is_media_extension, is_media_extension_exec, url_extension};
use crate::error::Error;
use crate::paths::{join, path_join};
use crate::text::{
    after_last, after_last_exec, before_first, before_first_exec, chars_of, decimal, eq_str, find,
    find_str, lemma_find_from, occurs_at, find_from, push_all, push_char, push_str, replace, replace_exec,
    string_from, string_of, trim_end_char, trim_end_char_exec, u64_to_decimal,
};

verus! {

/// An image of an Imgur album, as the Imgur API describes it.
#[derive(Debug, Clone)]
pub struct ImgurImage {
    pub id: String,
    pub link: String,
    pub mp4: Option<String>,
    pub mime_type: Option<String>,
}

/// A URL without its query, its fragment and its trailing slashes.
pub open spec fn url_core(url: Seq<char>) -> Seq<char> {
    trim_end_char(before_first(before_first(url, '?'), '#'), '/')
}

/// The non-empty rest of `u` after the first occurrence of `p`, if any.
pub open spec fn rest_after(u: Seq<char>, p: Seq<char>) -> Option<Seq<char>> {
    match find(u, p) {
        Some(pos) => if u.skip(pos + p.len()).len() > 0 {
            Some(u.skip(pos + p.len()))
        } else {
            None
        },
        None => None,
    }
}

/// The album hash of an Imgur URL: what follows `/a/`, or else what follows
/// `/gallery/`, once the query, fragment and trailing slashes are removed.
pub open spec fn album_hash(url: Seq<char>) -> Option<Seq<char>> {
    let u = url_core(url);
    match rest_after(u, "/a/"@) {
        Some(h) => Some(h),
        None => rest_after(u, "/gallery/"@),
    }
}

fn rest_after_exec(u: &Vec<char>, p: &str) -> (r: Option<String>)
    ensures
        match r {
            Some(h) => rest_after(u@, p@) == Some(h@),
            None => rest_after(u@, p@) is None,
        },
{
    let pv = chars_of(p);
    match find_str(u, p) {
        Some(pos) => {
            proof {
                lemma_find_from(u@, p@, 0);
                assert(find_from(u@, p@, 0) == Some(pos as int));
                assert(occurs_at(u@, p@, pos as int));
            }
            let n = u.len();
            assert(pos + pv.len() <= n);
            let start = pos + pv.len();
            assert(u@.subrange(start as int, n as int) == u@.skip(start as int));
            if start < n {
                Some(string_of(u, start, n))
            } else {
                None
            }
        },
        None => None,
    }
}

/// Extracts the album hash from an Imgur URL such as `imgur.com/a/HASH` or
/// `imgur.com/gallery/HASH`.
pub fn extract_album_hash(url: &str) -> (r: Option<String>)
    ensures
        match r {
            Some(h) => album_hash(url@) == Some(h@),
            None => album_hash(url@) is None,
        },
{
    let u = chars_of(url);
    let a = before_first_exec(&u, '?');
    let b = before_first_exec(&a, '#');
    let core = trim_end_char_exec(&b, '/');
    match rest_after_exec(&core, "/a/") {
        Some(h) => Some(h),
        None => rest_after_exec(&core, "/gallery/"),
    }
}

/// A single Imgur URL resolved to a direct download URL and extension: a URL
/// with a recognised extension is kept (`.gifv` becomes `.mp4`); otherwise the
/// last path segment is taken as the image hash of a JPEG on i.imgur.com.
pub open spec fn resolved_single(url: Seq<char>) -> (Seq<char>, Seq<char>) {
    if url_extension(url) is Some && is_media_extension(url_extension(url)->0) {
        let e = url_extension(url)->0;
        if e == "gifv"@ {
            (replace(url, ".gifv"@, ".mp4"@), "mp4"@)
        } else {
            (url, e)
        }
    } else {
        let hash = after_last(trim_end_char(url, '/'), '/');
        ("https://i.imgur.com/"@ + hash + ".jpg"@, "jpg"@)
    }
}

/// Resolves a single Imgur URL to a direct download URL and extension.
pub fn resolve_single_url(url: &str) -> (r: (String, String))
    ensures
        (r.0@, r.1@) == resolved_single(url@),
{
    if let Some(ext) = extension_from_url(url) {
        if is_media_extension_exec(ext.as_str()) {
            if eq_str(ext.as_str(), "gifv") {
                let u = chars_of(url);
                let from = chars_of(".gifv");
                let to = chars_of(".mp4");
                proof {
                    reveal_strlit(".gifv");
                }
                let replaced = replace_exec(&u, &from, &to);
                return (string_from(&replaced), String::from_str("mp4"));
            }
            return (String::from_str(url), ext);
        }
    }
    let u = chars_of(url);
    let trimmed = trim_end_char_exec(&u, '/');
    let hash = after_last_exec(&trimmed, '/');
    let mut direct = String::from_str("https://i.imgur.com/");
    push_all(&mut direct, &hash);
    push_str(&mut direct, ".jpg");
    (direct, String::from_str("jpg"))
}

/// The file extension of an Imgur image: `mp4` when it has an mp4 rendition,
/// else the one its MIME type names, else its link's, else `jpg`.
pub open spec fn image_extension(image: ImgurImage) -> Seq<char> {
    if image.mp4 is Some {
        "mp4"@
    } else if image.mime_type is Some && mime_extension(image.mime_type->0@) is Some {
        mime_extension(image.mime_type->0@)->0
    } else {
        match url_extension(image.link@) {
            Some(e) => e,
            None => "jpg"@,
        }
    }
}

/// Determines the file extension of an Imgur image from its metadata.
pub fn extension_for_image(image: &ImgurImage) -> (r: String)
    ensures
        r@ == image_extension(*image),
{
    if image.mp4.is_some() {
        return String::from_str("mp4");
    }
    if let Some(mime) = &image.mime_type {
        if let Some(e) = ext_from_mime(mime.as_str()) {
            return e;
        }
    }
    match extension_from_url(image.link.as_str()) {
        Some(e) => e,
        None => String::from_str("jpg"),
    }
}

/// The Imgur API request for an album.
pub struct AlbumRequest {
    /// The album hash.
    pub hash: String,
    /// The API URL describing the album.
    pub api_url: String,
}

/// The API URL of an album.
pub open spec fn album_api_url(hash: Seq<char>) -> Seq<char> {
    "https://api.imgur.com/3/album/"@ + hash
}

/// The API request for the album a URL links to, or the error returned when
/// the URL names no album.
pub fn album_request(url: &str) -> (r: Result<AlbumRequest, Error>)
    ensures
        match r {
            Ok(req) => album_hash(url@) == Some(req.hash@) && req.api_url@ == album_api_url(
                req.hash@,
            ),
            Err(Error::Other(msg)) => album_hash(url@) is None && msg@
                == "Could not extract album hash from: "@ + url@,
            Err(_) => false,
        },
{
    match extract_album_hash(url) {
        Some(hash) => {
            let mut api_url = String::from_str("https://api.imgur.com/3/album/");
            push_str(&mut api_url, hash.as_str());
            Ok(AlbumRequest { hash, api_url })
        },
        None => {
            let mut msg = String::from_str("Could not extract album hash from: ");
            push_str(&mut msg, url);
            Err(Error::Other(msg))
        },
    }
}

/// The `Authorization` header value for the Imgur API.
pub open spec fn imgur_authorization(client_id: Seq<char>) -> Seq<char> {
    "Client-ID "@ + client_id
}

/// The `Authorization` header value for the Imgur API.
pub fn imgur_authorization_header(client_id: &str) -> (r: String)
    ensures
        r@ == imgur_authorization(client_id@),
{
    let mut h = String::from_str("Client-ID ");
    push_str(&mut h, client_id);
    h
}

/// The error for a refused album request.
pub open spec fn album_status_message(status_text: Seq<char>, hash: Seq<char>) -> Seq<char> {
    "Imgur API returned "@ + status_text + " for album "@ + hash
}

/// Accepts the response to an album request when its status is a success
/// (2xx); otherwise an error naming the status as displayed and the album.
pub fn check_album_status(status: u16, status_text: &str, hash: &str) -> (r: Result<(), Error>)
    ensures
        200 <= status <= 299 ==> r is Ok,
        !(200 <= status <= 299) ==> (match r {
            Err(Error::Other(msg)) => msg@ == album_status_message(status_text@, hash@),
            _ => false,
        }),
{
    if 200 <= status && status <= 299 {
        return Ok(());
    }
    let mut msg = String::from_str("Imgur API returned ");
    push_str(&mut msg, status_text);
    push_str(&mut msg, " for album ");
    push_str(&mut msg, hash);
    Err(Error::Other(msg))
}

/// One file of an album: where to fetch it and where to write it.
pub struct AlbumFile {
    pub url: String,
    pub path: String,
}

/// The download URL of an album image: its mp4 rendition, else its link.
pub open spec fn image_download_url(image: ImgurImage) -> Seq<char> {
    match image.mp4 {
        Some(m) => m@,
        None => image.link@,
    }
}

/// The files of an album: the `i`-th image (from zero) is written to
/// `{album_dir}/{i + 1}.{ext}`.
pub open spec fn album_file_ok(album_dir: Seq<char>, i: int, image: ImgurImage, f: AlbumFile) -> bool {
    &&& f.url@ == image_download_url(image)
    &&& f.path@ == join(album_dir, decimal((i + 1) as nat) + "."@ + image_extension(image))
}

/// Plans the downloads of an album's images, in album order.
pub fn album_files(images: &Vec<ImgurImage>, album_dir: &str) -> (r: Vec<AlbumFile>)
    ensures
        r.len() == images.len(),
        forall|i: int| 0 <= i < r.len() ==> album_file_ok(album_dir@, i, images@[i], #[trigger] r@[i]),
{
    let mut r: Vec<AlbumFile> = Vec::new();
    let mut i: usize = 0;
    while i < images.len()
        invariant
            i <= images.len(),
            r.len() == i,
            forall|j: int| 0 <= j < i ==> album_file_ok(album_dir@, j, images@[j], #[trigger] r@[j]),
        decreases images.len() - i,
    {
        let image = &images[i];
        let url = match &image.mp4 {
            Some(m) => m.clone(),
            None => image.link.clone(),
        };
        let ext = extension_for_image(image);
        let mut name = u64_to_decimal((i + 1) as u64);
        push_char(&mut name, '.');
        push_str(&mut name, ext.as_str());
        proof {
            reveal_strlit(".");
        }
        let path = path_join(album_dir, name.as_str());
        let ghost old_r = r@;
        r.push(AlbumFile { url, path });
        assert(url@ == image_download_url(images@[i as int]));
        assert(name@ == decimal((i + 1) as nat) + "."@ + image_extension(images@[i as int]));
        assert(path@ == join(album_dir@, name@));
        assert(album_file_ok(album_dir@, i as int, images@[i as int], r@[i as int]));
        assert forall|j: int| 0 <= j < i + 1 implies album_file_ok(album_dir@, j, images@[j], #[trigger] r@[j]) by {
            if j < i {
                assert(r@[j] == old_r[j]);
            }
        }
        i = i + 1;
    }
    r
}

} // verus!
