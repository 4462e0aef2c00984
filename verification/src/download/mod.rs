//! What to download for a post, and where to write it.
use vstd::prelude::*;
use crate::config::DownloadConfig;
use crate::download::imgur::{resolve_single_url, resolved_single};
use crate::download::resolver::{MediaKind, MediaType};
use crate::paths::join;
use crate::post::Post;
use crate::storage::filesystem::{file_name, source_dir_spec, OutputManager};

pub mod imgur;
pub mod media;
pub mod redgifs;
pub mod resolver;
pub mod text;

verus! {

/// For an Imgur single-image URL, the direct download URL and extension.
pub fn resolve_imgur_single_url(url: &str) -> (r: (String, String))
    ensures
        (r.0@, r.1@) == resolved_single(url@),
{
    resolve_single_url(url)
}

/// The work a post's media needs.
#[derive(Debug)]
pub enum DownloadAction {
    /// Write the post's text as Markdown to `path`, and its comments to
    /// `comments_path` when comments are archived.
    SelfPost { path: String, comments_path: Option<String> },
    /// Download `url` to `path`.
    Direct { url: String, path: String },
    /// Download a Reddit video and, when there is one, its audio to `path`.
    RedditVideo { video_url: String, audio_url: Option<String>, path: String },
    /// Download a gallery into `dir`.
    Gallery { dir: String },
    /// Imgur albums are not downloaded; a warning names the URL.
    ImgurAlbum { url: String },
    /// An external link is not downloaded.
    ExternalLink { url: String },
    /// The post has no media.
    NoMedia,
}

/// A [`DownloadAction`] by the characters of its strings.
pub enum ActionKind {
    SelfPost { path: Seq<char>, comments_path: Option<Seq<char>> },
    Direct { url: Seq<char>, path: Seq<char> },
    RedditVideo { video_url: Seq<char>, audio_url: Option<Seq<char>>, path: Seq<char> },
    Gallery { dir: Seq<char> },
    ImgurAlbum { url: Seq<char> },
    ExternalLink { url: Seq<char> },
    NoMedia,
}

impl View for DownloadAction {
    type V = ActionKind;

    open spec fn view(&self) -> ActionKind {
        match self {
            DownloadAction::SelfPost { path, comments_path } => ActionKind::SelfPost {
                path: path@,
                comments_path: match comments_path {
                    Some(c) => Some(c@),
                    None => None,
                },
            },
            DownloadAction::Direct { url, path } => ActionKind::Direct { url: url@, path: path@ },
            DownloadAction::RedditVideo { video_url, audio_url, path } => ActionKind::RedditVideo {
                video_url: video_url@,
                audio_url: match audio_url {
                    Some(a) => Some(a@),
                    None => None,
                },
                path: path@,
            },
            DownloadAction::Gallery { dir } => ActionKind::Gallery { dir: dir@ },
            DownloadAction::ImgurAlbum { url } => ActionKind::ImgurAlbum { url: url@ },
            DownloadAction::ExternalLink { url } => ActionKind::ExternalLink { url: url@ },
            DownloadAction::NoMedia => ActionKind::NoMedia,
        }
    }
}

/// The path of one of a post's files, named by its title where the naming
/// scheme asks for it.
pub open spec fn post_file(
    output: OutputManager,
    source_type: Seq<char>,
    source_name: Seq<char>,
    post: Post,
    ext: Seq<char>,
) -> Seq<char> {
    join(
        source_dir_spec(output.base(), source_type, source_name),
        file_name(output.naming(), post.id@, Some(post.title@), ext),
    )
}

/// The work for each media type: a self-post becomes `.md` (and
/// `.comments.json` when comments are archived); direct media keep their
/// extension; a Reddit video becomes `.mp4`; a gallery gets its own
/// directory `{id}_gallery`; an Imgur single image is resolved to a direct
/// URL and extension first; anything else is not downloaded.
pub open spec fn planned_action(
    kind: MediaKind,
    post: Post,
    source_type: Seq<char>,
    source_name: Seq<char>,
    output: OutputManager,
    include_comments: bool,
) -> ActionKind {
    match kind {
        MediaKind::SelfPost => ActionKind::SelfPost {
            path: post_file(output, source_type, source_name, post, "md"@),
            comments_path: if include_comments {
                Some(post_file(output, source_type, source_name, post, "comments.json"@))
            } else {
                None
            },
        },
        MediaKind::DirectImage { url, extension } => ActionKind::Direct {
            url,
            path: post_file(output, source_type, source_name, post, extension),
        },
        MediaKind::RedditVideo { video_url, audio_url } => ActionKind::RedditVideo {
            video_url,
            audio_url,
            path: post_file(output, source_type, source_name, post, "mp4"@),
        },
        MediaKind::RedditGallery => ActionKind::Gallery {
            dir: join(source_dir_spec(output.base(), source_type, source_name), post.id@ + "_gallery"@),
        },
        MediaKind::ImgurSingle { url } => ActionKind::Direct {
            url: resolved_single(url).0,
            path: post_file(output, source_type, source_name, post, resolved_single(url).1),
        },
        MediaKind::ImgurAlbum { url } => ActionKind::ImgurAlbum { url },
        MediaKind::ExternalLink { url } => ActionKind::ExternalLink { url },
        MediaKind::NoMedia => ActionKind::NoMedia,
    }
}

/// Decides the work for a post's media type.
pub fn plan_download(
    media_type: MediaType,
    post: &Post,
    source_type: &str,
    source_name: &str,
    output: &OutputManager,
    config: &DownloadConfig,
) -> (r: DownloadAction)
    ensures
        r@ == planned_action(
            media_type@,
            *post,
            source_type@,
            source_name@,
            *output,
            config.include_comments,
        ),
{
    let title = Some(post.title.as_str());
    match media_type {
        MediaType::SelfPost => {
            let path = output.post_path(source_type, source_name, post.id.as_str(), title, "md");
            let comments_path = if config.include_comments {
                Some(
                    output.post_path(
                        source_type,
                        source_name,
                        post.id.as_str(),
                        title,
                        "comments.json",
                    ),
                )
            } else {
                None
            };
            DownloadAction::SelfPost { path, comments_path }
        },
        MediaType::DirectImage { url, extension } => {
            let path = output.post_path(
                source_type,
                source_name,
                post.id.as_str(),
                title,
                extension.as_str(),
            );
            DownloadAction::Direct { url, path }
        },
        MediaType::RedditVideo { video_url, audio_url } => {
            let path = output.post_path(source_type, source_name, post.id.as_str(), title, "mp4");
            DownloadAction::RedditVideo { video_url, audio_url, path }
        },
        MediaType::RedditGallery => {
            let dir = output.gallery_dir(source_type, source_name, post.id.as_str());
            DownloadAction::Gallery { dir }
        },
        MediaType::ImgurSingle { url } => {
            let (download_url, ext) = resolve_imgur_single_url(url.as_str());
            let path = output.post_path(
                source_type,
                source_name,
                post.id.as_str(),
                title,
                ext.as_str(),
            );
            DownloadAction::Direct { url: download_url, path }
        },
        MediaType::ImgurAlbum { url } => DownloadAction::ImgurAlbum { url },
        MediaType::ExternalLink { url } => DownloadAction::ExternalLink { url },
        MediaType::NoMedia => DownloadAction::NoMedia,
    }
}

/// The number of media files a post counts for, once its work is done: a
/// self-post counts one, plus one when comments were asked for, whether the
/// writes succeeded or not; a single download counts one when it succeeded;
/// a gallery counts the images saved; anything else counts none.
pub open spec fn files_counted(action: ActionKind, succeeded: bool, gallery_saved: u32) -> u32 {
    match action {
        ActionKind::SelfPost { comments_path, .. } => if comments_path is Some {
            2
        } else {
            1
        },
        ActionKind::Direct { .. } => if succeeded {
            1
        } else {
            0
        },
        ActionKind::RedditVideo { .. } => if succeeded {
            1
        } else {
            0
        },
        ActionKind::Gallery { .. } => gallery_saved,
        _ => 0,
    }
}

/// The number of media files a post counts for, once its work is done.
pub fn files_saved(action: &DownloadAction, succeeded: bool, gallery_saved: u32) -> (r: u32)
    ensures
        r == files_counted(action@, succeeded, gallery_saved),
{
    match action {
        DownloadAction::SelfPost { comments_path, .. } => if comments_path.is_some() {
            2
        } else {
            1
        },
        DownloadAction::Direct { .. } => if succeeded {
            1
        } else {
            0
        },
        DownloadAction::RedditVideo { .. } => if succeeded {
            1
        } else {
            0
        },
        DownloadAction::Gallery { .. } => gallery_saved,
        _ => 0,
    }
}

/// The path of a post's metadata sidecar, `.json`, when metadata is archived.
pub fn metadata_path(
    post: &Post,
    source_type: &str,
    source_name: &str,
    output: &OutputManager,
    config: &DownloadConfig,
) -> (r: Option<String>)
    ensures
        match r {
            Some(p) => config.include_metadata && p@ == post_file(
                *output,
                source_type@,
                source_name@,
                *post,
                "json"@,
            ),
            None => !config.include_metadata,
        },
{
    if config.include_metadata {
        Some(output.post_path(source_type, source_name, post.id.as_str(), Some(post.title.as_str()), "json"))
    } else {
        None
    }
}

} // verus!
