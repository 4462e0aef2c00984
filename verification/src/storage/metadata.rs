//! The metadata sidecar written beside each post's files.
use vstd::prelude::*;

verus! {

/// Metadata of a downloaded post. The creation time, a floating-point number,
/// is added by the writer of the sidecar.
#[derive(Debug, Clone)]
pub struct PostMetadata {
    pub id: String,
    pub title: String,
    pub author: String,
    pub subreddit: String,
    pub permalink: String,
    pub url: String,
    pub score: i64,
    pub num_comments: i64,
    pub is_self: bool,
    pub is_video: bool,
    pub selftext: Option<String>,
}

} // verus!
