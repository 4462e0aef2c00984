use reddit_dl::config::FileNaming;
use reddit_dl::storage::filesystem::{sanitize_filename, OutputManager};
use std::path::PathBuf;

fn make_manager(naming: FileNaming) -> OutputManager {
    OutputManager::new("/tmp/reddit-archive".to_string(), naming)
}

// --- sanitize_filename ---

#[test]
fn sanitize_keeps_alphanumeric_and_allowed_chars() {
    assert_eq!(sanitize_filename("hello-world_123"), "hello-world_123");
}

#[test]
fn sanitize_replaces_slash_and_special_chars() {
    let result = sanitize_filename("foo/bar:baz?qux");
    assert_eq!(result, "foo_bar_baz_qux");
}

#[test]
fn sanitize_trims_leading_and_trailing_spaces() {
    assert_eq!(sanitize_filename("  hello  "), "hello");
}

#[test]
fn sanitize_truncates_to_100_chars() {
    let long = "a".repeat(200);
    let result = sanitize_filename(&long);
    assert_eq!(result.len(), 100);
}

#[test]
fn sanitize_empty_string_returns_empty() {
    assert_eq!(sanitize_filename(""), "");
}

// --- post_path ---

#[test]
fn post_path_id_naming_uses_id() {
    let mgr = make_manager(FileNaming::Id);
    let path = mgr.post_path("subreddit", "rust", "abc123", Some("Cool Post!"), "jpg");
    assert_eq!(
        PathBuf::from(path),
        PathBuf::from("/tmp/reddit-archive/subreddit/rust/abc123.jpg")
    );
}

#[test]
fn post_path_title_naming_uses_sanitized_title() {
    let mgr = make_manager(FileNaming::Title);
    let path = mgr.post_path("subreddit", "rust", "abc123", Some("Cool Post!"), "jpg");
    assert_eq!(
        PathBuf::from(path),
        PathBuf::from("/tmp/reddit-archive/subreddit/rust/Cool Post_.jpg")
    );
}

#[test]
fn post_path_title_naming_falls_back_to_id_when_no_title() {
    let mgr = make_manager(FileNaming::Title);
    let path = mgr.post_path("subreddit", "rust", "abc123", None, "png");
    assert_eq!(
        PathBuf::from(path),
        PathBuf::from("/tmp/reddit-archive/subreddit/rust/abc123.png")
    );
}

#[test]
fn post_path_id_title_naming_combines_both() {
    let mgr = make_manager(FileNaming::IdTitle);
    let path = mgr.post_path("subreddit", "rust", "abc123", Some("Great article"), "mp4");
    assert_eq!(
        PathBuf::from(path),
        PathBuf::from("/tmp/reddit-archive/subreddit/rust/abc123-Great article.mp4")
    );
}

#[test]
fn post_path_id_title_falls_back_to_id_when_title_is_empty() {
    let mgr = make_manager(FileNaming::IdTitle);
    let path = mgr.post_path("subreddit", "rust", "abc123", Some(""), "gif");
    assert_eq!(
        PathBuf::from(path),
        PathBuf::from("/tmp/reddit-archive/subreddit/rust/abc123.gif")
    );
}

#[test]
fn post_path_id_title_falls_back_to_id_when_no_title() {
    let mgr = make_manager(FileNaming::IdTitle);
    let path = mgr.post_path("subreddit", "rust", "abc123", None, "gif");
    assert_eq!(
        PathBuf::from(path),
        PathBuf::from("/tmp/reddit-archive/subreddit/rust/abc123.gif")
    );
}
