use reddit_dl::config::{
    config_path_in, config_project_names, default_config_path, default_file_naming, default_max_concurrent, default_output_dir, default_true,
    AuthConfig, Config, DownloadConfig, FileNaming, OutputConfig, SourcesConfig,
};
use reddit_dl::download::imgur::{
    album_files, album_request, check_album_status, imgur_authorization_header, ImgurImage,
};
use reddit_dl::download::redgifs::{
    after_gif_response, bearer_authorization, best_quality_url, gif_id_for, check_auth_status, gif_api_url, gif_api_url_of_lowercase,
    select_token, GifFetchStep,
    GifUrls, TokenData,
};
use reddit_dl::download::text::self_post_markdown;
use reddit_dl::download::resolver::resolve_media_type;
use reddit_dl::download::{files_saved, metadata_path, plan_download, resolve_imgur_single_url, DownloadAction};
use reddit_dl::error::Error;
use reddit_dl::paths::path_join;
use reddit_dl::post::{MediaMetadataItem, MediaMetadataMap, Post};
use reddit_dl::progress::{progress_prefix, sync_summary, Tally};
use reddit_dl::storage::db::{status_report, Cursor, CursorEntry, Stats};
use reddit_dl::storage::filesystem::OutputManager;
use reddit_dl::text::{parse_u64, u64_to_decimal};

fn post(url: Option<&str>, is_self: bool) -> Post {
    Post {
        id: "abc".to_string(),
        name: "t3_abc".to_string(),
        title: "Hello World".to_string(),
        author: "ferris".to_string(),
        subreddit: "rust".to_string(),
        permalink: "/r/rust/abc".to_string(),
        url: url.map(|s| s.to_string()),
        selftext: "body text".to_string(),
        is_self,
        is_video: false,
        score: 5,
        num_comments: 2,
        is_gallery: None,
        gallery_data: None,
        media_metadata: None,
        media: None,
        preview: None,
    }
}

fn config(include_comments: bool, include_metadata: bool) -> DownloadConfig {
    DownloadConfig { max_concurrent: 5, include_metadata, include_comments, file_naming: FileNaming::Id }
}

#[test]
fn config_defaults() {
    assert_eq!(default_output_dir(), "~/reddit-archive");
    assert!(default_true());
    assert_eq!(default_max_concurrent(), 5);
    assert_eq!(default_file_naming(), FileNaming::Id);
    assert_eq!(FileNaming::default(), FileNaming::Id);
    let o = OutputConfig::default();
    assert_eq!(o.directory, "~/reddit-archive");
    assert!(o.create_subdirs);
    let d = DownloadConfig::default();
    assert_eq!(d.max_concurrent, 5);
    assert!(d.include_metadata && !d.include_comments);
    let s = SourcesConfig::default();
    assert!(!s.friends && !s.follows && !s.saved);
    if let Some(p) = default_config_path() {
        assert!(p.ends_with("/config.toml"));
    }
}

#[test]
fn output_dir_expands_home() {
    let mut cfg = Config {
        auth: AuthConfig {
            client_id: String::new(),
            client_secret: String::new(),
            username: String::new(),
            password: String::new(),
        },
        output: OutputConfig::default(),
        download: DownloadConfig::default(),
        sources: SourcesConfig::default(),
    };
    assert_eq!(cfg.resolve_output_dir_with(Some("/home/me".to_string())), "/home/me/reddit-archive");
    assert_eq!(cfg.resolve_output_dir_with(None), "~/reddit-archive");
    cfg.output.directory = "/data/out".to_string();
    assert_eq!(cfg.resolve_output_dir_with(Some("/home/me".to_string())), "/data/out");
    assert_eq!(cfg.resolve_output_dir(), "/data/out");
}

#[test]
fn path_join_cases() {
    assert_eq!(path_join("/a", "b"), "/a/b");
    assert_eq!(path_join("/a/", "b"), "/a/b");
    assert_eq!(path_join("", "b"), "b");
    assert_eq!(path_join("/a", "/b"), "/b");
}

#[test]
fn decimal_and_parse() {
    assert_eq!(u64_to_decimal(0), "0");
    assert_eq!(u64_to_decimal(1234567890), "1234567890");
    assert_eq!(u64_to_decimal(u64::MAX), "18446744073709551615");
    assert_eq!(parse_u64("18446744073709551615"), Some(u64::MAX));
    assert_eq!(parse_u64("18446744073709551616"), None);
    assert_eq!(parse_u64("+"), None);
    assert_eq!(parse_u64("-1"), None);
    assert_eq!(parse_u64("007"), Some(7));
}

#[test]
fn metadata_of_posts() {
    let m = post(Some("https://x/y.jpg"), false).to_metadata();
    assert_eq!(m.url, "https://x/y.jpg");
    assert_eq!(m.selftext, None);
    let m = post(None, true).to_metadata();
    assert_eq!(m.url, "");
    assert_eq!(m.selftext, Some("body text".to_string()));
    assert_eq!((m.id.as_str(), m.score, m.num_comments), ("abc", 5, 2));
}

#[test]
fn media_metadata_map_later_insert_wins() {
    let item = |s: &str| MediaMetadataItem { status: s.to_string(), e: String::new(), m: String::new(), s: None };
    let mut map = MediaMetadataMap::new();
    assert!(map.get("k").is_none());
    map.insert("k".to_string(), item("first"));
    map.insert("j".to_string(), item("other"));
    map.insert("k".to_string(), item("second"));
    assert_eq!(map.get("k").unwrap().status, "second");
    assert_eq!(map.get("j").unwrap().status, "other");
}

#[test]
fn self_post_markdown_layout() {
    assert_eq!(
        self_post_markdown(&post(None, true)),
        "# Hello World\n\nBy /u/ferris in /r/rust\n\nbody text"
    );
}

#[test]
fn download_plans() {
    let out = OutputManager::new("/out".to_string(), FileNaming::Id);
    let p = post(None, true);
    let a = plan_download(resolve_media_type(&p), &p, "saved", "saved", &out, &config(true, true));
    match &a {
        DownloadAction::SelfPost { path, comments_path } => {
            assert_eq!(path, "/out/saved/saved/abc.md");
            assert_eq!(comments_path.as_deref(), Some("/out/saved/saved/abc.comments.json"));
        }
        other => panic!("unexpected {:?}", other),
    }
    assert_eq!(files_saved(&a, false, 0), 2);

    let p = post(Some("https://imgur.com/XyZ"), false);
    let a = plan_download(resolve_media_type(&p), &p, "friends", "alice", &out, &config(false, false));
    match &a {
        DownloadAction::Direct { url, path } => {
            assert_eq!(url, "https://i.imgur.com/XyZ.jpg");
            assert_eq!(path, "/out/friends/alice/abc.jpg");
        }
        other => panic!("unexpected {:?}", other),
    }
    assert_eq!(files_saved(&a, true, 0), 1);
    assert_eq!(files_saved(&a, false, 0), 0);

    let p = post(Some("https://example.com/page"), false);
    let a = plan_download(resolve_media_type(&p), &p, "friends", "alice", &out, &config(false, false));
    assert!(matches!(a, DownloadAction::ExternalLink { .. }));
    assert_eq!(files_saved(&a, true, 0), 0);

    let mut g = post(Some("https://www.reddit.com/gallery/abc"), false);
    g.is_gallery = Some(true);
    let a = plan_download(resolve_media_type(&g), &g, "friends", "alice", &out, &config(false, false));
    match &a {
        DownloadAction::Gallery { dir } => assert_eq!(dir, "/out/friends/alice/abc_gallery"),
        other => panic!("unexpected {:?}", other),
    }
    assert_eq!(files_saved(&a, true, 4), 4);

    assert_eq!(
        metadata_path(&g, "friends", "alice", &out, &config(false, true)).as_deref(),
        Some("/out/friends/alice/abc.json")
    );
    assert_eq!(metadata_path(&g, "friends", "alice", &out, &config(false, false)), None);
    assert_eq!(out.db_path(), "/out/reddit-dl.db");
}

#[test]
fn imgur_single_gifv_becomes_mp4() {
    let (u, e) = resolve_imgur_single_url("https://i.imgur.com/a.gifv");
    assert_eq!((u.as_str(), e.as_str()), ("https://i.imgur.com/a.mp4", "mp4"));
}

#[test]
fn imgur_album_plans() {
    let req = album_request("https://imgur.com/a/Hash?x").ok().unwrap();
    assert_eq!(req.hash, "Hash");
    assert_eq!(req.api_url, "https://api.imgur.com/3/album/Hash");
    match album_request("https://imgur.com/Hash") {
        Err(Error::Other(m)) => assert_eq!(m, "Could not extract album hash from: https://imgur.com/Hash"),
        _ => panic!("expected an error"),
    }
    assert_eq!(imgur_authorization_header("cid"), "Client-ID cid");
    let img = |link: &str, mp4: Option<&str>| ImgurImage {
        id: "i".to_string(),
        link: link.to_string(),
        mp4: mp4.map(|s| s.to_string()),
        mime_type: None,
    };
    let files = album_files(&vec![img("https://i.imgur.com/a.png", None), img("https://i.imgur.com/b.gif", Some("https://i.imgur.com/b.mp4"))], "/out/album");
    assert_eq!(files[0].url, "https://i.imgur.com/a.png");
    assert_eq!(files[0].path, "/out/album/1.png");
    assert_eq!(files[1].url, "https://i.imgur.com/b.mp4");
    assert_eq!(files[1].path, "/out/album/2.mp4");
}

#[test]
fn redgifs_helpers() {
    let urls = GifUrls { hd: None, sd: Some("sd".to_string()), gif: Some("gif".to_string()) };
    assert_eq!(best_quality_url(&urls).ok(), Some("sd".to_string()));
    let none = GifUrls { hd: None, sd: None, gif: None };
    match best_quality_url(&none) {
        Err(Error::Other(m)) => assert_eq!(m, "RedGifs response has no download URLs"),
        _ => panic!("expected an error"),
    }
    assert_eq!(gif_api_url("SomeId"), "https://api.redgifs.com/v2/gifs/someid");
    assert_eq!(gif_api_url_of_lowercase("abc"), "https://api.redgifs.com/v2/gifs/abc");
    assert_eq!(select_token(None, Some("b".to_string())).ok(), Some("b".to_string()));
    assert_eq!(select_token(Some("a".to_string()), Some("b".to_string())).ok(), Some("a".to_string()));
    assert!(matches!(select_token(None, None), Err(Error::Auth(_))));
    let t = TokenData::fetched_at("tok".to_string(), 1_000_000_000_000);
    assert_eq!(t.expires_at, 4_600_000_000_000);
    assert!(t.is_fresh_at(1_000_000_000_000));
    assert!(t.is_fresh_at(4_539_999_999_999));
    assert!(!t.is_fresh_at(4_540_000_000_000));
}

#[test]
fn progress_texts() {
    assert_eq!(progress_prefix("friends", "alice"), "[friends/alice]");
    let mut t = Tally::new();
    t.count_downloaded();
    t.count_skipped();
    t.count_skipped();
    assert_eq!(t.message(), "1 downloaded, 2 skipped");
    let mut total = Tally::new();
    total.add(&t);
    total.add(&t);
    assert_eq!(sync_summary(&total, 1), "Sync complete. Downloaded: 2, Skipped: 4, Errors: 1");
}

#[test]
fn status_report_tables() {
    let empty = Stats { total_posts: 0, posts_by_source: vec![] };
    assert_eq!(status_report(&empty, &vec![]), vec!["No sync data found. Run 'reddit-dl sync' first."]);
    let stats = Stats {
        total_posts: 3,
        posts_by_source: vec![
            ("friends".to_string(), "alice".to_string(), 1),
            ("subreddit".to_string(), "rust".to_string(), 2),
        ],
    };
    let cursors = vec![CursorEntry {
        source_type: "friends".to_string(),
        source_name: "alice".to_string(),
        cursor: Cursor { last_post_id: "t3_a".to_string(), last_post_utc: 100 },
        last_sync: "2024-01-01 00:00:00".to_string(),
    }];
    let lines = status_report(&stats, &cursors);
    let expected = vec![
        "reddit-dl status".to_string(),
        "=".repeat(60),
        "Total posts downloaded: 3".to_string(),
        String::new(),
        "Posts by source:".to_string(),
        format!("  {:<9}  {:<5}  {:>6}", "Type", "Name", "Posts"),
        format!("  {}  {}  ------", "-".repeat(9), "-".repeat(5)),
        format!("  {:<9}  {:<5}  {:>6}", "friends", "alice", 1),
        format!("  {:<9}  {:<5}  {:>6}", "subreddit", "rust", 2),
        String::new(),
        "Sync cursors (last known position per source):".to_string(),
        format!("  {:<7}  {:<5}  {:<7}  Last Sync", "Type", "Name", "Last ID"),
        format!("  {}  {}  {}  {}", "-".repeat(7), "-".repeat(5), "-".repeat(7), "-".repeat(19)),
        format!("  {:<7}  {:<5}  {:<7}  {}", "friends", "alice", "t3_a", "2024-01-01 00:00:00"),
    ];
    assert_eq!(lines, expected);
}

#[test]
fn redgifs_responses() {
    assert!(matches!(after_gif_response(200, "200 OK", "abc", false), GifFetchStep::Parse));
    assert!(matches!(after_gif_response(401, "401 Unauthorized", "abc", false), GifFetchStep::RefreshAndRetry));
    match after_gif_response(401, "401 Unauthorized", "abc", true) {
        GifFetchStep::Fail(Error::Other(m)) => {
            assert_eq!(m, "RedGifs API returned 401 Unauthorized for gif abc (after token refresh)")
        }
        _ => panic!("expected a failure"),
    }
    match after_gif_response(404, "404 Not Found", "abc", false) {
        GifFetchStep::Fail(Error::Other(m)) => assert_eq!(m, "RedGifs API returned 404 Not Found for gif abc"),
        _ => panic!("expected a failure"),
    }
    assert!(check_auth_status(200, "200 OK").is_ok());
    match check_auth_status(503, "503 Service Unavailable") {
        Err(Error::Auth(m)) => assert_eq!(m, "RedGifs auth failed with status 503 Service Unavailable"),
        _ => panic!("expected an auth error"),
    }
}

#[test]
fn imgur_album_status() {
    assert!(check_album_status(204, "204 No Content", "h1").is_ok());
    match check_album_status(403, "403 Forbidden", "h1") {
        Err(Error::Other(m)) => assert_eq!(m, "Imgur API returned 403 Forbidden for album h1"),
        _ => panic!("expected an error"),
    }
}

#[test]
fn config_file_inside_config_dir() {
    assert_eq!(
        config_path_in(Some("/home/u/.config/reddit-dl".to_string())),
        Some("/home/u/.config/reddit-dl/config.toml".to_string())
    );
    assert_eq!(config_path_in(None), None);
}

#[test]
fn redgifs_id_and_header() {
    assert_eq!(gif_id_for("https://www.redgifs.com/watch/abc").ok(), Some("abc".to_string()));
    match gif_id_for("https://example.com/") {
        Err(Error::Other(m)) => assert_eq!(m, "Could not extract RedGifs ID from: https://example.com/"),
        _ => panic!("expected an error"),
    }
    assert_eq!(bearer_authorization("tok"), "Bearer tok");
}

#[test]
fn config_directory_names() {
    assert_eq!(config_project_names(), ("", "", "reddit-dl"));
}
