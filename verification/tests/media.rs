use reddit_dl::download::media::{
    after_download_failure, check_content_length, check_status, ext_from_mime, ffmpeg_outcome,
    gallery_files, is_permanent_download_error, saved_count, video_finish, video_temp_files, RetryStep,
    StreamTally, Transfer, VideoFinish, MAX_FILE_SIZE,
};
use reddit_dl::error::Error;
use reddit_dl::post::{GalleryData, GalleryItem, MediaMetadataItem, MediaMetadataMap, MediaSource, Post};

fn msg(e: Error) -> String {
    match e {
        Error::Other(m) => m,
        other => panic!("unexpected {:?}", other),
    }
}

#[test]
fn ext_from_mime_cases() {
    assert_eq!(ext_from_mime("image/jpg"), Some("jpg".to_string()));
    assert_eq!(ext_from_mime("image/jpeg"), Some("jpg".to_string()));
    assert_eq!(ext_from_mime("video/mp4"), Some("mp4".to_string()));
    assert_eq!(ext_from_mime("text/html"), None);
}

#[test]
fn permanent_errors_are_not_retried() {
    let e = check_status(404, "404 Not Found", "https://x/y", Transfer::Direct).unwrap_err();
    assert!(is_permanent_download_error(&e));
    assert_eq!(after_download_failure(0, &e), RetryStep::GiveUp);
    assert_eq!(msg(e), "HTTP 404 Not Found (permanent) downloading https://x/y");
}

#[test]
fn transient_errors_are_retried_with_growing_delay() {
    let e = check_status(503, "503 Service Unavailable", "https://x/y", Transfer::ToFile).unwrap_err();
    assert!(!is_permanent_download_error(&e));
    assert_eq!(after_download_failure(0, &e), RetryStep::Retry { delay_secs: 1 });
    assert_eq!(after_download_failure(1, &e), RetryStep::Retry { delay_secs: 2 });
    assert_eq!(after_download_failure(2, &e), RetryStep::GiveUp);
    assert_eq!(msg(e), "HTTP 503 Service Unavailable for https://x/y");
    assert!(check_status(200, "200 OK", "u", Transfer::Direct).is_ok());
}

#[test]
fn content_length_limit() {
    assert!(check_content_length(Some(MAX_FILE_SIZE), "u", Transfer::Direct).is_ok());
    assert!(check_content_length(None, "u", Transfer::Direct).is_ok());
    let e = check_content_length(Some(MAX_FILE_SIZE + 1), "u", Transfer::Direct).unwrap_err();
    assert_eq!(msg(e), "File too large (524288001 bytes, limit 524288000 bytes): u");
    let e = check_content_length(Some(MAX_FILE_SIZE + 1), "u", Transfer::ToFile).unwrap_err();
    assert_eq!(msg(e), "File too large (524288001 bytes, limit 524288000): u");
}

#[test]
fn stream_tally_limits_and_empty_body() {
    let mut t = StreamTally::new();
    assert_eq!(msg(t.finish("u").unwrap_err()), "Empty response body (0 bytes) for u");
    assert!(t.add_chunk(10, "u").is_ok());
    assert_eq!(t.bytes_written, 10);
    assert!(t.finish("u").is_ok());
    let e = t.add_chunk(MAX_FILE_SIZE as usize, "u").unwrap_err();
    assert_eq!(msg(e), "File too large (exceeded 524288000 bytes during download): u");
    assert_eq!(t.bytes_written, 10);
}

fn meta(status: &str, mime: &str, u: Option<&str>, mp4: Option<&str>) -> MediaMetadataItem {
    MediaMetadataItem {
        status: status.to_string(),
        e: "Image".to_string(),
        m: mime.to_string(),
        s: Some(MediaSource {
            u: u.map(|s| s.to_string()),
            gif: None,
            mp4: mp4.map(|s| s.to_string()),
            x: None,
            y: None,
        }),
    }
}

#[test]
fn gallery_files_skip_and_number() {
    let mut map = MediaMetadataMap::new();
    map.insert("a".to_string(), meta("valid", "image/png", Some("https://i.redd.it/a.png?x=1&amp;y=2"), None));
    map.insert("b".to_string(), meta("failed", "image/png", Some("https://i.redd.it/b.png"), None));
    map.insert("c".to_string(), meta("", "", Some("https://i.redd.it/c.gif"), Some("https://i.redd.it/c.mp4")));
    let post = Post {
        id: "p".to_string(),
        name: "t3_p".to_string(),
        title: "t".to_string(),
        author: String::new(),
        subreddit: String::new(),
        permalink: String::new(),
        url: None,
        selftext: String::new(),
        is_self: false,
        is_video: false,
        score: 0,
        num_comments: 0,
        is_gallery: Some(true),
        gallery_data: Some(GalleryData {
            items: vec![
                GalleryItem { media_id: "a".to_string(), id: 1 },
                GalleryItem { media_id: "b".to_string(), id: 2 },
                GalleryItem { media_id: "missing".to_string(), id: 3 },
                GalleryItem { media_id: "c".to_string(), id: 4 },
            ],
        }),
        media_metadata: Some(map),
        media: None,
        preview: None,
    };
    let files = gallery_files(&post, "/out/p_gallery").unwrap();
    assert_eq!(files.len(), 2);
    assert_eq!(files[0].url, "https://i.redd.it/a.png?x=1&y=2");
    assert_eq!(files[0].path, "/out/p_gallery/1.png");
    assert_eq!(files[1].url, "https://i.redd.it/c.mp4");
    assert_eq!(files[1].path, "/out/p_gallery/4.mp4");

    let mut no_meta = post.clone();
    no_meta.media_metadata = None;
    assert!(gallery_files(&no_meta, "/out").is_none());
}

#[test]
fn video_temp_files_sit_beside_the_final_file() {
    let t = video_temp_files("/out/subreddits/rust/abc_Title.mp4");
    assert_eq!(t.video, "/out/subreddits/rust/abc_Title._video.mp4.tmp");
    assert_eq!(t.audio, "/out/subreddits/rust/abc_Title._audio.mp4.tmp");
}

#[test]
fn video_finish_cases() {
    assert_eq!(video_finish(None, true), VideoFinish::VideoOnly { remove_audio: false });
    assert_eq!(video_finish(Some(false), true), VideoFinish::VideoOnly { remove_audio: false });
    assert_eq!(video_finish(Some(true), true), VideoFinish::Merge);
    assert_eq!(video_finish(Some(true), false), VideoFinish::VideoOnly { remove_audio: true });
}

#[test]
fn ffmpeg_outcome_messages() {
    assert!(ffmpeg_outcome(true, "exit status: 0", "/o/v.mp4").is_ok());
    let e = ffmpeg_outcome(false, "exit status: 1", "/o/v.mp4").unwrap_err();
    assert_eq!(msg(e), "ffmpeg exited with status exit status: 1 for /o/v.mp4");
}

#[test]
fn saved_count_counts_successes() {
    assert_eq!(saved_count(&vec![true, false, true]), 2);
    assert_eq!(saved_count(&vec![]), 0);
}
