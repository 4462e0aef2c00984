use reddit_dl::download::resolver::{
    derive_audio_url, extension_from_url, is_imgur_single, resolve_media_type, MediaType,
};
use reddit_dl::post::{Media, Post, RedditVideo};

fn post_with_url(url: Option<&str>) -> Post {
    Post {
        id: "abc".to_string(),
        name: "t3_abc".to_string(),
        title: "Title".to_string(),
        author: "me".to_string(),
        subreddit: "rust".to_string(),
        permalink: "/r/rust/abc".to_string(),
        url: url.map(|s| s.to_string()),
        selftext: String::new(),
        is_self: false,
        is_video: false,
        score: 0,
        num_comments: 0,
        is_gallery: None,
        gallery_data: None,
        media_metadata: None,
        media: None,
        preview: None,
    }
}

#[test]
fn extension_from_url_lowercases_and_strips_query() {
    assert_eq!(extension_from_url("https://x.com/a/B.JPG?x=1#f"), Some("jpg".to_string()));
    assert_eq!(extension_from_url("https://x.com/a/b"), None);
    assert_eq!(extension_from_url("https://x.com/a/b."), None);
    assert_eq!(extension_from_url("https://x.com/a.b/c"), None);
}

#[test]
fn derive_audio_url_replaces_last_segment() {
    assert_eq!(
        derive_audio_url("https://v.redd.it/xyz/DASH_720.mp4?source=fallback"),
        Some("https://v.redd.it/xyz/DASH_audio.mp4".to_string())
    );
    assert_eq!(derive_audio_url("no-slash"), None);
}

#[test]
fn is_imgur_single_cases() {
    assert!(is_imgur_single("https://imgur.com/AbCdEfG"));
    assert!(is_imgur_single("https://imgur.com/AbCdEfG.jpg"));
    assert!(!is_imgur_single("https://imgur.com/a/AbCdEfG"));
    assert!(!is_imgur_single("https://imgur.com/user/AbCdEfG"));
    assert!(!is_imgur_single("https://example.com/AbCdEfG"));
}

#[test]
fn resolve_self_post() {
    let mut p = post_with_url(Some("https://example.com"));
    p.is_self = true;
    assert!(matches!(resolve_media_type(&p), MediaType::SelfPost));
}

#[test]
fn resolve_no_url_and_malformed_url() {
    assert!(matches!(resolve_media_type(&post_with_url(None)), MediaType::NoMedia));
    assert!(matches!(resolve_media_type(&post_with_url(Some("ftp://x/y.jpg"))), MediaType::NoMedia));
}

#[test]
fn resolve_gallery_and_video() {
    let mut g = post_with_url(Some("https://www.reddit.com/gallery/abc"));
    g.is_gallery = Some(true);
    assert!(matches!(resolve_media_type(&g), MediaType::RedditGallery));

    let mut v = post_with_url(Some("https://v.redd.it/xyz"));
    v.is_video = true;
    v.media = Some(Media {
        reddit_video: Some(RedditVideo {
            fallback_url: "https://v.redd.it/xyz/DASH_720.mp4".to_string(),
            dash_url: None,
            height: None,
            width: None,
            duration: None,
            is_gif: false,
        }),
    });
    match resolve_media_type(&v) {
        MediaType::RedditVideo { video_url, audio_url } => {
            assert_eq!(video_url, "https://v.redd.it/xyz/DASH_720.mp4");
            assert_eq!(audio_url, Some("https://v.redd.it/xyz/DASH_audio.mp4".to_string()));
        }
        other => panic!("unexpected {:?}", other),
    }
}

#[test]
fn resolve_direct_images_and_links() {
    match resolve_media_type(&post_with_url(Some("https://i.redd.it/abc.png#frag"))) {
        MediaType::DirectImage { url, extension } => {
            assert_eq!(url, "https://i.redd.it/abc.png#frag");
            assert_eq!(extension, "png");
        }
        other => panic!("unexpected {:?}", other),
    }
    match resolve_media_type(&post_with_url(Some("https://preview.redd.it/abc"))) {
        MediaType::DirectImage { extension, .. } => assert_eq!(extension, "jpg"),
        other => panic!("unexpected {:?}", other),
    }
    assert!(matches!(
        resolve_media_type(&post_with_url(Some("https://imgur.com/a/xyz"))),
        MediaType::ImgurAlbum { .. }
    ));
    assert!(matches!(
        resolve_media_type(&post_with_url(Some("https://imgur.com/xyz"))),
        MediaType::ImgurSingle { .. }
    ));
    match resolve_media_type(&post_with_url(Some("https://example.com/pic.webp?size=2"))) {
        MediaType::DirectImage { url, extension } => {
            assert_eq!(url, "https://example.com/pic.webp?size=2");
            assert_eq!(extension, "webp");
        }
        other => panic!("unexpected {:?}", other),
    }
    assert!(matches!(
        resolve_media_type(&post_with_url(Some("https://example.com/page.html"))),
        MediaType::ExternalLink { .. }
    ));
}

#[test]
fn extension_is_lower_case_text_after_last_dot() {
    assert_eq!(extension_from_url("https://i.redd.it/abc.PNG?x=1"), Some("png".to_string()));
    assert_eq!(extension_from_url("https://x.com/a/archive.tar.GZ"), Some("gz".to_string()));
    assert_eq!(extension_from_url("https://x.com/a/b.#frag"), None);
}

#[test]
fn extension_lower_cases_beyond_ascii() {
    assert_eq!(extension_from_url("https://x.com/a/b.ÉTÉ?q"), Some("été".to_string()));
}
