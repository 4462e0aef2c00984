use reddit_dl::download::redgifs::extract_gif_id;

#[test]
fn extract_watch_url_www() {
    assert_eq!(
        extract_gif_id("https://www.redgifs.com/watch/someId"),
        Some("someId".to_string())
    );
}

#[test]
fn extract_watch_url_no_www() {
    assert_eq!(
        extract_gif_id("https://redgifs.com/watch/someId"),
        Some("someId".to_string())
    );
}

#[test]
fn extract_watch_url_with_query() {
    assert_eq!(
        extract_gif_id("https://www.redgifs.com/watch/someId?query=1"),
        Some("someId".to_string())
    );
}

#[test]
fn extract_watch_url_versioned_subdomain() {
    assert_eq!(
        extract_gif_id("https://v3.redgifs.com/watch/someId"),
        Some("someId".to_string())
    );
}

#[test]
fn extract_cdn_thumbs_url() {
    assert_eq!(
        extract_gif_id("https://thumbs2.redgifs.com/SomeId.mp4"),
        Some("SomeId".to_string())
    );
}

#[test]
fn extract_direct_image_url() {
    assert_eq!(
        extract_gif_id("https://i.redgifs.com/i/someid.gif"),
        Some("someid".to_string())
    );
}

#[test]
fn extract_invalid_url_returns_none() {
    assert_eq!(
        extract_gif_id("https://www.youtube.com/watch?v=abc123"),
        None
    );
}

#[test]
fn extract_empty_string_returns_none() {
    assert_eq!(extract_gif_id(""), None);
}

#[test]
fn extract_watch_url_strips_trailing_slash() {
    assert_eq!(
        extract_gif_id("https://www.redgifs.com/watch/someId/"),
        Some("someId".to_string())
    );
}

#[test]
fn extract_cdn_mobile_url_strips_suffix() {
    assert_eq!(
        extract_gif_id("https://thumbs2.redgifs.com/SomeId-mobile.mp4"),
        Some("SomeId".to_string())
    );
}
