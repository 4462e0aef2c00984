use reddit_dl::download::imgur::{extension_for_image, extract_album_hash, resolve_single_url, ImgurImage};

// ── extract_album_hash ────────────────────────────────────────────────────

#[test]
fn extract_album_hash_slash_a() {
    let hash = extract_album_hash("https://imgur.com/a/AbCdEfG");
    assert_eq!(hash, Some("AbCdEfG".to_string()));
}

#[test]
fn extract_album_hash_gallery() {
    let hash = extract_album_hash("https://imgur.com/gallery/XyZ1234");
    assert_eq!(hash, Some("XyZ1234".to_string()));
}

#[test]
fn extract_album_hash_with_query_params() {
    let hash = extract_album_hash("https://imgur.com/a/AbCdEfG?foo=bar&baz=qux");
    assert_eq!(hash, Some("AbCdEfG".to_string()));
}

#[test]
fn extract_album_hash_with_fragment() {
    let hash = extract_album_hash("https://imgur.com/a/AbCdEfG#image1");
    assert_eq!(hash, Some("AbCdEfG".to_string()));
}

#[test]
fn extract_album_hash_trailing_slash() {
    let hash = extract_album_hash("https://imgur.com/a/AbCdEfG/");
    assert_eq!(hash, Some("AbCdEfG".to_string()));
}

#[test]
fn extract_album_hash_not_an_album() {
    let hash = extract_album_hash("https://imgur.com/AbCdEfG");
    assert_eq!(hash, None);
}

#[test]
fn extract_album_hash_empty_hash() {
    let hash = extract_album_hash("https://imgur.com/a/");
    assert_eq!(hash, None);
}

// ── resolve_single_url ────────────────────────────────────────────────────

#[test]
fn resolve_single_url_direct_jpeg() {
    let (url, ext) = resolve_single_url("https://i.imgur.com/AbCdEfG.jpg");
    assert_eq!(url, "https://i.imgur.com/AbCdEfG.jpg");
    assert_eq!(ext, "jpg");
}

#[test]
fn resolve_single_url_direct_png() {
    let (url, ext) = resolve_single_url("https://i.imgur.com/AbCdEfG.png");
    assert_eq!(url, "https://i.imgur.com/AbCdEfG.png");
    assert_eq!(ext, "png");
}

#[test]
fn resolve_single_url_gifv_converted_to_mp4() {
    let (url, ext) = resolve_single_url("https://i.imgur.com/AbCdEfG.gifv");
    assert_eq!(url, "https://i.imgur.com/AbCdEfG.mp4");
    assert_eq!(ext, "mp4");
}

#[test]
fn resolve_single_url_direct_gif() {
    let (url, ext) = resolve_single_url("https://i.imgur.com/AbCdEfG.gif");
    assert_eq!(url, "https://i.imgur.com/AbCdEfG.gif");
    assert_eq!(ext, "gif");
}

#[test]
fn resolve_single_url_hash_only_appends_jpg() {
    let (url, ext) = resolve_single_url("https://imgur.com/AbCdEfG");
    assert_eq!(url, "https://i.imgur.com/AbCdEfG.jpg");
    assert_eq!(ext, "jpg");
}

#[test]
fn resolve_single_url_hash_only_with_trailing_slash() {
    // The trailing slash is trimmed before the last segment is taken.
    let (url, _ext) = resolve_single_url("https://imgur.com/AbCdEfG/");
    assert!(url.starts_with("https://i.imgur.com/"));
}

// ── extension_for_image ───────────────────────────────────────────────────

fn make_image(link: &str, mp4: Option<&str>, mime_type: Option<&str>) -> ImgurImage {
    ImgurImage {
        id: "test".to_string(),
        link: link.to_string(),
        mp4: mp4.map(|s| s.to_string()),
        mime_type: mime_type.map(|s| s.to_string()),
    }
}

#[test]
fn extension_for_image_mp4_field_wins() {
    let image = make_image(
        "https://i.imgur.com/x.gif",
        Some("https://i.imgur.com/x.mp4"),
        Some("image/gif"),
    );
    assert_eq!(extension_for_image(&image), "mp4");
}

#[test]
fn extension_for_image_jpeg_mime() {
    let image = make_image("https://i.imgur.com/x.jpg", None, Some("image/jpeg"));
    assert_eq!(extension_for_image(&image), "jpg");
}

#[test]
fn extension_for_image_png_mime() {
    let image = make_image("https://i.imgur.com/x.png", None, Some("image/png"));
    assert_eq!(extension_for_image(&image), "png");
}

#[test]
fn extension_for_image_gif_mime() {
    let image = make_image("https://i.imgur.com/x.gif", None, Some("image/gif"));
    assert_eq!(extension_for_image(&image), "gif");
}

#[test]
fn extension_for_image_webp_mime() {
    let image = make_image("https://i.imgur.com/x.webp", None, Some("image/webp"));
    assert_eq!(extension_for_image(&image), "webp");
}

#[test]
fn extension_for_image_video_mp4_mime() {
    let image = make_image("https://i.imgur.com/x.mp4", None, Some("video/mp4"));
    assert_eq!(extension_for_image(&image), "mp4");
}

#[test]
fn extension_for_image_falls_back_to_url_extension() {
    let image = make_image(
        "https://i.imgur.com/x.png",
        None,
        Some("application/octet-stream"),
    );
    assert_eq!(extension_for_image(&image), "png");
}

#[test]
fn extension_for_image_no_mime_uses_url() {
    let image = make_image("https://i.imgur.com/x.jpg", None, None);
    assert_eq!(extension_for_image(&image), "jpg");
}

#[test]
fn extension_for_image_unknown_defaults_jpg() {
    let image = make_image("https://i.imgur.com/x", None, None);
    assert_eq!(extension_for_image(&image), "jpg");
}
