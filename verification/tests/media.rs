use duckgpt::media::{has_allowed_extension, has_suffix, is_image_url};

const ALLOWED: [&str; 3] = [".png", ".jpg", ".webp"];

#[test]
fn suffix_is_compared_exactly() {
    assert!(has_suffix("photo.png", ".png"));
    assert!(has_suffix("photo.png", ""));
    assert!(has_suffix(".png", ".png"));
    assert!(!has_suffix("png", ".png"));
    assert!(!has_suffix("photo.PNG", ".png"));
    assert!(!has_suffix("photo.png ", ".png"));
    assert!(has_suffix("größe.png", "ße.png"));
    assert!(!has_suffix("", "a"));
    assert!(has_suffix("", ""));
}

#[test]
fn extension_has_to_be_allowed() {
    assert!(has_allowed_extension("a.jpg", &ALLOWED));
    assert!(has_allowed_extension("a.b.webp", &ALLOWED));
    assert!(!has_allowed_extension("a.gif", &ALLOWED));
    assert!(!has_allowed_extension("a.png", &[]));
}

#[test]
fn https_link_needs_an_allowed_extension() {
    assert!(is_image_url("https://example.com/cat.png", &ALLOWED));
    assert!(is_image_url("https://example.com/a/b/cat.jpg?size=2#top", &ALLOWED));
    assert!(!is_image_url("https://example.com/cat.gif", &ALLOWED));
    assert!(!is_image_url("https://example.com/", &ALLOWED));
    assert!(!is_image_url("https://example.com/cat?x=.png", &ALLOWED));
}

#[test]
fn http_link_is_taken_whatever_its_path() {
    assert!(is_image_url("http://example.com/cat.gif", &ALLOWED));
    assert!(is_image_url("HTTP://example.com", &ALLOWED));
    assert!(is_image_url("http://example.com/cat.png", &[]));
}

#[test]
fn other_texts_are_no_image_links() {
    assert!(!is_image_url("ftp://example.com/cat.png", &ALLOWED));
    assert!(!is_image_url("cat.png", &ALLOWED));
    assert!(!is_image_url("", &ALLOWED));
    assert!(!is_image_url("/relative/cat.png", &ALLOWED));
}
