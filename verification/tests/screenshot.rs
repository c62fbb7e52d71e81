use gms_counter::screenshot::{
    data_uri, detail_page_url, find_screenshot_id, fits_data_uri, thumbnail_url,
};

#[test]
fn detail_page_url_names_the_game() {
    assert_eq!(detail_page_url(7), "https://gamemakerserver.com/en/games/7");
    assert_eq!(detail_page_url(0), "https://gamemakerserver.com/en/games/0");
    assert_eq!(detail_page_url(65535), "https://gamemakerserver.com/en/games/65535");
}

#[test]
fn thumbnail_url_names_the_screenshot() {
    assert_eq!(thumbnail_url("1234"), "https://gamemakerserver.com/thumb-screenshots/1234/");
    assert_eq!(thumbnail_url(""), "https://gamemakerserver.com/thumb-screenshots//");
}

#[test]
fn screenshot_id_stands_between_marker_and_separator() {
    let html = "<img src=\"/thumb-screenshots/1234/shot.jpg\">";
    assert_eq!(find_screenshot_id(html), Some("1234".to_string()));
}

#[test]
fn screenshot_id_of_the_first_marker_counts() {
    let html = "a /thumb-screenshots/11/x b /thumb-screenshots/22/y";
    assert_eq!(find_screenshot_id(html), Some("11".to_string()));
}

#[test]
fn page_without_marker_names_no_screenshot() {
    assert_eq!(find_screenshot_id("<html><body>no thumbnail here</body></html>"), None);
    assert_eq!(find_screenshot_id(""), None);
    assert_eq!(find_screenshot_id("/thumb-screenshots"), None);
    assert_eq!(find_screenshot_id("a/b/c"), None);
}

#[test]
fn marker_without_separator_names_no_screenshot() {
    assert_eq!(find_screenshot_id("x/thumb-screenshots/1234"), None);
    assert_eq!(find_screenshot_id("/a/b/thumb-screenshots/"), None);
}

#[test]
fn screenshot_id_may_be_empty() {
    assert_eq!(find_screenshot_id("/thumb-screenshots//"), Some(String::new()));
}

#[test]
fn screenshot_id_after_wide_characters() {
    let html = "\u{1f600}\u{e9}/thumb-screenshots/\u{4e16}9/\u{754c}";
    assert_eq!(find_screenshot_id(html), Some("\u{4e16}9".to_string()));
}

#[test]
fn screenshot_id_agrees_with_split_once() {
    let pages = [
        "",
        "/",
        "/thumb-screenshots/",
        "/thumb-screenshots/a",
        "/thumb-screenshots/a/",
        "x/thumb-screenshots/a/b/thumb-screenshots/c/",
        "/thumb-screenshots/thumb-screenshots/7/",
        "//thumb-screenshots//",
    ];
    for page in pages {
        let expected = page
            .split_once("/thumb-screenshots/")
            .unwrap_or_default()
            .1
            .split_once("/")
            .map(|(id, _)| id.to_string());
        assert_eq!(find_screenshot_id(page), expected, "page {page:?}");
    }
}

#[test]
fn data_uri_holds_the_base64_of_the_bytes() {
    assert_eq!(data_uri(b"hello"), "data:image/jpeg;base64,aGVsbG8=");
    assert_eq!(data_uri(b""), "data:image/jpeg;base64,");
    assert_eq!(data_uri(&[0xff, 0xd8, 0xff]), "data:image/jpeg;base64,/9j/");
    assert_eq!(data_uri(&[0xfb, 0xef]), "data:image/jpeg;base64,++8=");
}

#[test]
fn data_uri_takes_every_thumbnail_of_a_real_size() {
    assert!(fits_data_uri(0));
    assert!(fits_data_uri(1));
    assert!(fits_data_uri(10 * 1024 * 1024));
    assert!(!fits_data_uri(usize::MAX));
    assert!(!fits_data_uri(isize::MAX as usize));
}

#[test]
fn data_uri_fits_up_to_the_last_whole_group() {
    let groups = (isize::MAX as usize - 32) / 4;
    assert!(fits_data_uri(3 * groups));
    assert!(fits_data_uri(3 * groups - 1));
    assert!(!fits_data_uri(3 * groups + 1));
}

#[test]
fn data_uri_has_four_characters_for_every_three_bytes_or_part() {
    for len in 0..50usize {
        let uri = data_uri(&vec![0xa5u8; len]);
        assert_eq!(uri.len(), "data:image/jpeg;base64,".len() + 4 * ((len + 2) / 3));
    }
}
