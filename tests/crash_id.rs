use socorro_cli::extract_crash_id;

#[test]
fn url_is_reduced_to_its_last_segment() {
    assert_eq!(extract_crash_id("https://crash-stats.mozilla.org/report/index/abc-123"), "abc-123");
    assert_eq!(extract_crash_id("http://example.org/a/b"), "b");
}

#[test]
fn bare_identifier_is_unchanged() {
    assert_eq!(extract_crash_id("abc-123"), "abc-123");
    assert_eq!(extract_crash_id("a/b"), "a/b");
    assert_eq!(extract_crash_id(""), "");
}

#[test]
fn url_with_trailing_slash_gives_empty_identifier() {
    assert_eq!(extract_crash_id("https://crash-stats.mozilla.org/report/index/"), "");
    assert_eq!(extract_crash_id("https://"), "");
}
