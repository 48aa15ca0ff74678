use http_drogue::filename::url_to_filename;

#[test]
fn last_segment_before_query() {
    assert_eq!(
        url_to_filename("https://example.com/path/file.zip?x=1"),
        "file.zip"
    );
}

#[test]
fn last_segment_without_query() {
    assert_eq!(url_to_filename("https://example.com/a/b/archive.tar.gz"), "archive.tar.gz");
}

#[test]
fn host_becomes_segment_when_path_is_bare() {
    assert_eq!(url_to_filename("https://example.com"), "example.com");
}

#[test]
fn trailing_slash_falls_back_to_sanitized_url() {
    // No segment after the last slash: the whole URL is sanitized, which
    // strips the characters filesystems refuse.
    assert_eq!(url_to_filename("https://example.com/"), "httpsexample.com");
}

#[test]
fn no_slash_falls_back_to_sanitized_url() {
    assert_eq!(url_to_filename("a:b"), "ab");
}

#[test]
fn empty_segment_before_query_falls_back() {
    assert_eq!(url_to_filename("https://h/?q"), "httpshq");
}

#[test]
fn query_marks_are_stripped_from_segment() {
    assert_eq!(url_to_filename("http://host/dl?file=/etc/x"), "dl");
}
