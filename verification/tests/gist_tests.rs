use topic_manager::gist::{find_sub, parse_gist_url};

#[test]
fn raw_gist_url_resolves_id_and_file_name() {
    let url = "https://gist.githubusercontent.com/someone/72ab3c9/raw/0f1e2d/topics.txt";
    let (gist_id, file_name) = parse_gist_url(url).expect("the URL has the expected shape");
    assert_eq!(gist_id, "72ab3c9");
    assert_eq!(file_name, "topics.txt");
}

#[test]
fn url_without_the_host_prefix_is_rejected() {
    assert!(parse_gist_url("https://example.org/someone/1/raw/2/f.txt").is_none());
}

#[test]
fn url_without_the_raw_marker_is_rejected() {
    assert!(parse_gist_url("https://gist.githubusercontent.com/someone/1/f.txt").is_none());
}

#[test]
fn url_without_the_separating_slashes_is_rejected() {
    // no slash between user and id
    assert!(parse_gist_url("https://gist.githubusercontent.com/justone/raw/f.txt").is_none());
}

#[test]
fn find_sub_reports_the_first_occurrence() {
    assert_eq!(find_sub("abcabc", "bc"), Some(1));
    assert_eq!(find_sub("abcabc", "cb"), None);
    assert_eq!(find_sub("abc", ""), Some(0));
    assert_eq!(find_sub("", "a"), None);
}
