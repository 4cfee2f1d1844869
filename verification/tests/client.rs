use cnb_cli::endpoint::normalize_base_url;
use cnb_cli::paths::{repo_resource_segments, slug_segments};

#[test]
fn slug_segments_requires_owner_and_repo() {
    assert!(slug_segments("a/b").is_ok());
    assert!(slug_segments("a").is_err());
    assert!(slug_segments("/a/b/").is_ok());
}

#[test]
fn normalize_base_url_appends_slash() {
    let url = normalize_base_url("https://api.cnb.cool").unwrap();
    assert_eq!(url.as_str(), "https://api.cnb.cool/");

    let url = normalize_base_url("https://api.cnb.cool/").unwrap();
    assert_eq!(url.as_str(), "https://api.cnb.cool/");
}

#[test]
fn repo_resource_segments_inserts_dash() {
    let segs = repo_resource_segments("owner/repo").unwrap();
    assert_eq!(segs, vec!["owner", "repo", "-"]);
}
