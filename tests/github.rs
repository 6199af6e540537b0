use safex::github::{classify_status, decode_file_content, extract_owner_repo, has_anchor_dependency, is_anchor_project, FetchStatus};
use safex::models::GitHubContent;

#[test]
fn owner_and_repo_from_urls() {
    assert_eq!(extract_owner_repo("https://github.com/coral/anchor"), Ok(("coral".to_string(), "anchor".to_string())));
    assert_eq!(extract_owner_repo("http://github.com/a/b/"), Ok(("a".to_string(), "b".to_string())));
    assert_eq!(extract_owner_repo("github.com/a/b//"), Ok(("a".to_string(), "b".to_string())));
    assert_eq!(extract_owner_repo("https://github.com/a/b/tree/main"), Ok(("a".to_string(), "b".to_string())));
}

#[test]
fn other_urls_are_refused() {
    assert_eq!(
        extract_owner_repo("https://gitlab.com/a/b"),
        Err("Invalid GitHub repository URL: https://gitlab.com/a/b".to_string())
    );
    assert!(extract_owner_repo("github.com/a").is_err());
    assert!(extract_owner_repo("").is_err());
}

#[test]
fn anchor_dependency_detected() {
    assert!(has_anchor_dependency("[package]\nname = \"p\"\n\n[dependencies]\nanchor-lang = \"0.28.0\"\n"));
    assert!(!has_anchor_dependency("[dependencies]\nserde = \"1\"\n"));
    assert!(!has_anchor_dependency("[dev-dependencies]\nanchor-lang = \"0.28\"\n"));
    assert!(!has_anchor_dependency("this is = = not toml ["));
}

#[test]
fn project_with_one_anchor_manifest() {
    let ms = vec!["[workspace]\n".to_string(), "[dependencies]\nanchor-lang = { version = \"0.28\" }\n".to_string()];
    assert!(is_anchor_project(&ms));
    assert!(!is_anchor_project(&vec!["[dependencies]\n".to_string()]));
    assert!(!is_anchor_project(&vec![]));
}

fn listed(content: Option<&str>, encoding: Option<&str>) -> GitHubContent {
    GitHubContent {
        name: "lib.rs".to_string(),
        path: "src/lib.rs".to_string(),
        sha: "abc".to_string(),
        size: Some(5),
        content_type: "file".to_string(),
        download_url: None,
        html_url: "h".to_string(),
        content: content.map(|s| s.to_string()),
        encoding: encoding.map(|s| s.to_string()),
        url: "u".to_string(),
    }
}

#[test]
fn base64_content_is_decoded() {
    let f = decode_file_content(listed(Some("aGVs\nbG8=\n"), Some("base64")));
    assert_eq!(f.content, Some("hello".to_string()));
    assert_eq!(f.name, "lib.rs");
    assert_eq!(f.encoding, Some("base64".to_string()));
}

#[test]
fn undecodable_content_is_kept() {
    let f = decode_file_content(listed(Some("!!not base64!!"), Some("base64")));
    assert_eq!(f.content, Some("!!not base64!!".to_string()));
    let f = decode_file_content(listed(Some("/w=="), Some("base64")));
    assert_eq!(f.content, Some("/w==".to_string()));
    let f = decode_file_content(listed(Some("aGVsbG8="), Some("utf-8")));
    assert_eq!(f.content, Some("aGVsbG8=".to_string()));
    let f = decode_file_content(listed(None, Some("base64")));
    assert_eq!(f.content, None);
}

#[test]
fn status_classes() {
    assert_eq!(classify_status(200), FetchStatus::Found);
    assert_eq!(classify_status(204), FetchStatus::Found);
    assert_eq!(classify_status(404), FetchStatus::NotFound);
    assert_eq!(classify_status(403), FetchStatus::RateLimited);
    assert_eq!(classify_status(429), FetchStatus::RateLimited);
    assert_eq!(classify_status(500), FetchStatus::Failed);
    assert_eq!(classify_status(301), FetchStatus::Failed);
}

#[test]
fn anchor_among_names() {
    assert!(safex::github::lists_anchor(&vec!["serde".to_string(), "anchor-lang".to_string()]));
    assert!(!safex::github::lists_anchor(&vec!["anchor-spl".to_string()]));
}

#[test]
fn decoded_bytes_or_kept() {
    assert_eq!(safex::github::decoded_or_kept("x".to_string(), Some(b"hi".to_vec())), "hi");
    assert_eq!(safex::github::decoded_or_kept("x".to_string(), Some(vec![0xff])), "x");
    assert_eq!(safex::github::decoded_or_kept("x".to_string(), None), "x");
}
