use pastewatch::config::{Group, PasteSite};
use pastewatch::paste::{paste_plan, PasteDecision};

fn site(domain: &str, format: &str) -> PasteSite {
    PasteSite {
        domain: domain.to_string(),
        format: format.to_string(),
    }
}

fn group_with_sites(sites: Vec<PasteSite>) -> Group {
    Group {
        channels: vec!["general".to_string()],
        regex: vec![],
        keywords: vec![],
        paste_sites: sites,
    }
}

#[test]
fn matched_site_rewrites_to_raw_url() {
    let g = group_with_sites(vec![site(
        "paste.example",
        "https://paste.example/raw/&filename&",
    )]);
    let url = "https://paste.example/abc123".to_string();
    assert_eq!(
        paste_plan(&g, &url),
        PasteDecision::Fetch("https://paste.example/raw/abc123".to_string())
    );
}

#[test]
fn url_already_raw_is_fetched_unchanged() {
    let g = group_with_sites(vec![site(
        "paste.example",
        "https://paste.example/raw/&filename&",
    )]);
    let url = "https://paste.example/raw/abc123".to_string();
    assert_eq!(paste_plan(&g, &url), PasteDecision::Fetch(url.clone()));
}

#[test]
fn nested_path_is_substituted_without_leading_slash() {
    let g = group_with_sites(vec![site(
        "paste.example",
        "https://paste.example/txt/&filename&",
    )]);
    let url = "https://paste.example/p/deep/file".to_string();
    assert_eq!(
        paste_plan(&g, &url),
        PasteDecision::Fetch("https://paste.example/txt/p/deep/file".to_string())
    );
}

#[test]
fn unknown_host_is_not_a_paste() {
    let g = group_with_sites(vec![site(
        "paste.example",
        "https://paste.example/raw/&filename&",
    )]);
    let url = "https://other.example/abc123".to_string();
    assert_eq!(paste_plan(&g, &url), PasteDecision::NotPaste);
}

#[test]
fn domain_match_is_exact_no_subdomains() {
    let g = group_with_sites(vec![site(
        "paste.example",
        "https://paste.example/raw/&filename&",
    )]);
    let url = "https://www.paste.example/abc123".to_string();
    assert_eq!(paste_plan(&g, &url), PasteDecision::NotPaste);
}

#[test]
fn unparseable_url_is_rejected() {
    let g = group_with_sites(vec![site(
        "paste.example",
        "https://paste.example/raw/&filename&",
    )]);
    let url = "not a url at all".to_string();
    assert_eq!(paste_plan(&g, &url), PasteDecision::BadUrl);
}

#[test]
fn ip_host_has_no_domain_and_is_not_a_paste() {
    let g = group_with_sites(vec![site(
        "127.0.0.1",
        "https://paste.example/raw/&filename&",
    )]);
    let url = "https://127.0.0.1/abc123".to_string();
    assert_eq!(paste_plan(&g, &url), PasteDecision::NotPaste);
}

#[test]
fn every_placeholder_occurrence_is_substituted() {
    let g = group_with_sites(vec![site(
        "paste.example",
        "https://mirror.example/&filename&/&filename&",
    )]);
    let url = "https://paste.example/abc".to_string();
    assert_eq!(
        paste_plan(&g, &url),
        PasteDecision::Fetch("https://mirror.example/abc/abc".to_string())
    );
}

#[test]
fn first_matching_site_in_order_wins() {
    let g = group_with_sites(vec![
        site("paste.example", "https://paste.example/first/&filename&"),
        site("paste.example", "https://paste.example/second/&filename&"),
    ]);
    let url = "https://paste.example/abc".to_string();
    assert_eq!(
        paste_plan(&g, &url),
        PasteDecision::Fetch("https://paste.example/first/abc".to_string())
    );
}
