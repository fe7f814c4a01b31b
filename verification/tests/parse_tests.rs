use create_x::error::ScaffoldError;
use create_x::parse::{parse_url, Provider};

#[test]
fn github_url_parses() {
    let t = parse_url(
        "https://github.com/acme/templates/tree/main/node-service",
        None,
    )
    .unwrap();
    assert_eq!(t.domain, "github.com");
    assert_eq!(t.owner, "acme");
    assert_eq!(t.repo, "templates");
    assert_eq!(t.refs, "main");
    assert_eq!(t.path, "node-service");
}

#[test]
fn github_url_multi_segment_path_parses() {
    let t = parse_url("https://github.com/O/R/tree/B/p1/p2", None).unwrap();
    assert_eq!(t.domain, "github.com");
    assert_eq!(t.owner, "O");
    assert_eq!(t.repo, "R");
    assert_eq!(t.refs, "B");
    assert_eq!(t.path, "p1/p2");
}

#[test]
fn gitlab_url_parses() {
    let t = parse_url("https://gitlab.com/O/R/-/tree/B/p1", None).unwrap();
    assert_eq!(t.domain, "gitlab.com");
    assert_eq!(t.owner, "O");
    assert_eq!(t.repo, "R");
    assert_eq!(t.refs, "B");
    assert_eq!(t.path, "p1");
}

#[test]
fn url_without_tree_is_malformed() {
    let r = parse_url("https://github.com/acme/templates/main/node-service", None);
    assert_eq!(r.unwrap_err(), ScaffoldError::MalformedUrl);
}

#[test]
fn gitlab_url_without_dash_segment_is_malformed() {
    let r = parse_url("https://gitlab.com/O/R/tree/B/p1", None);
    assert_eq!(r.unwrap_err(), ScaffoldError::MalformedUrl);
}

#[test]
fn github_url_with_dash_segment_is_malformed() {
    let r = parse_url("https://github.com/O/R/-/tree/B/p1", None);
    assert_eq!(r.unwrap_err(), ScaffoldError::MalformedUrl);
}

#[test]
fn unknown_host_without_type_is_unsupported() {
    let r = parse_url("https://forge.example.com/O/R/tree/B/p1", None);
    assert_eq!(r.unwrap_err(), ScaffoldError::UnsupportedProvider);
}

#[test]
fn unknown_host_with_explicit_type_parses() {
    let t = parse_url(
        "https://forge.example.com/O/R/tree/B/p1",
        Some(Provider::GitHub),
    )
    .unwrap();
    assert_eq!(t.domain, "forge.example.com");
    assert_eq!(t.owner, "O");
    assert_eq!(t.repo, "R");
    assert_eq!(t.refs, "B");
    assert_eq!(t.path, "p1");
}

#[test]
fn explicit_gitlab_type_on_unknown_host_parses() {
    let t = parse_url(
        "https://forge.example.com/O/R/-/tree/B/p1/p2",
        Some(Provider::GitLab),
    )
    .unwrap();
    assert_eq!(t.domain, "forge.example.com");
    assert_eq!(t.path, "p1/p2");
}

#[test]
fn url_without_subpath_is_malformed() {
    let r = parse_url("https://github.com/O/R/tree/B", None);
    assert_eq!(r.unwrap_err(), ScaffoldError::MalformedUrl);
    let r = parse_url("https://github.com/O/R/tree/B/", None);
    assert_eq!(r.unwrap_err(), ScaffoldError::MalformedUrl);
}

#[test]
fn url_with_empty_segment_is_malformed() {
    let r = parse_url("https://github.com//R/tree/B/p", None);
    assert_eq!(r.unwrap_err(), ScaffoldError::MalformedUrl);
    let r = parse_url("https://github.com/O//tree/B/p", None);
    assert_eq!(r.unwrap_err(), ScaffoldError::MalformedUrl);
}

#[test]
fn ref_with_slash_reads_first_segment_as_ref() {
    let t = parse_url("https://github.com/O/R/tree/feature/x/y", None).unwrap();
    assert_eq!(t.refs, "feature");
    assert_eq!(t.path, "x/y");
}

#[test]
fn non_https_scheme_is_malformed() {
    let r = parse_url("http://example.com/O/R/tree/B/p", Some(Provider::GitHub));
    assert_eq!(r.unwrap_err(), ScaffoldError::MalformedUrl);
}
