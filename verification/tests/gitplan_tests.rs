use create_x::cachekey::{hash, hex_str};
use create_x::error::ScaffoldError;
use create_x::gitplan::{fetch_template, remote_url, repo_fetch_plan, RepoFetch};
use create_x::parse::Provider;

#[test]
fn remote_url_ssh_and_https_forms() {
    assert_eq!(
        remote_url("github.com", "acme", "templates", false),
        "git@github.com:acme/templates.git"
    );
    assert_eq!(
        remote_url("github.com", "acme", "templates", true),
        "https://github.com/acme/templates.git"
    );
}

#[test]
fn scaffold_plan_for_github_url() {
    let plan = fetch_template(
        "https://github.com/acme/templates/tree/main/node-service",
        None,
        false,
    )
    .unwrap();
    assert_eq!(plan.template.owner, "acme");
    assert_eq!(plan.template.repo, "templates");
    assert_eq!(plan.template.refs, "main");
    assert_eq!(plan.template.path, "node-service");
    assert_eq!(plan.template.domain, "github.com");
    assert_eq!(plan.clone.remote, "git@github.com:acme/templates.git");
    assert_eq!(plan.clone.sparse_path, "node-service");
    assert_eq!(plan.clone.refspec, "main");
    let workdir = format!(
        "create-x-{}",
        hex_str(hash("github.com-acme-templates-main"))
    );
    assert_eq!(plan.clone.workdir, workdir);
    assert_eq!(plan.template_dir, format!("{}/node-service", workdir));
}

#[test]
fn scaffold_plan_uses_https_when_asked() {
    let plan = fetch_template(
        "https://gitlab.com/grp/proj/-/tree/dev/tpl",
        None,
        true,
    )
    .unwrap();
    assert_eq!(plan.clone.remote, "https://gitlab.com/grp/proj.git");
    assert_eq!(plan.clone.sparse_path, "tpl");
}

#[test]
fn scaffold_plan_propagates_parse_errors() {
    let r = fetch_template("https://github.com/acme/templates", None, false);
    assert_eq!(r.unwrap_err(), ScaffoldError::MalformedUrl);
    let r = fetch_template("https://forge.example.com/O/R/tree/B/p", None, false);
    assert_eq!(r.unwrap_err(), ScaffoldError::UnsupportedProvider);
    let r = fetch_template(
        "https://forge.example.com/O/R/tree/B/p",
        Some(Provider::GitHub),
        false,
    );
    assert!(r.is_ok());
}

#[test]
fn repo_fetch_pulls_existing_clone() {
    let p = repo_fetch_plan("acme", "templates", "main", true);
    match p {
        RepoFetch::Pull { workdir } => assert_eq!(workdir, "create-x-acme-templates-main"),
        other => panic!("expected Pull, got {:?}", other),
    }
}

#[test]
fn repo_fetch_clones_fresh() {
    let p = repo_fetch_plan("acme", "templates", "main", false);
    match p {
        RepoFetch::Clone {
            remote,
            refs,
            workdir,
        } => {
            assert_eq!(remote, "git@github.com:acme/templates.git");
            assert_eq!(refs, "main");
            assert_eq!(workdir, "create-x-acme-templates-main");
        }
        other => panic!("expected Clone, got {:?}", other),
    }
}
