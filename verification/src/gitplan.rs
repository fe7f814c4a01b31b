//! Planning for the git clone/sparse-checkout fetch strategy.
//!
//! Fetching runs git as a subprocess, which this crate cannot do; what it
//! can do is decide, exactly, what the subprocess run must look like: the
//! working directory derived from the cache key, the remote URL in its SSH
//! or HTTPS form, the sparse-checkout pattern, and the ref to pull. The
//! caller executes the plan verbatim and reports failures back as
//! `SubprocessFailure`.
use vstd::prelude::*;

use crate::cachekey::{hash, hex_rep, hex_str, stable_hash};
use crate::error::ScaffoldError;
use crate::parse::{parse_url, provider_of, spec_parse, Provider, TemplateRef};

verus! {

/// The seed string the cache key is hashed from: the four identifying
/// parts joined with `-`.
pub open spec fn cache_seed(d: Seq<char>, o: Seq<char>, r: Seq<char>, b: Seq<char>) -> Seq<
    char,
> {
    d + "-"@ + o + "-"@ + r + "-"@ + b
}

/// The working-directory name for a clone: a fixed prefix plus the hex of
/// the stable hash of the seed, so equal sources reuse one directory.
pub open spec fn workdir_name(d: Seq<char>, o: Seq<char>, r: Seq<char>, b: Seq<char>) -> Seq<
    char,
> {
    "create-x-"@ + hex_rep(stable_hash(cache_seed(d, o, r, b)))
}

/// The remote URL for the repository, in HTTPS or SSH form.
pub open spec fn remote_url_spec(d: Seq<char>, o: Seq<char>, r: Seq<char>, https: bool) -> Seq<
    char,
> {
    if https {
        "https://"@ + d + "/"@ + o + "/"@ + r + ".git"@
    } else {
        "git@"@ + d + ":"@ + o + "/"@ + r + ".git"@
    }
}

/// Build the remote URL for the repository.
pub fn remote_url(domain: &str, owner: &str, repo: &str, https: bool) -> (r: String)
    ensures
        r@ == remote_url_spec(domain@, owner@, repo@, https),
{
    let mut s = if https {
        String::from_str("https://")
    } else {
        String::from_str("git@")
    };
    s.append(domain);
    s.append(if https { "/" } else { ":" });
    s.append(owner);
    s.append("/");
    s.append(repo);
    s.append(".git");
    s
}

/// Build the cache-keyed working-directory name for a source.
pub fn workdir_for(domain: &str, owner: &str, repo: &str, refs: &str) -> (r: String)
    ensures
        r@ == workdir_name(domain@, owner@, repo@, refs@),
{
    let mut seed = domain.to_owned();
    seed.append("-");
    seed.append(owner);
    seed.append("-");
    seed.append(repo);
    seed.append("-");
    seed.append(refs);
    let id = hash(seed.as_str());
    let digits = hex_str(id);
    let mut w = String::from_str("create-x-");
    w.append(digits.as_str());
    w
}

/// Everything a caller must run to obtain the template directory by a
/// shallow sparse clone: create `workdir` under the temporary directory
/// (removing a stale one first), `git init` there, add `remote` as origin,
/// enable sparse checkout restricted to `sparse_path`, and pull `refspec`
/// with depth 1.
#[derive(Debug)]
pub struct ClonePlan {
    pub workdir: String,
    pub remote: String,
    pub sparse_path: String,
    pub refspec: String,
}

impl ClonePlan {
    /// The plan is exactly the one `t` and the protocol choice determine.
    pub open spec fn wf_for(self, t: TemplateRef, https: bool) -> bool {
        &&& self.workdir@ == workdir_name(t.domain@, t.owner@, t.repo@, t.refs@)
        &&& self.remote@ == remote_url_spec(t.domain@, t.owner@, t.repo@, https)
        &&& self.sparse_path@ == t.path@
        &&& self.refspec@ == t.refs@
    }
}

/// Derive the clone plan for a parsed template reference.
pub fn clone_plan(t: &TemplateRef, https: bool) -> (p: ClonePlan)
    ensures
        p.wf_for(*t, https),
{
    let workdir = workdir_for(t.domain.as_str(), t.owner.as_str(), t.repo.as_str(),
        t.refs.as_str());
    let remote = remote_url(t.domain.as_str(), t.owner.as_str(), t.repo.as_str(), https);
    let sparse_path = t.path.clone();
    let refspec = t.refs.clone();
    ClonePlan { workdir, remote, sparse_path, refspec }
}

/// Join the working directory and the subpath into the template directory's
/// path relative to the temporary directory.
pub fn template_subdir(workdir: &str, path: &str) -> (r: String)
    ensures
        r@ == workdir@ + "/"@ + path@,
{
    let mut s = workdir.to_owned();
    s.append("/");
    s.append(path);
    s
}

/// A fetch plan and the parts it was derived from: the output of the whole
/// acquisition front end, ready for a caller to execute.
#[derive(Debug)]
pub struct ScaffoldPlan {
    pub template: TemplateRef,
    pub clone: ClonePlan,
    pub template_dir: String,
}

/// Parse `url` under the governing provider and derive the clone plan and
/// the template directory (relative to the temporary directory) from it.
///
/// Fails exactly as the parser does: `UnsupportedProvider` when no provider
/// governs, `MalformedUrl` when the URL does not match the shape.
pub fn fetch_template(url: &str, ty: Option<Provider>, use_https: bool) -> (res: Result<
    ScaffoldPlan,
    ScaffoldError,
>)
    ensures
        ({
            let prov = provider_of(url@, ty);
            match res {
                Ok(plan) => {
                    &&& prov is Some
                    &&& plan.template.wf()
                    &&& (prov == Some(Provider::GitHub) ==> spec_parse(url@, "tree/"@) == Some(
                        (
                            plan.template.domain@,
                            plan.template.owner@,
                            plan.template.repo@,
                            plan.template.refs@,
                            plan.template.path@,
                        ),
                    ))
                    &&& (prov == Some(Provider::GitLab) ==> spec_parse(url@, "-/tree/"@) == Some(
                        (
                            plan.template.domain@,
                            plan.template.owner@,
                            plan.template.repo@,
                            plan.template.refs@,
                            plan.template.path@,
                        ),
                    ))
                    &&& plan.clone.wf_for(plan.template, use_https)
                    &&& plan.template_dir@ == plan.clone.workdir@ + "/"@ + plan.template.path@
                },
                Err(e) => {
                    &&& (prov is None ==> e == ScaffoldError::UnsupportedProvider)
                    &&& (prov == Some(Provider::GitHub) ==> e == ScaffoldError::MalformedUrl
                        && spec_parse(url@, "tree/"@) is None)
                    &&& (prov == Some(Provider::GitLab) ==> e == ScaffoldError::MalformedUrl
                        && spec_parse(url@, "-/tree/"@) is None)
                },
            }
        }),
{
    let template = match parse_url(url, ty) {
        Ok(t) => t,
        Err(e) => {
            return Err(e);
        },
    };
    let clone = clone_plan(&template, use_https);
    let template_dir = template_subdir(clone.workdir.as_str(), template.path.as_str());
    Ok(ScaffoldPlan { template, clone, template_dir })
}

/// The working-directory name of the plain (non-sparse) fetch strategy:
/// the identifying parts joined onto the fixed prefix.
pub open spec fn plain_folder_name(o: Seq<char>, r: Seq<char>, b: Seq<char>) -> Seq<char> {
    "create-x-"@ + o + "-"@ + r + "-"@ + b
}

/// What a plain whole-repository fetch must run.
#[derive(Debug)]
pub enum RepoFetch {
    /// The working directory already holds a clone: pull inside it.
    Pull { workdir: String },
    /// No clone yet: clone `remote` at `refs`, depth 1, into `workdir`
    /// under the temporary directory.
    Clone { remote: String, refs: String, workdir: String },
}

/// Decide the plain fetch strategy's step: pull when a prior clone for the
/// same source exists, otherwise a fresh shallow clone over SSH from the
/// well-known GitHub host.
pub fn repo_fetch_plan(owner: &str, repo: &str, refs: &str, already_cloned: bool) -> (p: RepoFetch)
    ensures
        ({
            let w = plain_folder_name(owner@, repo@, refs@);
            if already_cloned {
                p matches RepoFetch::Pull { workdir } && workdir@ == w
            } else {
                &&& p matches RepoFetch::Clone { remote, refs: rf, workdir }
                &&& remote@ == remote_url_spec("github.com"@, owner@, repo@, false)
                &&& rf@ == refs@
                &&& workdir@ == w
            }
        }),
{
    let mut w = String::from_str("create-x-");
    w.append(owner);
    w.append("-");
    w.append(repo);
    w.append("-");
    w.append(refs);
    if already_cloned {
        RepoFetch::Pull { workdir: w }
    } else {
        proof {
            reveal_strlit("github.com");
        }
        let remote = remote_url("github.com", owner, repo, false);
        RepoFetch::Clone { remote, refs: refs.to_owned(), workdir: w }
    }
}

} // verus!
