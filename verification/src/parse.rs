//! The URL parser: from a source-forge "tree" URL to a `TemplateRef`.
//!
//! A tree URL names a subdirectory of a repository at a ref:
//! `https://<domain>/<owner>/<repo>/tree/<ref>/<subpath>` on GitHub, with an
//! extra `-/` segment before `tree` on GitLab. Matching is anchored and
//! whole-string; a partial match is malformed. A ref containing `/` cannot
//! be told apart from the start of the subpath, so the first segment after
//! the marker is taken as the complete ref — a known limitation of the
//! grammar itself.
use vstd::prelude::*;

use crate::error::ScaffoldError;
use crate::text::{find_char, first_at, lemma_first_at, lemma_first_at_is, match_at, occurs_at};

verus! {

/// Which forge's URL shape to parse.
#[derive(Clone, Copy, Debug, PartialEq, Eq, Structural)]
pub enum Provider {
    GitHub,
    GitLab,
}

/// The parsed identity of a template: where it lives and which subdirectory
/// to take. Produced once by the parser and never mutated.
#[derive(Clone, Debug)]
pub struct TemplateRef {
    pub owner: String,
    pub repo: String,
    pub refs: String,
    pub path: String,
    pub domain: String,
}

/// No `/` occurs in `s`.
pub open spec fn no_slash(s: Seq<char>) -> bool {
    forall|i: int| 0 <= i < s.len() ==> s[i] != '/'
}

/// A nonempty run of characters free of `/`: one path segment of the URL.
pub open spec fn seg(s: Seq<char>) -> bool {
    s.len() > 0 && no_slash(s)
}

impl TemplateRef {
    /// The invariant the parser establishes: every part is nonempty, and
    /// all but the subpath are single segments.
    pub open spec fn wf(&self) -> bool {
        &&& seg(self.domain@)
        &&& seg(self.owner@)
        &&& seg(self.repo@)
        &&& seg(self.refs@)
        &&& self.path@.len() > 0
    }
}

/// `u` is exactly `https://<d>/<o>/<r>/<m><b>/<p>` for the forge marker `m`
/// (`tree/` on GitHub, `-/tree/` on GitLab), with `d`, `o`, `r`, `b` single
/// segments and `p` nonempty.
pub open spec fn forge_shape(
    u: Seq<char>,
    m: Seq<char>,
    d: Seq<char>,
    o: Seq<char>,
    r: Seq<char>,
    b: Seq<char>,
    p: Seq<char>,
) -> bool {
    &&& u == "https://"@ + d + "/"@ + o + "/"@ + r + "/"@ + m + b + "/"@ + p
    &&& seg(d)
    &&& seg(o)
    &&& seg(r)
    &&& seg(b)
    &&& p.len() > 0
}

/// `u` is a well-formed GitHub tree URL decomposing into the given parts.
pub open spec fn github_shape(
    u: Seq<char>,
    d: Seq<char>,
    o: Seq<char>,
    r: Seq<char>,
    b: Seq<char>,
    p: Seq<char>,
) -> bool {
    forge_shape(u, "tree/"@, d, o, r, b, p)
}

/// `u` is a well-formed GitLab tree URL decomposing into the given parts.
pub open spec fn gitlab_shape(
    u: Seq<char>,
    d: Seq<char>,
    o: Seq<char>,
    r: Seq<char>,
    b: Seq<char>,
    p: Seq<char>,
) -> bool {
    forge_shape(u, "-/tree/"@, d, o, r, b, p)
}

/// What parsing `u` against the marker `m` yields: the five parts
/// (domain, owner, repo, ref, subpath), or nothing when `u` does not match
/// the shape. Scanning takes the first `/` after each part, so a ref with
/// a slash in it is read as ref plus subpath.
pub open spec fn spec_parse(u: Seq<char>, m: Seq<char>) -> Option<
    (Seq<char>, Seq<char>, Seq<char>, Seq<char>, Seq<char>),
> {
    let n = u.len() as int;
    if !(u.len() >= 8 && u.subrange(0, 8) == "https://"@) {
        None
    } else {
        let i1 = first_at(u, 8, '/');
        let i2 = first_at(u, i1 + 1, '/');
        let i3 = first_at(u, i2 + 1, '/');
        if i1 == n || i1 == 8 || i2 == n || i2 == i1 + 1 || i3 == n || i3 == i2 + 1 {
            None
        } else if !occurs_at(u, i3 + 1, m) {
            None
        } else {
            let rs = i3 + 1 + m.len();
            let i4 = first_at(u, rs, '/');
            if i4 == n || i4 == rs || i4 + 1 == n {
                None
            } else {
                Some(
                    (
                        u.subrange(8, i1),
                        u.subrange(i1 + 1, i2),
                        u.subrange(i2 + 1, i3),
                        u.subrange(rs, i4),
                        u.subrange(i4 + 1, n),
                    ),
                )
            }
        }
    }
}

/// `res` is what parsing `u` against marker `m` owes the caller: the parts
/// of the unique decomposition on a match, `MalformedUrl` otherwise.
pub open spec fn parse_result_matches(
    u: Seq<char>,
    m: Seq<char>,
    res: Result<TemplateRef, ScaffoldError>,
) -> bool {
    match spec_parse(u, m) {
        Some(parts) => {
            &&& res matches Ok(t)
            &&& t.domain@ == parts.0
            &&& t.owner@ == parts.1
            &&& t.repo@ == parts.2
            &&& t.refs@ == parts.3
            &&& t.path@ == parts.4
            &&& t.wf()
        },
        None => res == Err::<TemplateRef, ScaffoldError>(ScaffoldError::MalformedUrl),
    }
}

/// Every URL of the forge shape parses, and to exactly its parts: the
/// decomposition is unique, and the parser finds it.
pub proof fn lemma_shape_parsed(
    u: Seq<char>,
    m: Seq<char>,
    d: Seq<char>,
    o: Seq<char>,
    r: Seq<char>,
    b: Seq<char>,
    p: Seq<char>,
)
    requires
        forge_shape(u, m, d, o, r, b, p),
    ensures
        spec_parse(u, m) == Some((d, o, r, b, p)),
{
    reveal_strlit("https://");
    reveal_strlit("/");
    let n = u.len() as int;
    let j1 = 8 + d.len() as int;
    let j2 = j1 + 1 + o.len() as int;
    let j3 = j2 + 1 + r.len() as int;
    let rs = j3 + 1 + m.len() as int;
    let j4 = rs + b.len() as int;
    assert(n == j4 + 1 + p.len());
    assert(forall|j: int| 0 <= j < 8 ==> u[j] == "https://"@[j]);
    assert(forall|j: int| 8 <= j < j1 ==> u[j] == d[j - 8]);
    assert(u[j1] == "/"@[0]);
    assert(forall|j: int| j1 + 1 <= j < j2 ==> u[j] == o[j - (j1 + 1)]);
    assert(u[j2] == "/"@[0]);
    assert(forall|j: int| j2 + 1 <= j < j3 ==> u[j] == r[j - (j2 + 1)]);
    assert(u[j3] == "/"@[0]);
    assert(forall|j: int| j3 + 1 <= j < rs ==> u[j] == m[j - (j3 + 1)]);
    assert(forall|j: int| rs <= j < j4 ==> u[j] == b[j - rs]);
    assert(u[j4] == "/"@[0]);
    assert(u.subrange(0, 8) =~= "https://"@);
    lemma_first_at_is(u, 8, '/', j1);
    lemma_first_at_is(u, j1 + 1, '/', j2);
    lemma_first_at_is(u, j2 + 1, '/', j3);
    assert(u.subrange(j3 + 1, rs) =~= m);
    assert(occurs_at(u, j3 + 1, m));
    lemma_first_at_is(u, rs, '/', j4);
    assert(u.subrange(8, j1) =~= d);
    assert(u.subrange(j1 + 1, j2) =~= o);
    assert(u.subrange(j2 + 1, j3) =~= r);
    assert(u.subrange(rs, j4) =~= b);
    assert(u.subrange(j4 + 1, n) =~= p);
}

/// What the parser accepts really is the forge shape: a parse result is
/// never a partial or shifted match.
pub proof fn lemma_parsed_shape(
    u: Seq<char>,
    m: Seq<char>,
    d: Seq<char>,
    o: Seq<char>,
    r: Seq<char>,
    b: Seq<char>,
    p: Seq<char>,
)
    requires
        spec_parse(u, m) == Some((d, o, r, b, p)),
    ensures
        forge_shape(u, m, d, o, r, b, p),
{
    reveal_strlit("https://");
    reveal_strlit("/");
    let n = u.len() as int;
    let i1 = first_at(u, 8, '/');
    lemma_first_at(u, 8, '/');
    let i2 = first_at(u, i1 + 1, '/');
    lemma_first_at(u, i1 + 1, '/');
    let i3 = first_at(u, i2 + 1, '/');
    lemma_first_at(u, i2 + 1, '/');
    let rs = i3 + 1 + m.len() as int;
    let i4 = first_at(u, rs, '/');
    lemma_first_at(u, rs, '/');
    assert(u.subrange(i3 + 1, rs) == m);
    assert(u =~= "https://"@ + d + "/"@ + o + "/"@ + r + "/"@ + m + b + "/"@ + p);
}

/// Law: every well-formed GitHub tree URL parses to exactly its parts.
pub proof fn lemma_github_url_parses(
    u: Seq<char>,
    d: Seq<char>,
    o: Seq<char>,
    r: Seq<char>,
    b: Seq<char>,
    p: Seq<char>,
)
    requires
        github_shape(u, d, o, r, b, p),
    ensures
        spec_parse(u, "tree/"@) == Some((d, o, r, b, p)),
{
    lemma_shape_parsed(u, "tree/"@, d, o, r, b, p);
}

/// Law: every well-formed GitLab tree URL parses to exactly its parts.
pub proof fn lemma_gitlab_url_parses(
    u: Seq<char>,
    d: Seq<char>,
    o: Seq<char>,
    r: Seq<char>,
    b: Seq<char>,
    p: Seq<char>,
)
    requires
        gitlab_shape(u, d, o, r, b, p),
    ensures
        spec_parse(u, "-/tree/"@) == Some((d, o, r, b, p)),
{
    lemma_shape_parsed(u, "-/tree/"@, d, o, r, b, p);
}

/// Law: a URL in which `/tree/` never occurs parses against neither forge
/// shape, so the parser answers `MalformedUrl` for it.
pub proof fn lemma_no_tree_malformed(u: Seq<char>)
    requires
        forall|k: int| !occurs_at(u, k, "/tree/"@),
    ensures
        spec_parse(u, "tree/"@) is None,
        spec_parse(u, "-/tree/"@) is None,
{
    reveal_strlit("/tree/");
    reveal_strlit("tree/");
    reveal_strlit("-/tree/");
    let n = u.len() as int;
    if spec_parse(u, "tree/"@) is Some {
        let i1 = first_at(u, 8, '/');
        let i2 = first_at(u, i1 + 1, '/');
        let i3 = first_at(u, i2 + 1, '/');
        lemma_first_at(u, 8, '/');
        lemma_first_at(u, i1 + 1, '/');
        lemma_first_at(u, i2 + 1, '/');
        assert(occurs_at(u, i3 + 1, "tree/"@));
        assert(u.subrange(i3 + 1, i3 + 6) == "tree/"@);
        assert forall|k: int| 0 <= k < 6 implies u[i3 + k] == "/tree/"@[k] by {
            if k == 0 {
                assert(u[i3] == '/');
                assert("/tree/"@[0] == '/');
            } else {
                assert(u.subrange(i3 + 1, i3 + 6)[k - 1] == "tree/"@[k - 1]);
                if k == 1 {
                    assert("tree/"@[0] == 't' && "/tree/"@[1] == 't');
                } else if k == 2 {
                    assert("tree/"@[1] == 'r' && "/tree/"@[2] == 'r');
                } else if k == 3 {
                    assert("tree/"@[2] == 'e' && "/tree/"@[3] == 'e');
                } else if k == 4 {
                    assert("tree/"@[3] == 'e' && "/tree/"@[4] == 'e');
                } else {
                    assert("tree/"@[4] == '/' && "/tree/"@[5] == '/');
                }
            }
        }
        assert(u.subrange(i3, i3 + 6) =~= "/tree/"@);
        assert(occurs_at(u, i3, "/tree/"@));
        assert(false);
    }
    if spec_parse(u, "-/tree/"@) is Some {
        let i1 = first_at(u, 8, '/');
        let i2 = first_at(u, i1 + 1, '/');
        let i3 = first_at(u, i2 + 1, '/');
        lemma_first_at(u, 8, '/');
        lemma_first_at(u, i1 + 1, '/');
        lemma_first_at(u, i2 + 1, '/');
        assert(occurs_at(u, i3 + 1, "-/tree/"@));
        assert(u.subrange(i3 + 1, i3 + 8) == "-/tree/"@);
        assert forall|k: int| 0 <= k < 6 implies u[i3 + 2 + k] == "/tree/"@[k] by {
            assert(u.subrange(i3 + 1, i3 + 8)[k + 1] == "-/tree/"@[k + 1]);
            if k == 0 {
                assert("-/tree/"@[1] == '/' && "/tree/"@[0] == '/');
            } else if k == 1 {
                assert("-/tree/"@[2] == 't' && "/tree/"@[1] == 't');
            } else if k == 2 {
                assert("-/tree/"@[3] == 'r' && "/tree/"@[2] == 'r');
            } else if k == 3 {
                assert("-/tree/"@[4] == 'e' && "/tree/"@[3] == 'e');
            } else if k == 4 {
                assert("-/tree/"@[5] == 'e' && "/tree/"@[4] == 'e');
            } else {
                assert("-/tree/"@[6] == '/' && "/tree/"@[5] == '/');
            }
        }
        assert(u.subrange(i3 + 2, i3 + 8) =~= "/tree/"@);
        assert(occurs_at(u, i3 + 2, "/tree/"@));
        assert(false);
    }
}

/// Law: a URL in which `/-/tree/` never occurs is malformed for the
/// GitLab shape, whatever else — even a `/tree/` — it contains.
pub proof fn lemma_no_dash_tree_gitlab_malformed(u: Seq<char>)
    requires
        forall|k: int| !occurs_at(u, k, "/-/tree/"@),
    ensures
        spec_parse(u, "-/tree/"@) is None,
{
    reveal_strlit("/-/tree/");
    reveal_strlit("-/tree/");
    if spec_parse(u, "-/tree/"@) is Some {
        let i1 = first_at(u, 8, '/');
        let i2 = first_at(u, i1 + 1, '/');
        let i3 = first_at(u, i2 + 1, '/');
        lemma_first_at(u, 8, '/');
        lemma_first_at(u, i1 + 1, '/');
        lemma_first_at(u, i2 + 1, '/');
        assert(occurs_at(u, i3 + 1, "-/tree/"@));
        assert(u.subrange(i3 + 1, i3 + 8) == "-/tree/"@);
        assert forall|k: int| 0 <= k < 8 implies u[i3 + k] == "/-/tree/"@[k] by {
            if k == 0 {
                assert(u[i3] == '/');
                assert("/-/tree/"@[0] == '/');
            } else {
                assert(u.subrange(i3 + 1, i3 + 8)[k - 1] == "-/tree/"@[k - 1]);
                if k == 1 {
                    assert("-/tree/"@[0] == '-' && "/-/tree/"@[1] == '-');
                } else if k == 2 {
                    assert("-/tree/"@[1] == '/' && "/-/tree/"@[2] == '/');
                } else if k == 3 {
                    assert("-/tree/"@[2] == 't' && "/-/tree/"@[3] == 't');
                } else if k == 4 {
                    assert("-/tree/"@[3] == 'r' && "/-/tree/"@[4] == 'r');
                } else if k == 5 {
                    assert("-/tree/"@[4] == 'e' && "/-/tree/"@[5] == 'e');
                } else if k == 6 {
                    assert("-/tree/"@[5] == 'e' && "/-/tree/"@[6] == 'e');
                } else {
                    assert("-/tree/"@[6] == '/' && "/-/tree/"@[7] == '/');
                }
            }
        }
        assert(u.subrange(i3, i3 + 8) =~= "/-/tree/"@);
        assert(occurs_at(u, i3, "/-/tree/"@));
        assert(false);
    }
}

/// Law: a GitHub-shaped URL on the well-known host decomposes with domain
/// `github.com`.
pub proof fn lemma_github_host_domain(
    u: Seq<char>,
    d: Seq<char>,
    o: Seq<char>,
    r: Seq<char>,
    b: Seq<char>,
    p: Seq<char>,
)
    requires
        github_shape(u, d, o, r, b, p),
        occurs_at(u, 0, "https://github.com/"@),
    ensures
        d == "github.com"@,
{
    reveal_strlit("https://github.com/");
    reveal_strlit("github.com");
    reveal_strlit("https://");
    reveal_strlit("/");
    let j1 = 8 + d.len() as int;
    assert(forall|j: int| 8 <= j < j1 ==> u[j] == d[j - 8]);
    assert(u[j1] == "/"@[0]);
    assert(forall|j: int| 0 <= j < 19 ==> u[j] == "https://github.com/"@[j]);
    assert(u[18] == '/');
    if d.len() < 10 {
        assert(u[8 + d.len() as int] == "https://github.com/"@[8 + d.len() as int]);
        assert(false);
    }
    if d.len() > 10 {
        assert(d[10] == u[18]);
        assert(false);
    }
    assert forall|k: int| 0 <= k < 10 implies d[k] == "github.com"@[k] by {
        assert(u[8 + k] == d[k]);
        assert(u[8 + k] == "https://github.com/"@[8 + k]);
        if k == 0 {
            assert("https://github.com/"@[8] == 'g' && "github.com"@[0] == 'g');
        } else if k == 1 {
            assert("https://github.com/"@[9] == 'i' && "github.com"@[1] == 'i');
        } else if k == 2 {
            assert("https://github.com/"@[10] == 't' && "github.com"@[2] == 't');
        } else if k == 3 {
            assert("https://github.com/"@[11] == 'h' && "github.com"@[3] == 'h');
        } else if k == 4 {
            assert("https://github.com/"@[12] == 'u' && "github.com"@[4] == 'u');
        } else if k == 5 {
            assert("https://github.com/"@[13] == 'b' && "github.com"@[5] == 'b');
        } else if k == 6 {
            assert("https://github.com/"@[14] == '.' && "github.com"@[6] == '.');
        } else if k == 7 {
            assert("https://github.com/"@[15] == 'c' && "github.com"@[7] == 'c');
        } else if k == 8 {
            assert("https://github.com/"@[16] == 'o' && "github.com"@[8] == 'o');
        } else {
            assert("https://github.com/"@[17] == 'm' && "github.com"@[9] == 'm');
        }
    }
    assert(d =~= "github.com"@);
}

/// Law: a GitLab-shaped URL on the well-known host decomposes with domain
/// `gitlab.com`.
pub proof fn lemma_gitlab_host_domain(
    u: Seq<char>,
    d: Seq<char>,
    o: Seq<char>,
    r: Seq<char>,
    b: Seq<char>,
    p: Seq<char>,
)
    requires
        gitlab_shape(u, d, o, r, b, p),
        occurs_at(u, 0, "https://gitlab.com/"@),
    ensures
        d == "gitlab.com"@,
{
    reveal_strlit("https://gitlab.com/");
    reveal_strlit("gitlab.com");
    reveal_strlit("https://");
    reveal_strlit("/");
    let j1 = 8 + d.len() as int;
    assert(forall|j: int| 8 <= j < j1 ==> u[j] == d[j - 8]);
    assert(u[j1] == "/"@[0]);
    assert(forall|j: int| 0 <= j < 19 ==> u[j] == "https://gitlab.com/"@[j]);
    assert(u[18] == '/');
    if d.len() < 10 {
        assert(u[8 + d.len() as int] == "https://gitlab.com/"@[8 + d.len() as int]);
        assert(false);
    }
    if d.len() > 10 {
        assert(d[10] == u[18]);
        assert(false);
    }
    assert forall|k: int| 0 <= k < 10 implies d[k] == "gitlab.com"@[k] by {
        assert(u[8 + k] == d[k]);
        assert(u[8 + k] == "https://gitlab.com/"@[8 + k]);
        if k == 0 {
            assert("https://gitlab.com/"@[8] == 'g' && "gitlab.com"@[0] == 'g');
        } else if k == 1 {
            assert("https://gitlab.com/"@[9] == 'i' && "gitlab.com"@[1] == 'i');
        } else if k == 2 {
            assert("https://gitlab.com/"@[10] == 't' && "gitlab.com"@[2] == 't');
        } else if k == 3 {
            assert("https://gitlab.com/"@[11] == 'l' && "gitlab.com"@[3] == 'l');
        } else if k == 4 {
            assert("https://gitlab.com/"@[12] == 'a' && "gitlab.com"@[4] == 'a');
        } else if k == 5 {
            assert("https://gitlab.com/"@[13] == 'b' && "gitlab.com"@[5] == 'b');
        } else if k == 6 {
            assert("https://gitlab.com/"@[14] == '.' && "gitlab.com"@[6] == '.');
        } else if k == 7 {
            assert("https://gitlab.com/"@[15] == 'c' && "gitlab.com"@[7] == 'c');
        } else if k == 8 {
            assert("https://gitlab.com/"@[16] == 'o' && "gitlab.com"@[8] == 'o');
        } else {
            assert("https://gitlab.com/"@[17] == 'm' && "gitlab.com"@[9] == 'm');
        }
    }
    assert(d =~= "gitlab.com"@);
}

fn parse_with_marker(url: &str, marker: &str) -> (res: Result<TemplateRef, ScaffoldError>)
    ensures
        parse_result_matches(url@, marker@, res),
{
    proof {
        reveal_strlit("https://");
    }
    let ghost u = url@;
    let ghost n = url@.len() as int;
    let nn = url.unicode_len();
    if !match_at(url, 0, "https://") {
        return Err(ScaffoldError::MalformedUrl);
    }
    let i1 = match find_char(url, 8, '/') {
        Some(i) => i,
        None => {
            return Err(ScaffoldError::MalformedUrl);
        },
    };
    if i1 == 8 {
        return Err(ScaffoldError::MalformedUrl);
    }
    let i2 = match find_char(url, i1 + 1, '/') {
        Some(i) => i,
        None => {
            proof {
                lemma_first_at(u, i1 + 1, '/');
            }
            return Err(ScaffoldError::MalformedUrl);
        },
    };
    if i2 == i1 + 1 {
        return Err(ScaffoldError::MalformedUrl);
    }
    let i3 = match find_char(url, i2 + 1, '/') {
        Some(i) => i,
        None => {
            proof {
                lemma_first_at(u, i2 + 1, '/');
            }
            return Err(ScaffoldError::MalformedUrl);
        },
    };
    if i3 == i2 + 1 {
        return Err(ScaffoldError::MalformedUrl);
    }
    if !match_at(url, i3 + 1, marker) {
        return Err(ScaffoldError::MalformedUrl);
    }
    assert(i3 + 1 + marker@.len() <= n);
    let rs = i3 + 1 + marker.unicode_len();
    let i4 = match find_char(url, rs, '/') {
        Some(i) => i,
        None => {
            proof {
                lemma_first_at(u, rs as int, '/');
            }
            return Err(ScaffoldError::MalformedUrl);
        },
    };
    if i4 == rs || i4 + 1 == nn {
        return Err(ScaffoldError::MalformedUrl);
    }
    proof {
        lemma_first_at(u, 8, '/');
        lemma_first_at(u, i1 + 1, '/');
        lemma_first_at(u, i2 + 1, '/');
        lemma_first_at(u, rs as int, '/');
    }
    let domain = url.substring_char(8, i1).to_owned();
    let owner = url.substring_char(i1 + 1, i2).to_owned();
    let repo = url.substring_char(i2 + 1, i3).to_owned();
    let refs = url.substring_char(rs, i4).to_owned();
    let path = url.substring_char(i4 + 1, nn).to_owned();
    Ok(TemplateRef { owner, repo, refs, path, domain })
}

/// The provider a bare URL implies: one of the two well-known hosts, or
/// none, in which case the caller must name one.
pub open spec fn inferred_provider(u: Seq<char>) -> Option<Provider> {
    if occurs_at(u, 0, "https://github.com/"@) {
        Some(Provider::GitHub)
    } else if occurs_at(u, 0, "https://gitlab.com/"@) {
        Some(Provider::GitLab)
    } else {
        None
    }
}

/// The provider that governs parsing: an explicit choice wins; otherwise
/// the URL's host decides.
pub open spec fn provider_of(u: Seq<char>, ty: Option<Provider>) -> Option<Provider> {
    match ty {
        Some(t) => Some(t),
        None => inferred_provider(u),
    }
}

/// Parse a tree URL into a `TemplateRef`.
///
/// With no explicit provider and an unknown host, the result is
/// `UnsupportedProvider`. Otherwise the URL is matched whole against the
/// governing provider's shape: a match yields exactly its parts, anything
/// else is `MalformedUrl`.
pub fn parse_url(url: &str, ty: Option<Provider>) -> (res: Result<TemplateRef, ScaffoldError>)
    ensures
        provider_of(url@, ty) is None ==> res == Err::<TemplateRef, ScaffoldError>(
            ScaffoldError::UnsupportedProvider,
        ),
        provider_of(url@, ty) == Some(Provider::GitHub) ==> parse_result_matches(
            url@,
            "tree/"@,
            res,
        ),
        provider_of(url@, ty) == Some(Provider::GitLab) ==> parse_result_matches(
            url@,
            "-/tree/"@,
            res,
        ),
{
    let prov = match ty {
        Some(t) => t,
        None => {
            if match_at(url, 0, "https://github.com/") {
                Provider::GitHub
            } else if match_at(url, 0, "https://gitlab.com/") {
                Provider::GitLab
            } else {
                return Err(ScaffoldError::UnsupportedProvider);
            }
        },
    };
    match prov {
        Provider::GitHub => parse_with_marker(url, "tree/"),
        Provider::GitLab => parse_with_marker(url, "-/tree/"),
    }
}

} // verus!
