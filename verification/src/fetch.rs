//! The archive-download fetch strategy, as a verified state machine.
//!
//! The strategy probes the "heads" archive of the ref, falls back to the
//! "tags" archive on a 404, keys the download by the answer's ETag (or by
//! the clock when none is served, making caching best-effort only), skips
//! the download when an archive with that key is already cached, and
//! unpacks the archive, insisting on exactly one top-level entry. The
//! caller performs each request, probe, download and unpack, and feeds the
//! outcome back through `fetch_step`; every decision in between is proved
//! here. Any status other than 200 or 404 is fatal, and a 404 from both
//! probes is `RefNotFound`.
use vstd::prelude::*;

use crate::cachekey::{hash, hex_rep, hex_str, stable_hash};
use crate::error::ScaffoldError;
use crate::parse::TemplateRef;
use crate::text::{find_char, first_at, str_eq};

verus! {

/// Which archive family a ref is being fetched from.
#[derive(Clone, Copy, Debug, PartialEq, Eq, Structural)]
pub enum ArchiveKind {
    Heads,
    Tags,
}

/// Where the fetch stands; each state names the one outside action the
/// caller must perform next (`Ready` ends the session).
#[derive(Debug)]
pub enum FetchState {
    /// Probe the "heads" archive URL for the ref.
    QueryHeads,
    /// The heads probe answered 404: probe the "tags" archive URL.
    QueryTags,
    /// A probe answered 200: look for a cached archive named by `key`.
    CheckCache { kind: ArchiveKind, key: String },
    /// No cached archive: download the `kind` archive to the `key`-named file.
    Download { kind: ArchiveKind, key: String },
    /// An archive is on disk: unpack it and list the entries.
    Extract { key: String },
    /// The unpacked tree's single top-level entry is `root`.
    Ready { root: String, key: String },
}

/// What the caller observed while performing the action a state asked for.
#[derive(Debug)]
pub enum FetchEvent {
    /// A probe's answer: its status code, its ETag if it served one, and
    /// the clock reading to fall back on.
    Response { code: u16, etag: Option<String>, now: u64 },
    /// Whether a cached archive with the requested key exists.
    CacheProbe { present: bool },
    /// The download completed.
    Downloaded,
    /// The archive was unpacked; these are its entry paths.
    Unpacked { entries: Vec<String> },
}

/// The view of an optional ETag.
pub open spec fn etag_view(etag: Option<String>) -> Option<Seq<char>> {
    match etag {
        Some(e) => Some(e@),
        None => None,
    }
}

/// The cache key a probe answer determines: the ETag itself when one was
/// served, else the clock reading in hex — a non-stable fallback, so
/// caching is then best-effort only.
pub open spec fn cache_key_spec(etag: Option<Seq<char>>, now: u64) -> Seq<char> {
    match etag {
        Some(e) => e,
        None => hex_rep(now),
    }
}

/// Compute the cache key for a probe answer.
pub fn cache_key(etag: Option<String>, now: u64) -> (r: String)
    ensures
        r@ == cache_key_spec(etag_view(etag), now),
{
    match etag {
        Some(e) => e,
        None => hex_str(now),
    }
}

/// The archive file name for a cache key: a fixed prefix plus the hex of
/// the key's stable hash, so any key yields a usable file name.
pub open spec fn zip_name_spec(key: Seq<char>) -> Seq<char> {
    "create-x-"@ + hex_rep(stable_hash(key)) + ".zip"@
}

/// Compute the archive file name for a cache key.
pub fn zip_file_name(key: &str) -> (r: String)
    ensures
        r@ == zip_name_spec(key@),
{
    let digits = hex_str(hash(key));
    let mut s = String::from_str("create-x-");
    s.append(digits.as_str());
    s.append(".zip");
    s
}

/// The URL of the `kind` archive of `t`'s ref.
pub open spec fn archive_url_spec(
    d: Seq<char>,
    o: Seq<char>,
    r: Seq<char>,
    b: Seq<char>,
    kind: ArchiveKind,
) -> Seq<char> {
    "https://"@ + d + "/"@ + o + "/"@ + r + "/archive/refs/"@ + (if kind is Heads {
        "heads/"@
    } else {
        "tags/"@
    }) + b + ".zip"@
}

/// Build the archive URL the `QueryHeads`, `QueryTags` and `Download`
/// states refer to.
pub fn archive_url(t: &TemplateRef, kind: ArchiveKind) -> (u: String)
    ensures
        u@ == archive_url_spec(t.domain@, t.owner@, t.repo@, t.refs@, kind),
{
    let mut s = String::from_str("https://");
    s.append(t.domain.as_str());
    s.append("/");
    s.append(t.owner.as_str());
    s.append("/");
    s.append(t.repo.as_str());
    s.append("/archive/refs/");
    s.append(if matches!(kind, ArchiveKind::Heads) { "heads/" } else { "tags/" });
    s.append(t.refs.as_str());
    s.append(".zip");
    s
}

/// The top-level entry an archive entry path belongs to: its characters up
/// to the first `/`, or all of them when it has none.
pub open spec fn top_of(e: Seq<char>) -> Seq<char> {
    e.subrange(0, first_at(e, 0, '/'))
}

/// Every entry lies under one and the same top-level entry, and there is
/// at least one entry.
pub open spec fn single_top(es: Seq<Seq<char>>) -> bool {
    &&& es.len() > 0
    &&& forall|i: int| 0 <= i < es.len() ==> top_of(#[trigger] es[i]) == top_of(es[0])
}

/// The single top-level entry of the unpacked archive, which becomes the
/// effective clone root — or `MultipleTopLevelEntries` when the archive
/// has zero entries or entries under more than one top.
pub fn effective_root(entries: &Vec<String>) -> (r: Result<String, ScaffoldError>)
    ensures
        match r {
            Ok(root) => single_top(entries.deep_view()) && root@ == top_of(
                entries.deep_view()[0],
            ),
            Err(e) => e == ScaffoldError::MultipleTopLevelEntries && !single_top(
                entries.deep_view(),
            ),
        },
{
    if entries.len() == 0 {
        return Err(ScaffoldError::MultipleTopLevelEntries);
    }
    let first = &entries[0];
    let end0 = match find_char(first.as_str(), 0, '/') {
        Some(i) => i,
        None => first.as_str().unicode_len(),
    };
    let root = first.as_str().substring_char(0, end0).to_owned();
    assert(root@ == top_of(entries.deep_view()[0]));
    let n = entries.len();
    let mut i: usize = 1;
    while i < n
        invariant
            1 <= i <= n,
            n == entries.deep_view().len(),
            root@ == top_of(entries.deep_view()[0]),
            forall|j: int| 0 <= j < i ==> top_of(#[trigger] entries.deep_view()[j]) == top_of(
                entries.deep_view()[0],
            ),
        decreases n - i,
    {
        let e = &entries[i];
        let end = match find_char(e.as_str(), 0, '/') {
            Some(k) => k,
            None => e.as_str().unicode_len(),
        };
        let top = e.as_str().substring_char(0, end);
        if !str_eq(top, root.as_str()) {
            assert(top_of(entries.deep_view()[i as int]) != top_of(entries.deep_view()[0]));
            return Err(ScaffoldError::MultipleTopLevelEntries);
        }
        i += 1;
    }
    Ok(root)
}

/// The one event shape each state's action can produce.
pub open spec fn event_fits(s: FetchState, e: FetchEvent) -> bool {
    match s {
        FetchState::QueryHeads => e is Response,
        FetchState::QueryTags => e is Response,
        FetchState::CheckCache { .. } => e is CacheProbe,
        FetchState::Download { .. } => e is Downloaded,
        FetchState::Extract { .. } => e is Unpacked,
        FetchState::Ready { .. } => false,
    }
}

/// The whole transition relation of the fetch session: for each state and
/// event, exactly which state or error comes out.
pub open spec fn step_rel(
    s: FetchState,
    e: FetchEvent,
    r: Result<FetchState, ScaffoldError>,
) -> bool {
    match (s, e) {
        (FetchState::QueryHeads, FetchEvent::Response { code, etag, now }) => {
            if code == 200 {
                r matches Ok(FetchState::CheckCache { kind: ArchiveKind::Heads, key })
                    && key@ == cache_key_spec(etag_view(etag), now)
            } else if code == 404 {
                r == Ok::<FetchState, ScaffoldError>(FetchState::QueryTags)
            } else {
                r == Err::<FetchState, ScaffoldError>(ScaffoldError::UnexpectedStatus { code })
            }
        },
        (FetchState::QueryTags, FetchEvent::Response { code, etag, now }) => {
            if code == 200 {
                r matches Ok(FetchState::CheckCache { kind: ArchiveKind::Tags, key })
                    && key@ == cache_key_spec(etag_view(etag), now)
            } else if code == 404 {
                r == Err::<FetchState, ScaffoldError>(ScaffoldError::RefNotFound)
            } else {
                r == Err::<FetchState, ScaffoldError>(ScaffoldError::UnexpectedStatus { code })
            }
        },
        (FetchState::CheckCache { kind, key }, FetchEvent::CacheProbe { present }) => {
            if present {
                r matches Ok(FetchState::Extract { key: k }) && k@ == key@
            } else {
                r matches Ok(FetchState::Download { kind: dk, key: k }) && dk == kind && k@
                    == key@
            }
        },
        (FetchState::Download { kind, key }, FetchEvent::Downloaded) => {
            r matches Ok(FetchState::Extract { key: k }) && k@ == key@
        },
        (FetchState::Extract { key }, FetchEvent::Unpacked { entries }) => {
            if single_top(entries.deep_view()) {
                r matches Ok(FetchState::Ready { root, key: k }) && root@ == top_of(
                    entries.deep_view()[0],
                ) && k@ == key@
            } else {
                r == Err::<FetchState, ScaffoldError>(ScaffoldError::MultipleTopLevelEntries)
            }
        },
        _ => true,
    }
}

/// Advance the fetch session by one observed event.
pub fn fetch_step(s: FetchState, e: FetchEvent) -> (r: Result<FetchState, ScaffoldError>)
    requires
        event_fits(s, e),
    ensures
        step_rel(s, e, r),
{
    match (s, e) {
        (FetchState::QueryHeads, FetchEvent::Response { code, etag, now }) => {
            if code == 200 {
                Ok(
                    FetchState::CheckCache {
                        kind: ArchiveKind::Heads,
                        key: cache_key(etag, now),
                    },
                )
            } else if code == 404 {
                Ok(FetchState::QueryTags)
            } else {
                Err(ScaffoldError::UnexpectedStatus { code })
            }
        },
        (FetchState::QueryTags, FetchEvent::Response { code, etag, now }) => {
            if code == 200 {
                Ok(
                    FetchState::CheckCache { kind: ArchiveKind::Tags, key: cache_key(etag, now) },
                )
            } else if code == 404 {
                Err(ScaffoldError::RefNotFound)
            } else {
                Err(ScaffoldError::UnexpectedStatus { code })
            }
        },
        (FetchState::CheckCache { kind, key }, FetchEvent::CacheProbe { present }) => {
            if present {
                Ok(FetchState::Extract { key })
            } else {
                Ok(FetchState::Download { kind, key })
            }
        },
        (FetchState::Download { kind: _, key }, FetchEvent::Downloaded) => {
            Ok(FetchState::Extract { key })
        },
        (FetchState::Extract { key }, FetchEvent::Unpacked { entries }) => {
            match effective_root(&entries) {
                Ok(root) => Ok(FetchState::Ready { root, key }),
                Err(err) => Err(err),
            }
        },
        _ => {
            proof {
                assert(false);
            }
            unreached()
        },
    }
}

/// Law: a ref with neither a branch nor a tag archive fails with
/// `RefNotFound` — a 404 from the heads probe moves to the tags probe, and
/// a 404 there ends the session with the error.
pub proof fn lemma_missing_ref_not_found(
    e1: FetchEvent,
    r1: Result<FetchState, ScaffoldError>,
    e2: FetchEvent,
    r2: Result<FetchState, ScaffoldError>,
)
    requires
        (e1 matches FetchEvent::Response { code, .. } && code == 404),
        step_rel(FetchState::QueryHeads, e1, r1),
        (e2 matches FetchEvent::Response { code, .. } && code == 404),
        step_rel(FetchState::QueryTags, e2, r2),
    ensures
        r1 == Ok::<FetchState, ScaffoldError>(FetchState::QueryTags),
        r2 == Err::<FetchState, ScaffoldError>(ScaffoldError::RefNotFound),
{
}

/// Law: a 200 answer with an ETag keys the cache by the ETag alone — two
/// sessions seeing the same ETag compute the same key whatever the clock
/// read — so the archive a first session downloaded is found by the next.
pub proof fn lemma_etag_keys_cache(
    et1: String,
    et2: String,
    now1: u64,
    now2: u64,
    r1: Result<FetchState, ScaffoldError>,
    r2: Result<FetchState, ScaffoldError>,
)
    requires
        et1@ == et2@,
        step_rel(
            FetchState::QueryHeads,
            FetchEvent::Response { code: 200, etag: Some(et1), now: now1 },
            r1,
        ),
        step_rel(
            FetchState::QueryHeads,
            FetchEvent::Response { code: 200, etag: Some(et2), now: now2 },
            r2,
        ),
    ensures
        (r1 matches Ok(FetchState::CheckCache { kind: ArchiveKind::Heads, key }) && key@
            == et1@),
        (r2 matches Ok(FetchState::CheckCache { kind: ArchiveKind::Heads, key }) && key@
            == et1@),
{
}

/// Law: a cache hit goes straight to extraction — the session never enters
/// the download state, so no second download of a cached archive occurs.
pub proof fn lemma_cache_hit_skips_download(
    kind: ArchiveKind,
    ckey: String,
    r: Result<FetchState, ScaffoldError>,
)
    requires
        step_rel(
            FetchState::CheckCache { kind, key: ckey },
            FetchEvent::CacheProbe { present: true },
            r,
        ),
    ensures
        (r matches Ok(FetchState::Extract { key }) && key@ == ckey@),
        !(r matches Ok(FetchState::Download { .. })),
{
}

/// Law: an unpacked archive with zero top-level entries, or with entries
/// under more than one top, is rejected with `MultipleTopLevelEntries`
/// rather than one top being picked silently.
pub proof fn lemma_multiple_tops_rejected(
    ekey: String,
    entries: Vec<String>,
    r: Result<FetchState, ScaffoldError>,
)
    requires
        step_rel(FetchState::Extract { key: ekey }, FetchEvent::Unpacked { entries }, r),
        !single_top(entries.deep_view()),
    ensures
        r == Err::<FetchState, ScaffoldError>(ScaffoldError::MultipleTopLevelEntries),
{
}

} // verus!
