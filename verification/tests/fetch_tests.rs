use create_x::error::ScaffoldError;
use create_x::fetch::{
    archive_url, cache_key, effective_root, fetch_step, zip_file_name, ArchiveKind, FetchEvent,
    FetchState,
};
use create_x::cachekey::{hash, hex_str};
use create_x::parse::parse_url;

fn response(code: u16, etag: Option<&str>, now: u64) -> FetchEvent {
    FetchEvent::Response {
        code,
        etag: etag.map(|e| e.to_string()),
        now,
    }
}

#[test]
fn both_probes_missing_is_ref_not_found() {
    let s = fetch_step(FetchState::QueryHeads, response(404, None, 5)).unwrap();
    assert!(matches!(s, FetchState::QueryTags));
    let r = fetch_step(s, response(404, None, 6));
    assert_eq!(r.unwrap_err(), ScaffoldError::RefNotFound);
}

#[test]
fn unexpected_status_is_fatal() {
    let r = fetch_step(FetchState::QueryHeads, response(500, None, 1));
    assert_eq!(
        r.unwrap_err(),
        ScaffoldError::UnexpectedStatus { code: 500 }
    );
    let s = fetch_step(FetchState::QueryHeads, response(404, None, 1)).unwrap();
    let r = fetch_step(s, response(302, None, 2));
    assert_eq!(
        r.unwrap_err(),
        ScaffoldError::UnexpectedStatus { code: 302 }
    );
}

#[test]
fn tags_probe_can_answer() {
    let s = fetch_step(FetchState::QueryHeads, response(404, None, 1)).unwrap();
    let s = fetch_step(s, response(200, Some("v1"), 2)).unwrap();
    match s {
        FetchState::CheckCache { kind, key } => {
            assert!(matches!(kind, ArchiveKind::Tags));
            assert_eq!(key, "v1");
        }
        other => panic!("expected CheckCache, got {:?}", other),
    }
}

#[test]
fn same_etag_downloads_only_once() {
    // A tiny driver over two sessions: the cache holds the zip names
    // already on disk, and we count the download states entered.
    let mut cache: Vec<String> = Vec::new();
    let mut downloads = 0;

    for now in [111u64, 222u64] {
        let mut s = FetchState::QueryHeads;
        s = fetch_step(s, response(200, Some("abc"), now)).unwrap();
        let key = match &s {
            FetchState::CheckCache { key, .. } => key.clone(),
            other => panic!("expected CheckCache, got {:?}", other),
        };
        assert_eq!(key, "abc");
        let zip = zip_file_name(&key);
        let present = cache.contains(&zip);
        s = fetch_step(s, FetchEvent::CacheProbe { present }).unwrap();
        if let FetchState::Download { .. } = s {
            downloads += 1;
            cache.push(zip);
            s = fetch_step(s, FetchEvent::Downloaded).unwrap();
        }
        match s {
            FetchState::Extract { key } => assert_eq!(key, "abc"),
            other => panic!("expected Extract, got {:?}", other),
        }
    }
    assert_eq!(downloads, 1);
}

#[test]
fn cache_key_prefers_etag() {
    assert_eq!(cache_key(Some("abc".to_string()), 999), "abc");
    assert_eq!(cache_key(None, 0), "0000000000000000");
    assert_eq!(cache_key(None, 0x1b), "000000000000001b");
}

#[test]
fn zip_name_is_stable_for_a_key() {
    let expected = format!("create-x-{}.zip", hex_str(hash("abc")));
    assert_eq!(zip_file_name("abc"), expected);
    assert_eq!(zip_file_name("abc"), zip_file_name("abc"));
}

#[test]
fn archive_urls_name_heads_and_tags() {
    let t = parse_url(
        "https://github.com/acme/templates/tree/main/node-service",
        None,
    )
    .unwrap();
    assert_eq!(
        archive_url(&t, ArchiveKind::Heads),
        "https://github.com/acme/templates/archive/refs/heads/main.zip"
    );
    assert_eq!(
        archive_url(&t, ArchiveKind::Tags),
        "https://github.com/acme/templates/archive/refs/tags/main.zip"
    );
}

#[test]
fn single_top_entry_is_accepted() {
    let entries = vec![
        "templates-main/".to_string(),
        "templates-main/node-service/app.js".to_string(),
        "templates-main/README.md".to_string(),
    ];
    assert_eq!(effective_root(&entries).unwrap(), "templates-main");
}

#[test]
fn zero_entries_are_rejected() {
    let entries: Vec<String> = Vec::new();
    assert_eq!(
        effective_root(&entries).unwrap_err(),
        ScaffoldError::MultipleTopLevelEntries
    );
}

#[test]
fn two_top_entries_are_rejected() {
    let entries = vec!["a/x".to_string(), "b/y".to_string()];
    assert_eq!(
        effective_root(&entries).unwrap_err(),
        ScaffoldError::MultipleTopLevelEntries
    );
}

#[test]
fn extraction_step_checks_tops() {
    let s = FetchState::Extract {
        key: "abc".to_string(),
    };
    let entries = vec!["root/".to_string(), "root/file".to_string()];
    let s = fetch_step(s, FetchEvent::Unpacked { entries }).unwrap();
    match s {
        FetchState::Ready { root, key } => {
            assert_eq!(root, "root");
            assert_eq!(key, "abc");
        }
        other => panic!("expected Ready, got {:?}", other),
    }

    let s = FetchState::Extract {
        key: "abc".to_string(),
    };
    let entries = vec!["root/".to_string(), "other/file".to_string()];
    let r = fetch_step(s, FetchEvent::Unpacked { entries });
    assert_eq!(r.unwrap_err(), ScaffoldError::MultipleTopLevelEntries);
}
