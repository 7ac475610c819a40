use lychee_core::cache::Cache;
use lychee_core::cache::SnapshotError;
use lychee_core::error::ErrorKind;
use lychee_core::error::IoCategory;
use lychee_core::status::Status;
use lychee_core::Identifier;

fn id(s: &str) -> Identifier {
    Identifier::new(s.to_string())
}

#[test]
fn lookup_misses_on_fresh_cache() {
    let cache = Cache::new();
    assert!(cache.lookup(&id("https://example.org")).is_none());
}

#[test]
fn record_then_lookup_returns_the_verdict() {
    let mut cache = Cache::new();
    let i = id("https://example.org");
    cache.record(&i, Status::Success(200));
    assert_eq!(cache.lookup(&i), Some(Status::Success(200)));
    let j = id("mailto:someone@example.org");
    cache.record(&j, Status::Excluded);
    assert_eq!(cache.lookup(&i), Some(Status::Success(200)));
    assert_eq!(cache.lookup(&j), Some(Status::Excluded));
}

#[test]
fn record_returns_the_previous_verdict() {
    let mut cache = Cache::new();
    let i = id("https://example.org");
    assert_eq!(cache.record(&i, Status::Excluded), None);
    assert_eq!(cache.record(&i, Status::Success(200)), Some(Status::Excluded));
    assert_eq!(cache.lookup(&i), Some(Status::Success(200)));
}

fn heterogeneous_cache() -> (Cache, Vec<(Identifier, Status)>) {
    let entries = vec![
        (id("https://ok.example.org"), Status::Success(200)),
        (id("https://moved.example.org"), Status::Redirected(301)),
        (id("https://slow.example.org"), Status::Timeout(None)),
        (
            id("file:///missing/data.txt"),
            Status::Error(ErrorKind::Io {
                path: Some("/missing/data.txt".to_string()),
                category: IoCategory::NotFound,
                message: "no such file or directory".to_string(),
            }),
        ),
        (
            id("slack://channel"),
            Status::Unsupported(ErrorKind::Client {
                err: "builder error: unsupported scheme".to_string(),
                status: None,
            }),
        ),
    ];
    let mut cache = Cache::new();
    for (i, st) in &entries {
        cache.record(i, st.clone());
    }
    (cache, entries)
}

#[test]
fn snapshot_round_trip_keeps_every_entry() {
    let (cache, entries) = heterogeneous_cache();
    let snapshot = cache.persist();
    let restored = Cache::restore(snapshot.as_str()).unwrap();
    for (i, st) in &entries {
        assert_eq!(restored.lookup(i), Some(st.clone()));
    }
}

#[test]
fn persisting_twice_restores_to_equal_caches() {
    let (cache, entries) = heterogeneous_cache();
    let first = cache.persist();
    let second = cache.persist();
    let r1 = Cache::restore(first.as_str()).unwrap();
    let r2 = Cache::restore(second.as_str()).unwrap();
    for (i, _) in &entries {
        assert_eq!(r1.lookup(i), r2.lookup(i));
        assert!(r1.lookup(i).is_some());
    }
}

#[test]
fn restore_of_empty_text_is_an_empty_cache() {
    let restored = Cache::restore("").unwrap();
    assert!(restored.lookup(&id("https://example.org")).is_none());
}

#[test]
fn restore_of_malformed_text_fails_loudly() {
    assert_eq!(Cache::restore("not a snapshot").err(), Some(SnapshotError::Malformed));
    let (cache, _) = heterogeneous_cache();
    let mut snapshot = cache.persist();
    snapshot.push('x');
    assert_eq!(Cache::restore(snapshot.as_str()).err(), Some(SnapshotError::Malformed));
}

#[test]
fn round_trip_keeps_odd_identifier_text() {
    let mut cache = Cache::new();
    let i = id("https://example.org/path with spaces/\u{2603}?q=a\tb\nc");
    cache.record(&i, Status::UnknownStatusCode(599));
    let restored = Cache::restore(cache.persist().as_str()).unwrap();
    assert_eq!(restored.lookup(&i), Some(Status::UnknownStatusCode(599)));
}

#[test]
fn overwrite_wins_in_the_snapshot() {
    let mut cache = Cache::new();
    let i = id("https://example.org");
    cache.record(&i, Status::Excluded);
    cache.record(&i, Status::Success(204));
    let restored = Cache::restore(cache.persist().as_str()).unwrap();
    assert_eq!(restored.lookup(&i), Some(Status::Success(204)));
}

#[test]
fn snapshot_round_trip_covers_every_tag_and_cause() {
    let causes = vec![
        ErrorKind::Io {
            path: None,
            category: IoCategory::TimedOut,
            message: "timed out".to_string(),
        },
        ErrorKind::Encoding { message: "invalid utf-8 sequence".to_string() },
        ErrorKind::Client { err: "connection refused".to_string(), status: Some(502) },
        ErrorKind::Github { message: "rate limited".to_string() },
        ErrorKind::Parse {
            input: "not a url".to_string(),
            url_error: "relative URL without a base".to_string(),
            mail_error: Some("missing at sign".to_string()),
        },
        ErrorKind::UrlFromPath { path: "/tmp/x".to_string() },
        ErrorKind::FileNotFound { path: "/tmp/y".to_string() },
        ErrorKind::FileUriNotFound { uri: "file:///tmp/z".to_string() },
        ErrorKind::Mail { uri: "mailto:nobody@example.org".to_string() },
        ErrorKind::Header { message: "bad header value".to_string() },
        ErrorKind::Base { base: "/srv".to_string(), message: "not a directory".to_string() },
        ErrorKind::DirTraversal { message: "walk failed".to_string() },
        ErrorKind::Glob { position: 4, message: "unclosed bracket".to_string() },
        ErrorKind::MissingGitHubToken,
        ErrorKind::InsecureURL { uri: "http://example.org".to_string() },
        ErrorKind::Channel { message: "receiver dropped".to_string() },
        ErrorKind::MissingHost,
        ErrorKind::InvalidURI { uri: "::::".to_string() },
    ];
    let mut entries: Vec<(Identifier, Status)> = Vec::new();
    for (n, k) in causes.into_iter().enumerate() {
        let wrapped = if n % 2 == 0 {
            Status::Error(k)
        } else {
            Status::Unsupported(k)
        };
        entries.push((id(&format!("https://example.org/cause/{}", n)), wrapped));
    }
    entries.push((id("https://a.example.org"), Status::Success(226)));
    entries.push((id("https://b.example.org"), Status::Redirected(307)));
    entries.push((id("https://c.example.org"), Status::UnknownStatusCode(187)));
    entries.push((id("https://d.example.org"), Status::Excluded));
    entries.push((id("https://e.example.org"), Status::Timeout(Some(504))));
    entries.push((id("https://f.example.org"), Status::Timeout(None)));
    let mut cache = Cache::new();
    for (i, st) in &entries {
        cache.record(i, st.clone());
    }
    let restored = Cache::restore(cache.persist().as_str()).unwrap();
    for (i, st) in &entries {
        assert_eq!(restored.lookup(i), Some(st.clone()));
    }
}

#[test]
fn many_disjoint_records_are_all_observed_once() {
    let mut cache = Cache::new();
    let tasks: usize = 8;
    let per_task: usize = 25;
    for t in 0..tasks {
        for m in 0..per_task {
            let i = id(&format!("https://example.org/{}/{}", t, m));
            let code = 200 + ((t * per_task + m) % 100) as u16;
            assert_eq!(cache.record(&i, Status::Success(code)), None);
        }
    }
    for t in 0..tasks {
        for m in 0..per_task {
            let i = id(&format!("https://example.org/{}/{}", t, m));
            let code = 200 + ((t * per_task + m) % 100) as u16;
            assert_eq!(cache.lookup(&i), Some(Status::Success(code)));
        }
    }
}
