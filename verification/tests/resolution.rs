use profile_og::record::{is_fresh, ProfileRecord, FRESHNESS_WINDOW_SECS};
use profile_og::resolve::{decide, require_credential, resolve_after_fetch, Decision};
use profile_og::errors::ServiceError;
use profile_og::store::ProfileStore;

fn sample_record(id: &str, username: &str, captured_at: i64) -> ProfileRecord {
    ProfileRecord {
        id: id.to_string(),
        display_name: Some(format!("{username} display")),
        username: username.to_string(),
        accent_color: None,
        avatar_ref: "av".to_string(),
        bio: "a bio".to_string(),
        captured_at,
    }
}

#[test]
fn fresh_record_resolves_from_store() {
    let mut store = ProfileStore::new();
    store.put(sample_record("7", "alice", 0), 1000);
    match decide(&store, "7", 1000) {
        Decision::Cached(rec) => {
            assert_eq!(rec.id, "7");
            assert_eq!(rec.username, "alice");
            assert_eq!(rec.captured_at, 1000);
        }
        _ => panic!("expected the stored record"),
    }
}

#[test]
fn missing_record_requires_fetch() {
    let store = ProfileStore::new();
    assert!(matches!(decide(&store, "7", 1000), Decision::NeedsFetch));
}

#[test]
fn stale_record_requires_fetch() {
    let mut store = ProfileStore::new();
    store.put(sample_record("7", "alice", 0), 1000);
    let later = 1000 + FRESHNESS_WINDOW_SECS;
    assert!(matches!(decide(&store, "7", later), Decision::NeedsFetch));
    assert!(store.get_if_fresh("7", later).is_none());
    // the stale record stays queryable, it is just never treated as fresh
    assert!(store.get_record("7").is_some());
}

#[test]
fn staleness_boundary() {
    let now = 1_000_000;
    assert!(!is_fresh(now - FRESHNESS_WINDOW_SECS - 1, now));
    assert!(!is_fresh(now - FRESHNESS_WINDOW_SECS, now));
    assert!(is_fresh(now - FRESHNESS_WINDOW_SECS + 1, now));
}

#[test]
fn favicon_short_circuits() {
    let store = ProfileStore::new();
    assert!(matches!(decide(&store, "favicon.ico", 5), Decision::Invalid));
    assert_eq!(store.len(), 0);
}

#[test]
fn favicon_invalid_even_when_stored() {
    let mut store = ProfileStore::new();
    store.put(sample_record("favicon.ico", "x", 0), 100);
    assert!(matches!(decide(&store, "favicon.ico", 100), Decision::Invalid));
}

#[test]
fn fetch_then_store_roundtrip() {
    let mut store = ProfileStore::new();
    let r = resolve_after_fetch(
        &mut store,
        "42",
        "{\"user\":{\"bio\":\"hi\"}}",
        "{\"username\":\"alice\"}",
        500,
    );
    let rec = r.expect("both payloads are well-formed");
    assert_eq!(rec.id, "42");
    assert_eq!(rec.username, "alice");
    assert_eq!(rec.bio, "hi");
    assert!(rec.display_name.is_none());
    assert!(rec.accent_color.is_none());
    assert_eq!(rec.avatar_ref, "");
    assert_eq!(rec.captured_at, 500);
    assert_eq!(store.len(), 1);
    let stored = store.get_if_fresh("42", 500).expect("just stored, so fresh");
    assert_eq!(stored.username, "alice");
    assert_eq!(stored.bio, "hi");
    assert_eq!(stored.captured_at, 500);
}

#[test]
fn resolve_idempotent() {
    let mut store = ProfileStore::new();
    let first = resolve_after_fetch(
        &mut store,
        "42",
        "{\"user\":{\"bio\":\"hi\"}}",
        "{\"username\":\"alice\"}",
        500,
    )
    .expect("well-formed payloads");
    let second = match decide(&store, "42", 500) {
        Decision::Cached(rec) => rec,
        _ => panic!("the second resolution must come from the store"),
    };
    assert_eq!(first.id, second.id);
    assert_eq!(first.username, second.username);
    assert_eq!(first.bio, second.bio);
    assert_eq!(first.captured_at, second.captured_at);
    let third = match decide(&store, "42", 500) {
        Decision::Cached(rec) => rec,
        _ => panic!("still cached"),
    };
    assert_eq!(second.username, third.username);
}

#[test]
fn upsert_replaces_whole_record() {
    let mut store = ProfileStore::new();
    store.put(sample_record("7", "alice", 0), 100);
    store.put(sample_record("7", "bob", 0), 200);
    assert_eq!(store.len(), 1);
    let rec = store.get_record("7").expect("still one row under the key");
    assert_eq!(rec.username, "bob");
    assert_eq!(rec.captured_at, 200);
}

#[test]
fn upsert_keeps_other_keys() {
    let mut store = ProfileStore::new();
    store.put(sample_record("7", "alice", 0), 100);
    store.put(sample_record("8", "bob", 0), 150);
    assert_eq!(store.len(), 2);
    assert_eq!(store.get_record("7").unwrap().username, "alice");
    assert_eq!(store.get_record("8").unwrap().username, "bob");
}

#[test]
fn upstream_urls_are_deterministic() {
    assert_eq!(
        profile_og::upstream::detail_url("42"),
        "https://discord.com/api/v10/users/42/profile"
    );
    assert_eq!(
        profile_og::upstream::summary_url("42"),
        "https://discord.com/api/v10/users/42"
    );
}

#[test]
fn credential_required_at_startup() {
    assert!(matches!(
        require_credential(None),
        Err(ServiceError::MissingCredential)
    ));
    let ok = require_credential(Some("SECRET-REDACTED".to_string()));
    assert_eq!(ok.unwrap(), "SECRET-REDACTED");
}

#[test]
fn unparseable_detail_fails_whole_fetch() {
    let mut store = ProfileStore::new();
    let r = resolve_after_fetch(&mut store, "42", "not json", "{\"username\":\"alice\"}", 500);
    assert!(matches!(r, Err(ServiceError::Payload(_))));
    assert_eq!(store.len(), 0);
}

#[test]
fn unparseable_summary_fails_whole_fetch() {
    let mut store = ProfileStore::new();
    let r = resolve_after_fetch(&mut store, "42", "{\"user\":{\"bio\":\"hi\"}}", "{oops", 500);
    assert!(matches!(r, Err(ServiceError::Payload(_))));
    assert_eq!(store.len(), 0);
}

#[test]
fn malformed_fields_default_instead_of_failing() {
    let mut store = ProfileStore::new();
    let rec = resolve_after_fetch(
        &mut store,
        "9",
        "{\"user\":{\"bio\":42}}",
        "{\"username\":5,\"global_name\":null,\"avatar\":\"abc\",\"banner_color\":\"#fff\"}",
        10,
    )
    .expect("well-formed JSON decodes with defaults");
    assert_eq!(rec.username, "");
    assert!(rec.display_name.is_none());
    assert_eq!(rec.avatar_ref, "abc");
    assert_eq!(rec.accent_color.as_deref(), Some("#fff"));
    assert_eq!(rec.bio, "");
}

#[test]
fn empty_payloads_default_every_field() {
    let mut store = ProfileStore::new();
    let rec = resolve_after_fetch(&mut store, "9", "{}", "{}", 10)
        .expect("empty objects are well-formed");
    assert_eq!(rec.username, "");
    assert_eq!(rec.avatar_ref, "");
    assert_eq!(rec.bio, "");
    assert!(rec.display_name.is_none());
    assert!(rec.accent_color.is_none());
}
