use model_select::telemetry::{
    clear_session, normalize_session_id, record_turn_at, snapshot, TelemetryStore,
};
use model_select::version::{decorate_version, version_with_commit, BASE_VERSION};

#[test]
fn decorate_version_appends_both_revisions() {
    assert_eq!(decorate_version("1.2.3"), "1.2.3+unknown+litunknown");
}

#[test]
fn version_with_commit_decorates_the_base_version() {
    assert_eq!(version_with_commit(), decorate_version(BASE_VERSION));
}

#[test]
fn normalize_session_id_trims() {
    assert_eq!(normalize_session_id(Some("  abc ")), "abc");
    assert_eq!(normalize_session_id(Some("abc")), "abc");
}

#[test]
fn normalize_session_id_defaults_when_blank_or_missing() {
    assert_eq!(normalize_session_id(None), "_default");
    assert_eq!(normalize_session_id(Some("")), "_default");
    assert_eq!(normalize_session_id(Some("   ")), "_default");
}

#[test]
fn record_turn_accumulates_per_session_and_model() {
    let mut store = TelemetryStore::new();
    record_turn_at(&mut store, Some("s1"), "gpt-5", Some("high"), 10, 20, 5, 35, 1000);
    record_turn_at(&mut store, Some("s1"), "gpt-5", Some("low"), 1, 2, 3, 6, 2000);
    record_turn_at(&mut store, Some("s1"), "gpt-5-codex", None, 7, 8, 0, 15, 3000);
    record_turn_at(&mut store, Some("s2"), "gpt-5", None, 100, 0, 0, 100, 4000);

    assert_eq!(store.sessions.len(), 2);
    let (key, entry) = &store.sessions[0];
    assert_eq!(key, "s1");
    assert_eq!(entry.total_turns, 3);
    assert_eq!(entry.total_tokens, 56);
    assert_eq!(entry.total_prompt_tokens, 18);
    assert_eq!(entry.total_completion_tokens, 30);
    assert_eq!(entry.total_reasoning_tokens, 8);
    assert_eq!(entry.last_model.as_deref(), Some("gpt-5-codex"));
    assert_eq!(entry.last_reasoning_effort, None);
    assert_eq!(entry.last_updated_millis, Some(3000));

    assert_eq!(entry.models.len(), 2);
    let (model_key, usage) = &entry.models[0];
    assert_eq!(model_key, "gpt-5");
    assert_eq!(usage.turns, 2);
    assert_eq!(usage.total_tokens, 41);
    assert_eq!(usage.last_reasoning_effort.as_deref(), Some("low"));
    assert_eq!(usage.last_updated_millis, 2000);

    let (_, s2) = &store.sessions[1];
    assert_eq!(s2.total_turns, 1);
    assert_eq!(s2.total_tokens, 100);
}

#[test]
fn record_turn_saturates_instead_of_overflowing() {
    let mut store = TelemetryStore::new();
    record_turn_at(&mut store, None, "gpt-5", None, i64::MAX, 1, 0, i64::MAX, 10);
    record_turn_at(&mut store, None, "gpt-5", None, 1, -1, -5, 2, 20);
    let (key, entry) = &store.sessions[0];
    assert_eq!(key, "_default");
    assert_eq!(entry.total_tokens, i64::MAX);
    assert_eq!(entry.total_prompt_tokens, i64::MAX);
    assert_eq!(entry.total_completion_tokens, 0);
    assert_eq!(entry.total_reasoning_tokens, -5);
}

#[test]
fn snapshot_orders_models_by_token_use() {
    let mut store = TelemetryStore::new();
    record_turn_at(&mut store, Some("s1"), "light", Some("low"), 1, 1, 0, 2, 10);
    record_turn_at(&mut store, Some("s1"), "heavy", Some("high"), 50, 50, 0, 100, 20);
    record_turn_at(&mut store, Some("s1"), "middle", None, 5, 5, 0, 10, 30);

    let snap = snapshot(&store, Some("s1")).expect("the session was recorded");
    assert_eq!(snap.total_turns, 3);
    assert_eq!(snap.total_tokens, 112);
    assert_eq!(snap.last_model.as_deref(), Some("middle"));
    let names: Vec<&str> = snap.models.iter().map(|m| m.model.as_str()).collect();
    assert_eq!(names, vec!["heavy", "middle", "light"]);
    assert_eq!(snap.models[0].total_tokens, 100);
    assert_eq!(snap.models[0].last_reasoning_effort.as_deref(), Some("high"));

    assert!(snapshot(&store, Some("s2")).is_none());
}

#[test]
fn snapshot_keeps_storage_order_between_equal_counts() {
    let mut store = TelemetryStore::new();
    record_turn_at(&mut store, None, "first", None, 1, 1, 0, 10, 1);
    record_turn_at(&mut store, None, "big", None, 0, 0, 0, 50, 2);
    record_turn_at(&mut store, None, "second", None, 2, 8, 0, 10, 3);
    let snap = snapshot(&store, None).expect("the session was recorded");
    let names: Vec<&str> = snap.models.iter().map(|m| m.model.as_str()).collect();
    assert_eq!(names, vec!["big", "first", "second"]);
    // A second snapshot of the unchanged store reads the same.
    let again = snapshot(&store, None).expect("the session was recorded");
    let names_again: Vec<&str> = again.models.iter().map(|m| m.model.as_str()).collect();
    assert_eq!(names, names_again);
}

#[test]
fn clear_session_removes_only_that_session() {
    let mut store = TelemetryStore::new();
    record_turn_at(&mut store, Some("s1"), "gpt-5", None, 1, 1, 1, 3, 10);
    record_turn_at(&mut store, Some("s2"), "gpt-5", None, 1, 1, 1, 3, 20);
    // The key is normalized before the lookup, like everywhere else.
    clear_session(&mut store, Some("  s1 "));
    assert_eq!(store.sessions.len(), 1);
    assert_eq!(store.sessions[0].0, "s2");
    assert!(snapshot(&store, Some("s1")).is_none());
    assert!(snapshot(&store, Some("s2")).is_some());
    // Clearing an unknown session changes nothing.
    clear_session(&mut store, Some("s3"));
    assert_eq!(store.sessions.len(), 1);
}
