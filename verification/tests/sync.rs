use manifest_core::sync::{MergeCoordinator, OfflineQueue, RemoteFeature, WriteOperation};

fn rf(id: &str, state: &str, state_ts: Option<&str>, updated: &str) -> RemoteFeature {
    RemoteFeature {
        id: id.to_string(),
        project_id: "p".to_string(),
        parent_id: None,
        title: format!("title {id}"),
        details: Some("d".to_string()),
        desired_details: None,
        details_summary: None,
        state: state.to_string(),
        priority: 0,
        feature_number: None,
        target_version_id: None,
        claimed_by: None,
        claimed_at: None,
        claim_metadata: None,
        verification_result: None,
        verified_at: None,
        state_updated_at: state_ts.map(|s| s.to_string()),
        details_updated_at: None,
        parent_id_updated_at: None,
        created_at: "2026-01-01T00:00:00Z".to_string(),
        updated_at: updated.to_string(),
    }
}

#[test]
fn write_operation_round_trips() {
    assert_eq!(WriteOperation::Upsert.as_str(), "upsert");
    assert_eq!(WriteOperation::Delete.as_str(), "delete");
    assert_eq!(WriteOperation::from_str("upsert"), Some(WriteOperation::Upsert));
    assert_eq!(WriteOperation::from_str("delete"), Some(WriteOperation::Delete));
    assert_eq!(WriteOperation::from_str("DELETE"), None);
}

#[test]
fn merge_takes_newer_state_and_counts_conflicts() {
    let local = vec![rf("a", "proposed", Some("2026-01-02T00:00:00Z"), "2026-01-05T00:00:00Z")];
    let mut remote_a = rf("a", "implemented", Some("2026-01-03T00:00:00Z"), "2026-01-04T00:00:00Z");
    remote_a.title = "remote title".to_string();
    let remote = vec![remote_a];
    let (merged, conflicts) = MergeCoordinator::merge_features(&local, &remote);
    assert_eq!(merged.len(), 1);
    assert_eq!(merged[0].state, "implemented");
    assert_eq!(merged[0].state_updated_at.as_deref(), Some("2026-01-03T00:00:00Z"));
    assert_eq!(merged[0].title, "title a");
    assert_eq!(conflicts, 1);
}

#[test]
fn merge_keeps_unmatched_rows() {
    let local = vec![rf("a", "proposed", None, "2026-01-01T00:00:00Z"), rf("b", "proposed", None, "2026-01-01T00:00:00Z")];
    let remote = vec![rf("c", "proposed", None, "2026-01-01T00:00:00Z"), rf("a", "archived", None, "bad")];
    let (merged, conflicts) = MergeCoordinator::merge_features(&local, &remote);
    let ids: Vec<&str> = merged.iter().map(|f| f.id.as_str()).collect();
    assert_eq!(ids, vec!["c", "a", "b"]);
    assert_eq!(merged[1].state, "archived");
    assert_eq!(merged[1].updated_at, "bad");
    assert_eq!(conflicts, 1);
}

#[test]
fn merge_of_identical_rows_changes_nothing() {
    let rows = vec![rf("a", "proposed", Some("2026-01-02T00:00:00Z"), "2026-01-05T00:00:00Z"), rf("b", "implemented", None, "2026-01-01T00:00:00Z")];
    let (merged, conflicts) = MergeCoordinator::merge_features(&rows, &rows);
    assert_eq!(conflicts, 0);
    assert_eq!(merged.len(), 2);
    assert_eq!(merged[0].id, "a");
    assert_eq!(merged[0].state, "proposed");
    assert_eq!(merged[1].state, "implemented");
}

#[test]
fn registry_tracks_connections() {
    let mut c = MergeCoordinator::new();
    assert_eq!(c.connection_count(), 0);
    c.add_connection("work");
    c.add_connection("home");
    c.add_connection("work");
    assert_eq!(c.connection_count(), 2);
    assert!(c.has_connection("work"));
    c.remove_connection("work");
    assert!(!c.has_connection("work"));
    assert!(c.has_connection("home"));
    assert_eq!(c.connection_count(), 1);
}

#[test]
fn offline_queue_enqueue_and_dequeue() {
    let mut q = OfflineQueue::new();
    let a = q.enqueue("p", "r1", "features", "f1", WriteOperation::Upsert, "{}");
    let b = q.enqueue("p", "r2", "features", "f2", WriteOperation::Delete, "{}");
    let c = q.enqueue("p", "r1", "versions", "v1", WriteOperation::Upsert, "{}");
    assert_eq!((a, b, c), (1, 2, 3));
    assert_eq!(q.pending_count(), 3);
    let r1 = q.pending_for_remote("r1");
    assert_eq!(r1.len(), 2);
    assert_eq!(r1[0].row_id, "f1");
    assert_eq!(r1[1].row_id, "v1");
    assert!(q.dequeue(b));
    assert!(!q.dequeue(b));
    assert_eq!(q.pending_count(), 2);
    assert!(q.pending_for_remote("r2").is_empty());
}
