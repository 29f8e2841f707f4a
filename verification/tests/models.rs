use manifest_core::models::feature::{Feature, FeatureState, FeatureSummary};
use manifest_core::models::ids::{FeatureId, ProjectId};
use manifest_core::models::memory::default_created_by;
use manifest_core::models::remote::SyncState;
use manifest_core::models::test_proof::TestState;
use manifest_core::models::user::MembershipRole;
use manifest_core::time::Timestamp;
use manifest_core::turso::{reported_url, schema_statements, TursoConfig, SHARED_SCHEMA};

#[test]
fn feature_state_text_round_trips() {
    for s in [FeatureState::Proposed, FeatureState::Blocked, FeatureState::InProgress, FeatureState::Implemented, FeatureState::Archived] {
        assert_eq!(FeatureState::from_str(s.as_str()).unwrap(), s);
    }
    assert_eq!(FeatureState::InProgress.as_str(), "in_progress");
    assert_eq!(FeatureState::from_str("done").unwrap_err().0, "done");
}

#[test]
fn other_enums_text() {
    assert_eq!(SyncState::Paused.as_str(), "paused");
    assert_eq!(SyncState::from_str("orphaned"), Some(SyncState::Orphaned));
    assert_eq!(SyncState::from_str("x"), None);
    assert_eq!(TestState::Errored.as_str(), "errored");
    assert_eq!(MembershipRole::Admin.as_str(), "admin");
    assert!(MembershipRole::Viewer < MembershipRole::Owner);
    assert_eq!(default_created_by(), "agent");
}

#[test]
fn ids_print_and_parse() {
    let id = FeatureId::parse_str("550e8400-e29b-41d4-a716-446655440000").unwrap();
    assert_eq!(id.to_string(), "550e8400-e29b-41d4-a716-446655440000");
    assert_eq!(FeatureId::parse_str(&id.to_string()), Some(id));
    assert!(FeatureId::parse_str("nope").is_none());
    assert_ne!(ProjectId::new(), ProjectId::new());
}

#[test]
fn summary_keeps_feature_fields() {
    let f = Feature {
        id: FeatureId::from_u128(1),
        project_id: ProjectId::from_u128(2),
        parent_id: None,
        title: "T".into(),
        details: None,
        desired_details: None,
        details_summary: None,
        state: FeatureState::Archived,
        priority: 9,
        feature_number: Some(4),
        target_version_id: None,
        verification_result: None,
        verified_at: None,
        claimed_by: None,
        claimed_at: None,
        claim_metadata: None,
        created_at: Timestamp { secs: 0, nanos: 0 },
        updated_at: Timestamp { secs: 0, nanos: 0 },
    };
    let s = FeatureSummary::from_feature(f);
    assert_eq!(s.title, "T");
    assert_eq!(s.priority, 9);
    assert_eq!(s.feature_number, Some(4));
    assert_eq!(s.state, FeatureState::Archived);
}

#[test]
fn turso_config_and_schema() {
    let c = TursoConfig::from_remote("/data/replicas", "work", "libsql://x.turso.io", "tok");
    assert_eq!(c.replica_path, "/data/replicas/work.db");
    assert_eq!(c.sync_interval_secs, 5);
    assert!(c.read_your_writes);
    assert!(!c.is_local_only());
    assert_eq!(TursoConfig::from_remote("dir/", "a", "", "").replica_path, "dir/a.db");
    assert!(TursoConfig::from_remote("", "a", "", "").is_local_only());
    assert_eq!(reported_url(""), None);
    assert_eq!(reported_url("u").as_deref(), Some("u"));
    let stmts = schema_statements(SHARED_SCHEMA);
    assert_eq!(stmts.len(), 5);
    assert!(stmts[0].starts_with("CREATE TABLE IF NOT EXISTS projects"));
    assert_eq!(schema_statements(" ; a ;; b"), vec!["a".to_string(), "b".to_string()]);
}

#[test]
fn id_text_round_trips() {
    let id = ProjectId::from_u128(0x6f1c2a3b_4d5e_4f60_8a7b_9c0d1e2f3a4b);
    assert_eq!(id.to_string(), "6f1c2a3b-4d5e-4f60-8a7b-9c0d1e2f3a4b");
    assert_eq!(ProjectId::parse_str("6f1c2a3b-4d5e-4f60-8a7b-9c0d1e2f3a4b"), Some(id));
    assert_eq!(FeatureId::parse_str("not-a-uuid"), None);
    let fresh = FeatureId::new();
    assert_ne!(fresh, FeatureId::new());
    assert_eq!(FeatureId::parse_str(&fresh.to_string()), Some(fresh));
}

#[test]
fn fresh_ids_are_version_four() {
    let p = ProjectId::new().inner();
    assert_eq!((p >> 76) & 0xf, 4);
    assert_eq!((p >> 62) & 0x3, 2);
    let f = FeatureId::new().inner();
    assert_eq!((f >> 76) & 0xf, 4);
    assert_eq!((f >> 62) & 0x3, 2);
    let text = ProjectId::new().to_string();
    assert_eq!(text.chars().nth(14), Some('4'));
}
