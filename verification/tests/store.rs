use manifest_core::db::ManifestError;
use manifest_core::db::ClaimConflictInfo;
use manifest_core::models::feature::{Feature, FeatureState};
use manifest_core::models::ids::{FeatureId, ProjectId, VersionId};
use manifest_core::github::store::unsupported;
use manifest_core::store::cached::{
    feature_copy_input, feature_sync_action, merge_capabilities, online_after, sync_due, CacheLookup, FeatureSyncAction,
    WriteStrategy,
};
use manifest_core::store::error::{ConflictDetail, StoreError};
use manifest_core::store::query::{FeatureQuery, ParentFilter};
use manifest_core::store::sqlite::{
    changeset_to_input, map_manifest_error, not_found_error, route_feature_query, FeatureListRoute,
};
use manifest_core::store::types::{BackendConfig, BackendType, FeatureChangeset, StoreCapabilities};
use manifest_core::time::Timestamp;

#[test]
fn feature_query_default_is_empty() {
    let q = FeatureQuery::default();
    assert!(q.project_id.is_none());
    assert!(q.parent_id.is_none());
    assert!(q.state.is_none());
    assert!(q.target_version_id.is_none());
    assert!(q.search.is_none());
    assert!(q.limit.is_none());
    assert!(q.offset.is_none());
}

#[test]
fn feature_query_builder_chains() {
    let project_id = ProjectId::new();
    let q = FeatureQuery::for_project(project_id).with_state(FeatureState::Proposed).with_limit(10).with_offset(5);
    assert_eq!(q.project_id.unwrap(), project_id);
    assert_eq!(q.state.unwrap(), vec![FeatureState::Proposed]);
    assert_eq!(q.limit.unwrap(), 10);
    assert_eq!(q.offset.unwrap(), 5);
}

#[test]
fn feature_query_with_search() {
    let q = FeatureQuery::default().with_search("auth");
    assert_eq!(q.search.unwrap(), "auth");
}

#[test]
fn parent_filter_variants() {
    let id = FeatureId::new();
    let _exact = ParentFilter::Exact(id);
    let _root = ParentFilter::Root;
    let _any = ParentFilter::Any;
}

#[test]
fn changeset_default_is_empty() {
    let cs = FeatureChangeset::default();
    assert!(cs.is_empty());
    assert!(cs.changed_fields().is_empty());
}

#[test]
fn changeset_builder_tracks_fields() {
    let cs = FeatureChangeset::default().state(FeatureState::InProgress).details("new details");
    assert!(!cs.is_empty());
    let fields = cs.changed_fields();
    assert_eq!(fields.len(), 2);
    assert!(fields.contains(&"state"));
    assert!(fields.contains(&"details"));
}

#[test]
fn changeset_title_builder() {
    let cs = FeatureChangeset::default().title("New Title");
    assert_eq!(cs.title.as_deref(), Some("New Title"));
    assert_eq!(cs.changed_fields(), vec!["title"]);
}

#[test]
fn changeset_priority_builder() {
    let cs = FeatureChangeset::default().priority(5);
    assert_eq!(cs.priority, Some(5));
    assert_eq!(cs.changed_fields(), vec!["priority"]);
}

#[test]
fn changeset_parent_id_builder() {
    let id = FeatureId::new();
    let cs = FeatureChangeset::default().parent_id(Some(id));
    assert!(cs.parent_id.is_some());
    assert_eq!(cs.changed_fields(), vec!["parent_id"]);
}

#[test]
fn changeset_clear_version() {
    let cs = FeatureChangeset::default().target_version_id(None);
    assert!(cs.target_version_id.is_some());
    assert!(cs.target_version_id.unwrap().is_none());
    assert_eq!(cs.changed_fields(), vec!["target_version_id"]);
}

#[test]
fn changeset_set_version() {
    let vid = VersionId::new();
    let cs = FeatureChangeset::default().target_version_id(Some(vid));
    assert_eq!(cs.target_version_id.unwrap().unwrap(), vid);
}

#[test]
fn changeset_desired_details() {
    let cs = FeatureChangeset::default().desired_details(Some("proposed change".to_string()));
    assert!(cs.desired_details.is_some());
    assert_eq!(cs.desired_details.unwrap().as_deref(), Some("proposed change"));
}

#[test]
fn changeset_clear_desired_details() {
    let cs = FeatureChangeset::default().desired_details(None);
    assert!(cs.desired_details.is_some());
    assert!(cs.desired_details.unwrap().is_none());
}

#[test]
fn changeset_all_fields_tracked() {
    let cs = FeatureChangeset {
        title: Some("t".into()),
        details: Some("d".into()),
        desired_details: Some(None),
        details_summary: Some(None),
        state: Some(FeatureState::Proposed),
        priority: Some(0),
        parent_id: Some(None),
        target_version_id: Some(None),
        feature_number: Some(1),
    };
    assert_eq!(cs.changed_fields().len(), 9);
}

#[test]
fn store_capabilities_sqlite_defaults() {
    let caps = StoreCapabilities::sqlite();
    assert!(caps.offline_writes);
    assert!(!caps.realtime_sync);
    assert!(caps.fulltext_search);
    assert!(caps.transactions);
    assert!(!caps.external_ui);
    assert_eq!(caps.backend_type, BackendType::Sqlite);
    assert!(caps.max_detail_length.is_none());
}

#[test]
fn capabilities_are_github() {
    let caps = StoreCapabilities::github();
    assert_eq!(caps.backend_type, BackendType::GitHub);
    assert!(caps.external_ui);
    assert!(!caps.offline_writes);
    assert!(!caps.transactions);
}

#[test]
fn backend_type_display() {
    assert_eq!(BackendType::Sqlite.to_string(), "sqlite");
    assert_eq!(BackendType::Turso.to_string(), "turso");
    assert_eq!(BackendType::GitHub.to_string(), "github");
    assert_eq!(BackendType::Custom("redis".to_string()).to_string(), "custom:redis");
}

#[test]
fn backend_config_default_is_sqlite() {
    let config = BackendConfig::default();
    assert!(matches!(config, BackendConfig::Sqlite { path: None }));
}

#[test]
fn capabilities_merge_takes_each_side() {
    let merged = merge_capabilities(WriteStrategy::WriteLocal, StoreCapabilities::github(), StoreCapabilities::sqlite());
    assert!(merged.offline_writes);
    assert!(merged.fulltext_search);
    assert!(merged.transactions);
    assert!(merged.external_ui);
    assert_eq!(merged.backend_type, BackendType::GitHub);
    assert_eq!(merged.max_detail_length, Some(65536));
    let through = merge_capabilities(WriteStrategy::WriteThrough, StoreCapabilities::github(), StoreCapabilities::sqlite());
    assert!(!through.offline_writes);
}

#[test]
fn sync_timing_and_online_state() {
    assert!(sync_due(None, 1000));
    assert!(!sync_due(Some(999), 1000));
    assert!(sync_due(Some(1000), 1000));
    assert!(online_after::<()>(&Ok(()), false));
    assert!(!online_after::<()>(&Err(StoreError::Unavailable("down".into())), true));
    assert!(online_after::<()>(&Err(StoreError::Validation("x".into())), true));
    assert!(!online_after::<()>(&Err(StoreError::Validation("x".into())), false));
}

fn remote_feature(updated: i64) -> Feature {
    Feature {
        id: FeatureId::from_u128(3),
        project_id: ProjectId::from_u128(1),
        parent_id: Some(FeatureId::from_u128(2)),
        title: "T".into(),
        details: Some("D".into()),
        desired_details: None,
        details_summary: None,
        state: FeatureState::InProgress,
        priority: 4,
        feature_number: None,
        target_version_id: None,
        verification_result: None,
        verified_at: None,
        claimed_by: None,
        claimed_at: None,
        claim_metadata: None,
        created_at: Timestamp { secs: 0, nanos: 0 },
        updated_at: Timestamp { secs: updated, nanos: 0 },
    }
}

#[test]
fn sync_updates_only_older_cache_rows() {
    let rf = remote_feature(10);
    match feature_sync_action(&rf, CacheLookup::Found(Timestamp { secs: 9, nanos: 0 })) {
        FeatureSyncAction::Update(cs) => {
            assert_eq!(cs.title.as_deref(), Some("T"));
            assert_eq!(cs.state, Some(FeatureState::InProgress));
            assert_eq!(cs.parent_id, Some(Some(FeatureId::from_u128(2))));
        }
        _ => panic!("expected an update"),
    }
    assert!(matches!(feature_sync_action(&rf, CacheLookup::Found(Timestamp { secs: 10, nanos: 0 })), FeatureSyncAction::Keep));
    match feature_sync_action(&rf, CacheLookup::Missing) {
        FeatureSyncAction::Create { input, fallback } => {
            assert_eq!(input.id, Some(FeatureId::from_u128(3)));
            assert_eq!(input.parent_id, Some(FeatureId::from_u128(2)));
            assert_eq!(fallback.parent_id, None);
        }
        _ => panic!("expected a create"),
    }
    assert!(matches!(feature_sync_action(&rf, CacheLookup::Failed), FeatureSyncAction::Skip));
}

#[test]
fn database_errors_map_to_store_errors() {
    assert!(matches!(map_manifest_error(ManifestError::not_found("Feature")), StoreError::FeatureNotFound(m) if m == "Feature not found"));
    assert!(matches!(map_manifest_error(ManifestError::not_found("Version")), StoreError::VersionNotFound(_)));
    assert!(matches!(map_manifest_error(ManifestError::not_found("Project")), StoreError::ProjectNotFound(_)));
    assert!(matches!(map_manifest_error(ManifestError::not_found("Thing")), StoreError::FeatureNotFound(_)));
    assert!(matches!(map_manifest_error(ManifestError::invalid_state("no")), StoreError::Validation(m) if m == "no"));
    let conflict = ManifestError::ClaimConflict(ClaimConflictInfo {
        agent_type: "atlas".into(),
        feature_id: "f".into(),
        claimed_at: String::new(),
        claim_metadata: None,
    });
    assert!(matches!(map_manifest_error(conflict), StoreError::Validation(m) if m == "Feature already claimed by 'atlas'"));
    assert!(matches!(not_found_error("Version", "v1"), StoreError::VersionNotFound(m) if m == "Version not found: v1"));
    assert!(matches!(not_found_error("Widget", "w"), StoreError::FeatureNotFound(m) if m == "Widget not found: w"));
}

#[test]
fn changesets_become_updates() {
    let cs = FeatureChangeset::default().parent_id(None).title("x");
    let input = changeset_to_input(&cs);
    assert_eq!(input.parent_id, Some(None));
    assert_eq!(input.title.as_deref(), Some("x"));
    assert!(input.blocked_by.is_none());
}

#[test]
fn queries_route_to_database_calls() {
    let pid = ProjectId::from_u128(1);
    assert!(matches!(route_feature_query(&FeatureQuery::for_project(pid).with_search("x")), Ok(FeatureListRoute::Search { .. })));
    assert!(matches!(route_feature_query(&FeatureQuery::default().with_parent(ParentFilter::Root)), Err(StoreError::Validation(m)) if m == "project_id required for root feature queries"));
    assert!(matches!(route_feature_query(&FeatureQuery::for_project(pid).with_parent(ParentFilter::Root)), Ok(FeatureListRoute::Roots(p)) if p == pid));
    assert!(matches!(route_feature_query(&FeatureQuery::for_project(pid).with_limit(3)), Ok(FeatureListRoute::Project { limit: Some(3), offset: None, .. })));
    assert!(matches!(route_feature_query(&FeatureQuery::default().with_parent(ParentFilter::Any)), Ok(FeatureListRoute::All { .. })));
}

#[test]
fn store_error_messages() {
    assert_eq!(StoreError::FeatureNotFound("x".into()).message().as_deref(), Some("Feature not found: x"));
    assert_eq!(StoreError::Internal("boom".into()).message().as_deref(), Some("boom"));
    assert_eq!(
        StoreError::RateLimited { reset_at: Timestamp { secs: 1704164645, nanos: 0 } }.message().as_deref(),
        Some("Rate limit exceeded, resets at 2024-01-02 03:04:05 UTC")
    );
    let conflict = ConflictDetail {
        feature_id: "f1".into(),
        field: "title".into(),
        local_value: "a".into(),
        remote_value: "b".into(),
        remote_updated_at: Timestamp { secs: 1704164645, nanos: 0 },
    };
    assert_eq!(
        conflict.describe().as_deref(),
        Some("field 'title' on feature 'f1' was modified remotely at 2024-01-02 03:04:05 UTC")
    );
    assert_eq!(
        StoreError::Conflict(conflict).message().as_deref(),
        Some("Conflict: field 'title' on feature 'f1' was modified remotely at 2024-01-02 03:04:05 UTC")
    );
    assert!(StoreError::RateLimited { reset_at: Timestamp { secs: i64::MAX, nanos: 0 } }.message().is_none());
}

#[test]
fn copies_for_the_cache_keep_remote_ids() {
    let rf = remote_feature(9);
    let copy = feature_copy_input(&rf, None);
    assert_eq!(copy.id, Some(rf.id));
    assert!(copy.parent_id.is_none());
    assert_eq!(copy.title, rf.title);
    assert_eq!(copy.state, Some(rf.state));
    assert_eq!(copy.priority, Some(rf.priority));
    let under = feature_copy_input(&rf, rf.parent_id);
    assert_eq!(under.parent_id, rf.parent_id);
}

#[test]
fn github_writes_are_refused() {
    match unsupported("create_project") {
        StoreError::Unsupported(m) => {
            assert_eq!(m, "GitHub backend is read-only: create_project not supported")
        }
        other => panic!("unexpected {other:?}"),
    }
}
