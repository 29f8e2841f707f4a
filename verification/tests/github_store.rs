use manifest_core::github::client::{
    apply_sub_issues, feature_set_numbers, repo_full_name, split_repo, GitHubIssue, GitHubMilestone,
    SyncData,
};
use manifest_core::github::store::{build_snapshot, Snapshot};
use manifest_core::models::feature::FeatureState;
use manifest_core::models::ids::{FeatureId, ProjectId, VersionId};
use manifest_core::store::error::StoreError;
use manifest_core::store::query::{FeatureQuery, ParentFilter};
use manifest_core::time::Timestamp;

fn make_sync_data() -> SyncData {
    SyncData {
        issues: vec![
            GitHubIssue {
                id: "I_1".to_string(),
                number: 1,
                title: "Auth".to_string(),
                body: Some("<!-- manifest:feature -->\n<!-- manifest:id:550e8400-e29b-41d4-a716-446655440000 -->\n\nAuth system details".to_string()),
                state: "OPEN".to_string(),
                labels: vec!["manifest:in_progress".to_string(), "manifest:feature_set".to_string()],
                milestone_title: Some("0.1.0".to_string()),
                milestone_id: Some("MI_1".to_string()),
                parent_number: None,
                sub_issue_numbers: vec![2],
                created_at: "2026-01-01T00:00:00Z".to_string(),
                updated_at: "2026-01-02T00:00:00Z".to_string(),
            },
            GitHubIssue {
                id: "I_2".to_string(),
                number: 2,
                title: "OAuth Login".to_string(),
                body: Some("<!-- manifest:feature -->\n<!-- manifest:id:660e8400-e29b-41d4-a716-446655440000 -->\n\nOAuth details".to_string()),
                state: "OPEN".to_string(),
                labels: vec!["manifest:proposed".to_string()],
                milestone_title: None,
                milestone_id: None,
                parent_number: Some(1),
                sub_issue_numbers: vec![],
                created_at: "2026-01-01T00:00:00Z".to_string(),
                updated_at: "2026-01-01T00:00:00Z".to_string(),
            },
        ],
        milestones: vec![GitHubMilestone {
            id: "MI_1".to_string(),
            number: 1,
            title: "0.1.0".to_string(),
            description: Some("First release".to_string()),
            state: "OPEN".to_string(),
            due_on: None,
            created_at: "2026-01-01T00:00:00Z".to_string(),
            updated_at: "2026-01-01T00:00:00Z".to_string(),
        }],
    }
}

fn snapshot_of(data: &SyncData) -> Snapshot {
    let fresh: Vec<FeatureId> = data.issues.iter().map(|_| FeatureId::new()).collect();
    let fresh_versions: Vec<VersionId> = data.milestones.iter().map(|_| VersionId::new()).collect();
    build_snapshot(data, ProjectId::new(), "test/repo", &fresh, &fresh_versions, Timestamp { secs: 1_800_000_000, nanos: 0 }).unwrap()
}

#[test]
fn build_snapshot_creates_features() {
    let snapshot = snapshot_of(&make_sync_data());
    assert_eq!(snapshot.features.len(), 2);
    assert_eq!(snapshot.versions.len(), 1);
    assert!(snapshot.project.is_some());
}

#[test]
fn build_snapshot_resolves_parent() {
    let snapshot = snapshot_of(&make_sync_data());
    let child = snapshot.features.iter().find(|f| f.title == "OAuth Login").unwrap();
    let parent = snapshot.features.iter().find(|f| f.title == "Auth").unwrap();
    assert_eq!(child.parent_id, Some(parent.id));
}

#[test]
fn build_snapshot_extracts_state() {
    let snapshot = snapshot_of(&make_sync_data());
    let auth = snapshot.features.iter().find(|f| f.title == "Auth").unwrap();
    assert_eq!(auth.state, FeatureState::InProgress);
    let oauth = snapshot.features.iter().find(|f| f.title == "OAuth Login").unwrap();
    assert_eq!(oauth.state, FeatureState::Proposed);
}

#[test]
fn build_snapshot_resolves_version() {
    let snapshot = snapshot_of(&make_sync_data());
    let auth = snapshot.features.iter().find(|f| f.title == "Auth").unwrap();
    assert!(auth.target_version_id.is_some());
    let version = &snapshot.versions[0];
    assert_eq!(auth.target_version_id.unwrap(), version.id);
}

#[test]
fn build_snapshot_parses_manifest_id() {
    let snapshot = snapshot_of(&make_sync_data());
    let auth = snapshot.features.iter().find(|f| f.title == "Auth").unwrap();
    assert_eq!(auth.id.to_string(), "550e8400-e29b-41d4-a716-446655440000");
}

#[test]
fn build_snapshot_project_and_details() {
    let snapshot = snapshot_of(&make_sync_data());
    let project = snapshot.project.as_ref().unwrap();
    assert_eq!(project.slug, "test-repo");
    assert_eq!(project.name, "test/repo");
    assert_eq!(project.key_prefix, "GH");
    let auth = snapshot.features.iter().find(|f| f.title == "Auth").unwrap();
    assert_eq!(auth.details.as_deref(), Some("Auth system details"));
    assert_eq!(auth.feature_number, Some(1));
    assert_eq!(auth.created_at, Timestamp { secs: 1_767_225_600, nanos: 0 });
    assert_eq!(snapshot.versions[0].description.as_deref(), Some("First release"));
}

#[test]
fn build_snapshot_rejects_bad_timestamps() {
    let mut data = make_sync_data();
    data.issues[1].updated_at = "yesterday".to_string();
    let fresh = vec![FeatureId::new(), FeatureId::new()];
    let fresh_versions = vec![VersionId::new()];
    let err = build_snapshot(&data, ProjectId::new(), "test/repo", &fresh, &fresh_versions, Timestamp { secs: 0, nanos: 0 }).err().unwrap();
    assert!(err.starts_with("Failed to parse datetime 'yesterday': "));
}

#[test]
fn closed_milestones_are_released_and_lose_metadata() {
    let mut data = make_sync_data();
    data.milestones[0].state = "CLOSED".to_string();
    data.milestones[0].due_on = Some("2026-03-01T00:00:00Z".to_string());
    data.milestones[0].description = Some("<!-- manifest:id:550e8400-e29b-41d4-a716-446655440001 -->\nNotes\n".to_string());
    let snapshot = snapshot_of(&data);
    let v = &snapshot.versions[0];
    assert_eq!(v.released_at, Some(Timestamp { secs: 1_772_323_200, nanos: 0 }));
    assert_eq!(v.description.as_deref(), Some("Notes"));
    assert_eq!(v.id.to_string(), "550e8400-e29b-41d4-a716-446655440001");
}

#[test]
fn read_methods_work_after_snapshot() {
    let snapshot = snapshot_of(&make_sync_data());
    let project_id = snapshot.project.as_ref().unwrap().id;
    assert_eq!(snapshot.list_projects().len(), 1);
    assert_eq!(snapshot.get_project(project_id).unwrap().id, project_id);
    let features = snapshot.list_features(&FeatureQuery::for_project(project_id));
    assert_eq!(features.len(), 2);
    let auth = features.iter().find(|f| f.title == "Auth").unwrap();
    assert_eq!(snapshot.get_feature(auth.id).unwrap().title, "Auth");
    let children = snapshot.get_feature_children(auth.id);
    assert_eq!(children.len(), 1);
    assert_eq!(children[0].title, "OAuth Login");
    let versions = snapshot.list_versions(project_id);
    assert_eq!(versions.len(), 1);
    assert_eq!(versions[0].name, "0.1.0");
}

#[test]
fn list_features_with_filters() {
    let snapshot = snapshot_of(&make_sync_data());
    let project_id = snapshot.project.as_ref().unwrap().id;
    let proposed = snapshot.list_features(&FeatureQuery::for_project(project_id).with_state(FeatureState::Proposed));
    assert_eq!(proposed.len(), 1);
    assert_eq!(proposed[0].title, "OAuth Login");
    let roots = snapshot.list_features(&FeatureQuery::for_project(project_id).with_parent(ParentFilter::Root));
    assert_eq!(roots.len(), 1);
    assert_eq!(roots[0].title, "Auth");
    let page = snapshot.list_features(&FeatureQuery::for_project(project_id).with_limit(1));
    assert_eq!(page.len(), 1);
    let searched = snapshot.list_features(&FeatureQuery::default().with_search("OAUTH"));
    assert_eq!(searched.len(), 1);
    assert_eq!(searched[0].title, "OAuth Login");
    let skipped = snapshot.list_features(&FeatureQuery::default().with_offset(5));
    assert!(skipped.is_empty());
    let negative = snapshot.list_features(&FeatureQuery::default().with_offset(-1));
    assert!(negative.is_empty());
    let unlimited = snapshot.list_features(&FeatureQuery::default().with_limit(-1));
    assert_eq!(unlimited.len(), 2);
}

#[test]
fn list_features_sorts_stably_by_priority() {
    let mut snapshot = snapshot_of(&make_sync_data());
    snapshot.features[0].priority = 3;
    snapshot.features[1].priority = 1;
    let mut extra = snapshot.features[1].clone();
    extra.title = "Later".to_string();
    snapshot.features.push(extra);
    let all = snapshot.list_features(&FeatureQuery::default());
    let titles: Vec<&str> = all.iter().map(|f| f.title.as_str()).collect();
    assert_eq!(titles, vec!["OAuth Login", "Later", "Auth"]);
}

#[test]
fn get_feature_ancestors_builds_chain() {
    let snapshot = snapshot_of(&make_sync_data());
    let child_id = snapshot.features.iter().find(|f| f.title == "OAuth Login").unwrap().id;
    let ancestors = snapshot.get_feature_ancestors(child_id);
    assert_eq!(ancestors.len(), 1);
    assert_eq!(ancestors[0].title, "Auth");
}

#[test]
fn not_found_returns_correct_errors() {
    let snapshot = snapshot_of(&make_sync_data());
    assert!(matches!(snapshot.get_feature(FeatureId::new()), Err(StoreError::FeatureNotFound(_))));
    assert!(matches!(snapshot.get_project(ProjectId::new()), Err(StoreError::ProjectNotFound(_))));
    assert!(matches!(snapshot.get_version(VersionId::new()), Err(StoreError::VersionNotFound(_))));
}

#[test]
fn github_client_rejects_bad_repo_format() {
    assert!(split_repo("noslash").is_none());
}

#[test]
fn github_client_accepts_valid_repo() {
    let (owner, repo) = split_repo("owner/repo").unwrap();
    assert_eq!(owner, "owner");
    assert_eq!(repo, "repo");
    assert_eq!(repo_full_name(&owner, &repo), "owner/repo");
    let (o, r) = split_repo("a/b/c").unwrap();
    assert_eq!((o.as_str(), r.as_str()), ("a", "b/c"));
}

#[test]
fn sub_issues_link_parents_and_children() {
    let mut data = make_sync_data();
    data.issues[1].parent_number = None;
    data.issues[0].sub_issue_numbers = vec![];
    assert_eq!(feature_set_numbers(&data.issues), vec![1]);
    apply_sub_issues(&mut data.issues, 1, vec![2, 99]);
    assert_eq!(data.issues[1].parent_number, Some(1));
    assert_eq!(data.issues[0].sub_issue_numbers, vec![2, 99]);
    assert_eq!(data.issues[0].parent_number, None);
}
