use manifest_core::db::features::{
    build_breadcrumb, feature_diff, features_to_release, parse_display_id, prefix_lookup_outcome, pick_next_workable, plan_claim, plan_completion,
    plan_create_feature, plan_create_features_bulk, plan_update_feature, AncestorRow, BlockedCandidate, BlockerAction,
};
use manifest_core::db::ManifestError;
use manifest_core::models::feature::{CreateFeatureInput, Feature, FeatureState, UpdateFeatureInput};
use manifest_core::models::ids::{FeatureId, ProjectId, ProofId, VersionId};
use manifest_core::models::project::{Project, TestingPolicy};
use manifest_core::models::test_proof::Proof;
use manifest_core::time::Timestamp;

fn ts(secs: i64) -> Timestamp {
    Timestamp { secs, nanos: 0 }
}

fn project(root: Option<FeatureId>, destination: &str) -> Project {
    Project {
        id: ProjectId::from_u128(1),
        slug: "p".to_string(),
        name: "P".to_string(),
        description: None,
        instructions: None,
        current_version_id: None,
        root_feature_id: root,
        default_feature_destination: destination.to_string(),
        testing_policy: TestingPolicy::Tdd,
        test_adapter: None,
        context_budget: None,
        key_prefix: "P".to_string(),
        created_at: ts(0),
        updated_at: ts(0),
    }
}

fn feature(id: u128, state: FeatureState) -> Feature {
    Feature {
        id: FeatureId::from_u128(id),
        project_id: ProjectId::from_u128(1),
        parent_id: Some(FeatureId::from_u128(100)),
        title: format!("F{id}"),
        details: Some("spec".to_string()),
        desired_details: None,
        details_summary: None,
        state,
        priority: 0,
        feature_number: Some(id as i32),
        target_version_id: None,
        verification_result: None,
        verified_at: None,
        claimed_by: None,
        claimed_at: None,
        claim_metadata: None,
        created_at: ts(1),
        updated_at: ts(2),
    }
}

fn create_input(parent: Option<FeatureId>, state: Option<FeatureState>, target: Option<VersionId>) -> CreateFeatureInput {
    CreateFeatureInput { id: None, parent_id: parent, title: "New".to_string(), details: None, state, priority: None, target_version_id: target }
}

fn empty_update() -> UpdateFeatureInput {
    UpdateFeatureInput {
        parent_id: None,
        title: None,
        details: None,
        desired_details: None,
        details_summary: None,
        state: None,
        priority: None,
        target_version_id: None,
        blocked_by: None,
    }
}

#[test]
fn diff_reports_changes() {
    let mut f = feature(1, FeatureState::Implemented);
    assert!(!feature_diff(f.clone()).has_changes);
    f.desired_details = Some("spec".to_string());
    assert!(!feature_diff(f.clone()).has_changes);
    f.desired_details = Some("better".to_string());
    let d = feature_diff(f);
    assert!(d.has_changes);
    assert_eq!(d.current.as_deref(), Some("spec"));
    assert_eq!(d.desired.as_deref(), Some("better"));
}

#[test]
fn create_needs_a_parent() {
    let p = project(None, "backlog");
    match plan_create_feature(&p, create_input(None, None, None), Ok(()), None, FeatureId::from_u128(5), 1, ts(9)) {
        Err(ManifestError::Validation(m)) => assert_eq!(m, "Feature must have a parent"),
        _ => panic!("expected a validation error"),
    }
}

#[test]
fn create_assigns_versions() {
    let root = FeatureId::from_u128(100);
    let next = VersionId::from_u128(50);
    let asked = VersionId::from_u128(51);
    let p = project(Some(root), "next");
    let f = plan_create_feature(&p, create_input(None, None, None), Ok(()), Some(next), FeatureId::from_u128(5), 3, ts(9)).unwrap();
    assert_eq!(f.parent_id, Some(root));
    assert_eq!(f.state, FeatureState::Proposed);
    assert_eq!(f.priority, 0);
    assert_eq!(f.feature_number, Some(3));
    assert_eq!(f.target_version_id, Some(next));
    assert_eq!(f.id, FeatureId::from_u128(5));
    let f = plan_create_feature(&p, create_input(None, Some(FeatureState::InProgress), Some(asked)), Ok(()), Some(next), FeatureId::from_u128(5), 3, ts(9)).unwrap();
    assert_eq!(f.target_version_id, Some(next));
    let backlog = project(Some(root), "backlog");
    let f = plan_create_feature(&backlog, create_input(None, None, None), Ok(()), Some(next), FeatureId::from_u128(5), 3, ts(9)).unwrap();
    assert_eq!(f.target_version_id, None);
    let refused = plan_create_feature(&backlog, create_input(None, None, Some(asked)), Err(ManifestError::validation("released")), Some(next), FeatureId::from_u128(5), 3, ts(9));
    assert!(matches!(refused, Err(ManifestError::Validation(m)) if m == "released"));
}

#[test]
fn bulk_create_numbers_in_order() {
    let root = FeatureId::from_u128(100);
    let p = project(Some(root), "backlog");
    let inputs = vec![create_input(None, None, None), create_input(Some(FeatureId::from_u128(7)), None, None)];
    let fs = plan_create_features_bulk(&p, inputs, Ok(()), None, vec![FeatureId::from_u128(1), FeatureId::from_u128(2)], 10, ts(0)).unwrap();
    assert_eq!(fs.len(), 2);
    assert_eq!(fs[0].feature_number, Some(10));
    assert_eq!(fs[1].feature_number, Some(11));
    assert_eq!(fs[1].parent_id, Some(FeatureId::from_u128(7)));
    assert_eq!(fs[1].id, FeatureId::from_u128(2));
    let orphan = project(None, "backlog");
    assert!(plan_create_features_bulk(&orphan, vec![create_input(None, None, None)], Ok(()), None, vec![FeatureId::from_u128(1)], 1, ts(0)).is_err());
}

#[test]
fn update_guards_feature_sets_and_blocking() {
    let f = feature(1, FeatureState::Proposed);
    let mut input = empty_update();
    input.state = Some(FeatureState::InProgress);
    match plan_update_feature(f.clone(), input, false, 0, Ok(()), None, ts(5)) {
        Err(ManifestError::InvalidState(m)) => assert!(m.starts_with("Cannot change state on a feature set.")),
        _ => panic!("expected a feature-set error"),
    }
    let mut input = empty_update();
    input.state = Some(FeatureState::Blocked);
    input.blocked_by = Some(vec![]);
    assert!(matches!(plan_update_feature(f.clone(), input, false, 0, Ok(()), None, ts(5)), Err(ManifestError::Validation(m)) if m == "blocked_by must contain at least one feature ID when transitioning to blocked."));
    let mut input = empty_update();
    input.state = Some(FeatureState::Blocked);
    input.blocked_by = Some(vec![FeatureId::from_u128(1)]);
    assert!(matches!(plan_update_feature(f.clone(), input, true, 1, Ok(()), None, ts(5)), Err(ManifestError::Validation(m)) if m == "A feature cannot block itself."));
    let mut input = empty_update();
    input.state = Some(FeatureState::Blocked);
    input.blocked_by = Some(vec![FeatureId::from_u128(2), FeatureId::from_u128(3)]);
    assert!(matches!(plan_update_feature(f.clone(), input, true, 1, Ok(()), None, ts(5)), Err(ManifestError::Validation(m)) if m == "All blocker features must exist in the same project."));
    let mut input = empty_update();
    input.state = Some(FeatureState::Blocked);
    input.blocked_by = Some(vec![FeatureId::from_u128(2)]);
    let u = plan_update_feature(f.clone(), input, true, 1, Ok(()), None, ts(5)).unwrap();
    assert_eq!(u.feature.state, FeatureState::Blocked);
    assert!(matches!(u.blockers, BlockerAction::Replace(v) if v == vec![FeatureId::from_u128(2)]));
    let blocked = feature(1, FeatureState::Blocked);
    let mut input = empty_update();
    input.state = Some(FeatureState::InProgress);
    assert!(matches!(plan_update_feature(blocked.clone(), input, true, 0, Ok(()), None, ts(5)), Err(ManifestError::InvalidState(m)) if m == "Blocked features can only transition to 'proposed'. Unblock first, then change state."));
    let mut input = empty_update();
    input.state = Some(FeatureState::Proposed);
    let u = plan_update_feature(blocked, input, false, 0, Ok(()), None, ts(5)).unwrap();
    assert!(matches!(u.blockers, BlockerAction::Clear));
    let implemented = feature(1, FeatureState::Implemented);
    let mut input = empty_update();
    input.state = Some(FeatureState::Blocked);
    input.blocked_by = Some(vec![FeatureId::from_u128(2)]);
    assert!(matches!(plan_update_feature(implemented, input, true, 1, Ok(()), None, ts(5)), Err(ManifestError::InvalidState(m)) if m == "Only proposed features can be blocked. Current state must be 'proposed'."));
}

#[test]
fn update_redirects_and_proposes() {
    let f = feature(1, FeatureState::Proposed);
    let mut input = empty_update();
    input.desired_details = Some(Some("new spec".to_string()));
    input.state = Some(FeatureState::InProgress);
    let next = VersionId::from_u128(50);
    let u = plan_update_feature(f, input, true, 0, Ok(()), Some(next), ts(5)).unwrap();
    assert_eq!(u.feature.details.as_deref(), Some("new spec"));
    assert!(u.feature.desired_details.is_none());
    assert_eq!(u.feature.state, FeatureState::InProgress);
    assert_eq!(u.feature.target_version_id, Some(next));
    assert_eq!(u.feature.updated_at, ts(5));
    let done = feature(1, FeatureState::Implemented);
    let mut input = empty_update();
    input.desired_details = Some(Some("better".to_string()));
    input.state = Some(FeatureState::Archived);
    let u = plan_update_feature(done.clone(), input, true, 0, Ok(()), Some(next), ts(5)).unwrap();
    assert_eq!(u.feature.state, FeatureState::Implemented);
    assert_eq!(u.feature.desired_details.as_deref(), Some("better"));
    assert_eq!(u.feature.target_version_id, Some(next));
    assert!(!u.auto_resolve);
    let mut input = empty_update();
    input.desired_details = Some(Some("spec".to_string()));
    let u = plan_update_feature(done, input, true, 0, Ok(()), None, ts(5)).unwrap();
    assert!(u.feature.desired_details.is_none());
    let mut input = empty_update();
    input.state = Some(FeatureState::Implemented);
    let u = plan_update_feature(feature(1, FeatureState::InProgress), input, true, 0, Ok(()), None, ts(5)).unwrap();
    assert!(u.auto_resolve);
}

#[test]
fn update_reports_version_check_last() {
    let mut input = empty_update();
    input.target_version_id = Some(Some(VersionId::from_u128(3)));
    let r = plan_update_feature(feature(1, FeatureState::Proposed), input, true, 0, Err(ManifestError::validation("released")), None, ts(5));
    assert!(matches!(r, Err(ManifestError::Validation(m)) if m == "released"));
}

#[test]
fn claim_conflicts_and_transitions() {
    let next = VersionId::from_u128(50);
    let f = feature(1, FeatureState::Proposed);
    let claimed = plan_claim(f, "atlas", Some("meta"), false, Some(next), ts(7)).unwrap();
    assert_eq!(claimed.state, FeatureState::InProgress);
    assert_eq!(claimed.claimed_by.as_deref(), Some("atlas"));
    assert_eq!(claimed.claimed_at, Some(ts(7)));
    assert_eq!(claimed.claim_metadata.as_deref(), Some("meta"));
    assert_eq!(claimed.target_version_id, Some(next));
    match plan_claim(claimed.clone(), "gemini", None, false, Some(next), ts(8)) {
        Err(ManifestError::ClaimConflict(c)) => {
            assert_eq!(c.agent_type, "atlas");
            assert_eq!(c.feature_id, FeatureId::from_u128(1).to_string());
            assert_eq!(c.claimed_at, "1970-01-01T00:00:07+00:00");
            assert_eq!(c.claim_metadata.as_deref(), Some("meta"));
        }
        _ => panic!("expected a claim conflict"),
    }
    let forced = plan_claim(claimed, "gemini", None, true, Some(next), ts(8)).unwrap();
    assert_eq!(forced.claimed_by.as_deref(), Some("gemini"));
    let archived = plan_claim(feature(2, FeatureState::Archived), "atlas", None, false, Some(next), ts(8)).unwrap();
    assert_eq!(archived.state, FeatureState::Archived);
    assert_eq!(archived.target_version_id, None);
}

fn evidence(exit_code: i32) -> Proof {
    Proof {
        id: ProofId::from_u128(1),
        feature_id: FeatureId::from_u128(1),
        history_id: None,
        command: "cargo test".to_string(),
        exit_code,
        output: None,
        tests: None,
        evidence: vec![],
        commit_sha: None,
        agent_type: None,
        created_at: ts(1),
    }
}

#[test]
fn completion_gates_and_warnings() {
    let f = feature(1, FeatureState::InProgress);
    assert!(matches!(plan_completion(&f, false, TestingPolicy::Off, None), Err(ManifestError::InvalidState(m)) if m == "Cannot complete a non-leaf feature"));
    assert!(matches!(plan_completion(&f, true, TestingPolicy::Tdd, None), Err(ManifestError::InvalidState(m)) if m.starts_with("Cannot complete feature: no proof recorded.")));
    assert!(matches!(plan_completion(&f, true, TestingPolicy::Tdd, Some(evidence(1))), Err(ManifestError::InvalidState(m)) if m.starts_with("Cannot complete feature: latest proof has failing tests")));
    let plan = plan_completion(&f, true, TestingPolicy::Tdd, Some(evidence(0))).unwrap();
    assert_eq!(plan.warnings.len(), 1);
    assert!(plan.warnings[0].starts_with("Proof recorded but has no structured test results."));
    let update = plan.update.unwrap();
    assert_eq!(update.state, Some(FeatureState::Implemented));
    assert!(update.desired_details.is_none());
    let plan = plan_completion(&f, true, TestingPolicy::Advisory, None).unwrap();
    assert_eq!(plan.warnings, vec!["No passing test evidence recorded. Consider running tests and calling prove_feature.".to_string()]);
    let mut stale = feature(1, FeatureState::Implemented);
    stale.claimed_at = Some(ts(2));
    stale.claimed_by = Some("atlas".to_string());
    let plan = plan_completion(&stale, true, TestingPolicy::Off, Some(evidence(1))).unwrap();
    assert_eq!(plan.warnings, vec!["Feature spec not updated since work started. Call update_feature to reflect what was actually built.".to_string()]);
    assert!(plan.update.is_none());
    assert_eq!(plan.agent_type.as_deref(), Some("atlas"));
}

#[test]
fn display_ids_parse() {
    assert_eq!(parse_display_id("man-42"), Some(("MAN".to_string(), 42)));
    assert_eq!(parse_display_id("my-app-7"), Some(("MY-APP".to_string(), 7)));
    assert_eq!(parse_display_id("X--3"), Some(("X-".to_string(), 3)));
    assert_eq!(parse_display_id("MAN42"), None);
    assert_eq!(parse_display_id("MAN-x"), None);
    assert_eq!(parse_display_id("MAN-99999999999"), None);
}

#[test]
fn breadcrumb_runs_root_first() {
    let rows = vec![
        AncestorRow { id: FeatureId::from_u128(3), parent_id: Some(FeatureId::from_u128(2)), title: "leaf".into(), details: Some("l".into()), details_summary: Some("ignored".into()) },
        AncestorRow { id: FeatureId::from_u128(2), parent_id: Some(FeatureId::from_u128(1)), title: "mid".into(), details: None, details_summary: None },
        AncestorRow { id: FeatureId::from_u128(1), parent_id: None, title: "root".into(), details: Some("long".into()), details_summary: Some("short".into()) },
    ];
    let crumbs = build_breadcrumb(rows);
    assert_eq!(crumbs.len(), 3);
    assert_eq!(crumbs[0].title, "root");
    assert_eq!(crumbs[0].details.as_deref(), Some("short"));
    assert_eq!(crumbs[2].details.as_deref(), Some("l"));
}

#[test]
fn next_workable_prefers_next_version_then_proposed() {
    let next = VersionId::from_u128(50);
    let mut a = feature(1, FeatureState::InProgress);
    a.target_version_id = Some(next);
    let mut b = feature(2, FeatureState::Proposed);
    b.target_version_id = Some(next);
    b.priority = 5;
    let mut c = feature(3, FeatureState::Proposed);
    c.priority = -1;
    let mut root = feature(4, FeatureState::Proposed);
    root.parent_id = None;
    let set = feature(5, FeatureState::Proposed);
    let fs = vec![a, b, c, root, set];
    let kids = vec![false, false, false, false, true];
    assert_eq!(pick_next_workable(&fs, &kids, None, Some(next)), Some(1));
    assert_eq!(pick_next_workable(&fs, &kids, None, None), Some(2));
    assert_eq!(pick_next_workable(&fs, &kids, Some(next), None), Some(1));
    assert_eq!(pick_next_workable(&fs, &kids, Some(VersionId::from_u128(9)), None), None);
}

#[test]
fn prefix_lookup_outcomes() {
    assert!(prefix_lookup_outcome("ab", Vec::new()).unwrap().is_none());
    let one = prefix_lookup_outcome("ab", vec![feature(1, FeatureState::Proposed)]).unwrap().unwrap();
    assert_eq!(one.id, FeatureId::from_u128(1));
    let two = vec![feature(1, FeatureState::Proposed), feature(2, FeatureState::Proposed)];
    assert_eq!(
        prefix_lookup_outcome("ab", two).unwrap_err(),
        "Ambiguous prefix 'ab': matches multiple features"
    );
}

#[test]
fn display_ids_read_back() {
    for (prefix, n) in [("man", 42), ("my-app", 0), ("Zz", i32::MAX)] {
        let id = format!("{prefix}-{n}");
        assert_eq!(parse_display_id(&id), Some((prefix.to_ascii_uppercase(), n)));
    }
}

#[test]
fn update_moves_or_detaches_the_parent() {
    let mut f = feature(1, FeatureState::Proposed);
    f.parent_id = Some(FeatureId::from_u128(9));
    let mut input = empty_update();
    input.parent_id = Some(None);
    match plan_update_feature(f.clone(), input, true, 0, Ok(()), None, ts(5)) {
        Ok(u) => assert_eq!(u.feature.parent_id, None),
        Err(_) => panic!("detaching should succeed"),
    }
    let mut input = empty_update();
    input.parent_id = Some(Some(FeatureId::from_u128(4)));
    match plan_update_feature(f.clone(), input, true, 0, Ok(()), None, ts(5)) {
        Ok(u) => assert_eq!(u.feature.parent_id, Some(FeatureId::from_u128(4))),
        Err(_) => panic!("moving should succeed"),
    }
    match plan_update_feature(f.clone(), empty_update(), true, 0, Ok(()), None, ts(5)) {
        Ok(u) => assert_eq!(u.feature.parent_id, Some(FeatureId::from_u128(9))),
        Err(_) => panic!("an empty update should succeed"),
    }
}

#[test]
fn only_fully_unblocked_features_are_released() {
    let cs = vec![
        BlockedCandidate { feature_id: "a".to_string(), open_blockers: 0 },
        BlockedCandidate { feature_id: "b".to_string(), open_blockers: 2 },
        BlockedCandidate { feature_id: "c".to_string(), open_blockers: 0 },
    ];
    assert_eq!(features_to_release(&cs), vec!["a".to_string(), "c".to_string()]);
    assert!(features_to_release(&Vec::new()).is_empty());
}
