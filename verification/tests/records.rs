use manifest_core::db::projects::{apply_project_update, match_directory, new_project_id, plan_new_project};
use manifest_core::db::records::{
    apply_remote_update, apply_template_update, history_page, plan_create_remote,
    plan_create_template, plan_history_entry, plan_link, plan_proof, truncate_output,
};
use manifest_core::db::rows::{
    feature_from_row, parse_datetime, parse_id, project_from_row, FeatureRow, ProjectRow,
};
use manifest_core::db::ManifestError;
use manifest_core::models::feature::FeatureState;
use manifest_core::models::history::{CreateHistoryInput, HistoryDetails};
use manifest_core::models::ids::{
    FeatureId, HistoryId, ProjectId, ProofId, RemoteId, TemplateId, VersionId,
};
use manifest_core::models::project::{CreateProjectInput, Project, TestingPolicy, UpdateProjectInput};
use manifest_core::models::remote::{CreateRemoteInput, Remote, SyncState, UpdateRemoteInput};
use manifest_core::models::template::{CreateTemplateInput, SpecTemplate, UpdateTemplateInput};
use manifest_core::models::test_proof::{CreateProofInput, PROOF_OUTPUT_MAX_CHARS};
use manifest_core::time::Timestamp;

fn ts(secs: i64) -> Timestamp {
    Timestamp { secs, nanos: 0 }
}

const UUID_A: &str = "6f1c2a3b-4d5e-4f60-8a7b-9c0d1e2f3a4b";
const UUID_B: &str = "00000000-0000-0000-0000-000000000002";

#[test]
fn create_remote_defaults_provider_to_turso() {
    let input = CreateRemoteInput {
        name: "prod".to_string(),
        provider: None,
        url: "libsql://x".to_string(),
        token: "t".to_string(),
    };
    let r = plan_create_remote(&input, false, RemoteId::from_u128(3), ts(9)).unwrap();
    assert_eq!(r.provider, "turso");
    assert_eq!(r.name, "prod");
    assert!(r.sync_enabled);
    assert_eq!(r.created_at, ts(9));
}

#[test]
fn create_remote_rejects_taken_name() {
    let input = CreateRemoteInput {
        name: "prod".to_string(),
        provider: Some("other".to_string()),
        url: "u".to_string(),
        token: "t".to_string(),
    };
    match plan_create_remote(&input, true, RemoteId::from_u128(3), ts(9)) {
        Err(ManifestError::Validation(m)) => assert_eq!(
            m,
            "Remote 'prod' already exists. Use a different name or update the existing remote."
        ),
        other => panic!("unexpected {other:?}"),
    }
}

#[test]
fn remote_update_keeps_unset_fields() {
    let existing = Remote {
        id: RemoteId::from_u128(1),
        name: "n".to_string(),
        provider: "turso".to_string(),
        url: "old".to_string(),
        sync_enabled: true,
        created_at: ts(1),
        updated_at: ts(1),
    };
    let input = UpdateRemoteInput { url: None, token: Some("new".to_string()), sync_enabled: Some(false) };
    let (r, token) = apply_remote_update(existing, &input, ts(5));
    assert_eq!(r.url, "old");
    assert!(!r.sync_enabled);
    assert_eq!(r.updated_at, ts(5));
    assert_eq!(r.created_at, ts(1));
    assert_eq!(token.as_deref(), Some("new"));
}

#[test]
fn link_errors_and_revival() {
    let p = ProjectId::from_u128(1);
    let rm = RemoteId::from_u128(2);
    match plan_link(p, rm, false, true, None) {
        Err(ManifestError::NotFound(m)) => assert_eq!(m, "Project not found"),
        other => panic!("unexpected {other:?}"),
    }
    match plan_link(p, rm, true, false, None) {
        Err(ManifestError::NotFound(m)) => assert_eq!(m, "Remote not found"),
        other => panic!("unexpected {other:?}"),
    }
    match plan_link(p, rm, true, true, Some(SyncState::Paused)) {
        Err(ManifestError::Validation(m)) => {
            assert_eq!(m, "Project is already linked to this remote (state: paused).")
        }
        other => panic!("unexpected {other:?}"),
    }
    let link = plan_link(p, rm, true, true, Some(SyncState::Orphaned)).unwrap();
    assert_eq!(link.sync_state, SyncState::Active);
    assert!(link.last_synced_at.is_none());
    let fresh = plan_link(p, rm, true, true, None).unwrap();
    assert_eq!(fresh.sync_state, SyncState::Active);
}

#[test]
fn template_default_flag_clears_others_only_when_new() {
    let input = CreateTemplateInput {
        name: "t".to_string(),
        description: None,
        content: "c".to_string(),
        is_default: true,
    };
    let (t, clear) = plan_create_template(ProjectId::from_u128(1), input, TemplateId::from_u128(2), ts(3));
    assert!(clear);
    assert!(t.is_default);
    let existing = SpecTemplate { is_default: true, ..t.clone() };
    let upd = UpdateTemplateInput { name: Some("u".to_string()), description: None, content: None, is_default: Some(true) };
    let (t2, clear2) = apply_template_update(existing, upd, ts(4));
    assert!(!clear2);
    assert_eq!(t2.name, "u");
    assert_eq!(t2.content, "c");
    let not_default = SpecTemplate { is_default: false, ..t };
    let upd = UpdateTemplateInput { name: None, description: None, content: None, is_default: Some(true) };
    let (_, clear3) = apply_template_update(not_default, upd, ts(4));
    assert!(clear3);
}

#[test]
fn short_output_is_kept() {
    assert_eq!(truncate_output("all passed"), "all passed");
    let exact = "x".repeat(PROOF_OUTPUT_MAX_CHARS);
    assert_eq!(truncate_output(&exact), exact);
}

#[test]
fn long_output_is_cut_with_note() {
    let long = "y".repeat(PROOF_OUTPUT_MAX_CHARS + 5);
    let out = truncate_output(&long);
    let expected = format!(
        "{}\n\n... (output truncated at 10000 characters)",
        "y".repeat(PROOF_OUTPUT_MAX_CHARS)
    );
    assert_eq!(out, expected);
}

#[test]
fn multibyte_output_is_counted_in_characters() {
    // 5001 two-byte characters: more than 10000 bytes, but within the limit.
    let within = "é".repeat(5001);
    assert_eq!(truncate_output(&within), within);
    let exact = "é".repeat(PROOF_OUTPUT_MAX_CHARS);
    assert_eq!(truncate_output(&exact), exact);
    let long = "é".repeat(PROOF_OUTPUT_MAX_CHARS + 1);
    let out = truncate_output(&long);
    assert_eq!(out, format!("{}\n\n... (output truncated at 10000 characters)", "é".repeat(PROOF_OUTPUT_MAX_CHARS)));
}

#[test]
fn proof_keeps_its_fields() {
    let input = CreateProofInput {
        feature_id: FeatureId::from_u128(1),
        history_id: None,
        command: "cargo test".to_string(),
        exit_code: 1,
        output: Some("z".repeat(PROOF_OUTPUT_MAX_CHARS + 1)),
        tests: None,
        evidence: Vec::new(),
        commit_sha: Some("abc".to_string()),
        agent_type: None,
    };
    let p = plan_proof(input, ProofId::from_u128(9), ts(2));
    assert_eq!(p.exit_code, 1);
    assert_eq!(p.command, "cargo test");
    assert!(p.output.unwrap().ends_with("characters)"));
    assert_eq!(p.commit_sha.as_deref(), Some("abc"));
}

#[test]
fn history_entry_falls_back_to_feature_version() {
    let input = CreateHistoryInput {
        feature_id: FeatureId::from_u128(1),
        version_id: None,
        details: HistoryDetails { summary: "s".to_string(), commits: Vec::new() },
    };
    let e = plan_history_entry(input, Some(VersionId::from_u128(4)), HistoryId::from_u128(5), ts(1));
    assert_eq!(e.version_id, Some(VersionId::from_u128(4)));
    let input = CreateHistoryInput {
        feature_id: FeatureId::from_u128(1),
        version_id: Some(VersionId::from_u128(8)),
        details: HistoryDetails { summary: "s".to_string(), commits: Vec::new() },
    };
    let e = plan_history_entry(input, Some(VersionId::from_u128(4)), HistoryId::from_u128(5), ts(1));
    assert_eq!(e.version_id, Some(VersionId::from_u128(8)));
}

#[test]
fn history_page_defaults() {
    assert_eq!(history_page(None, None), (50, 0));
    assert_eq!(history_page(Some(10), Some(20)), (10, 20));
}

#[test]
fn parse_datetime_accepts_both_forms() {
    assert_eq!(parse_datetime("2024-01-02T03:04:05Z").unwrap(), ts(1704164645));
    assert_eq!(parse_datetime("2024-01-02 03:04:05").unwrap(), ts(1704164645));
    assert_eq!(parse_datetime("2024-01-02T04:04:05+01:00").unwrap(), ts(1704164645));
    assert_eq!(
        parse_datetime("yesterday").unwrap_err(),
        "Invalid timestamp stored in database: yesterday"
    );
}

#[test]
fn parse_id_reads_uuids() {
    assert_eq!(parse_id(UUID_B).unwrap(), 2);
    assert_eq!(parse_id("nope").unwrap_err(), "Invalid UUID stored in database: nope");
}

fn feature_row() -> FeatureRow {
    FeatureRow {
        id: UUID_A.to_string(),
        project_id: UUID_B.to_string(),
        parent_id: None,
        title: "Login".to_string(),
        details: Some("d".to_string()),
        desired_details: None,
        details_summary: None,
        state: "in_progress".to_string(),
        priority: 3,
        feature_number: Some(7),
        target_version_id: None,
        verification_result: None,
        verified_at: Some("garbage".to_string()),
        claimed_by: None,
        claimed_at: None,
        claim_metadata: None,
        created_at: "2024-01-02 03:04:05".to_string(),
        updated_at: "2024-01-02T03:04:05Z".to_string(),
    }
}

#[test]
fn feature_row_reads_into_feature() {
    let f = feature_from_row(feature_row()).unwrap();
    assert_eq!(f.project_id, ProjectId::from_u128(2));
    assert_eq!(f.title, "Login");
    assert_eq!(f.state, FeatureState::InProgress);
    assert_eq!(f.priority, 3);
    assert_eq!(f.feature_number, Some(7));
    assert!(f.verified_at.is_none());
    assert_eq!(f.created_at, ts(1704164645));
}

#[test]
fn feature_row_with_bad_parent_is_refused() {
    let row = FeatureRow { parent_id: Some("bad".to_string()), ..feature_row() };
    assert_eq!(feature_from_row(row).unwrap_err(), "Invalid UUID stored in database: bad");
}

#[test]
fn project_row_defaults() {
    let row = ProjectRow {
        id: UUID_B.to_string(),
        slug: "s".to_string(),
        name: "n".to_string(),
        description: None,
        instructions: None,
        current_version_id: None,
        root_feature_id: None,
        default_feature_destination: None,
        test_adapter: None,
        context_budget: None,
        key_prefix: None,
        created_at: "2024-01-02 03:04:05".to_string(),
        updated_at: "2024-01-02 03:04:05".to_string(),
    };
    let p = project_from_row(row).unwrap();
    assert_eq!(p.default_feature_destination, "backlog");
    assert_eq!(p.key_prefix, "");
    assert_eq!(p.id, ProjectId::from_u128(2));
}

fn create_input(name: &str) -> CreateProjectInput {
    CreateProjectInput {
        id: None,
        name: name.to_string(),
        slug: None,
        description: None,
        instructions: Some("Build it".to_string()),
        key_prefix: None,
        skip_default_versions: false,
    }
}

#[test]
fn new_project_derives_slug_prefix_and_root() {
    let plan = plan_new_project(
        create_input("My Cool App"),
        ProjectId::from_u128(1),
        FeatureId::from_u128(2),
        TemplateId::from_u128(3),
        ts(10),
    );
    assert_eq!(plan.project.slug, "my-cool-app");
    assert_eq!(plan.project.key_prefix, "MY");
    assert_eq!(plan.project.default_feature_destination, "backlog");
    assert_eq!(plan.project.testing_policy, TestingPolicy::Tdd);
    assert_eq!(plan.project.root_feature_id, Some(FeatureId::from_u128(2)));
    assert_eq!(plan.root_feature.title, "My Cool App");
    assert_eq!(plan.root_feature.details.as_deref(), Some("Build it"));
    assert_eq!(plan.root_feature.state, FeatureState::Implemented);
    assert_eq!(plan.template.name, "Default");
    assert!(plan.template.is_default);
}

#[test]
fn new_project_id_prefers_given() {
    let mut input = create_input("x");
    assert_eq!(new_project_id(&input, ProjectId::from_u128(5)), ProjectId::from_u128(5));
    input.id = Some(ProjectId::from_u128(6));
    assert_eq!(new_project_id(&input, ProjectId::from_u128(5)), ProjectId::from_u128(6));
}

#[test]
fn project_update_renames_root() {
    let plan = plan_new_project(
        create_input("Old"),
        ProjectId::from_u128(1),
        FeatureId::from_u128(2),
        TemplateId::from_u128(3),
        ts(10),
    );
    let input = UpdateProjectInput {
        name: Some("New".to_string()),
        slug: None,
        description: Some("d".to_string()),
        instructions: None,
        current_version_id: None,
        default_feature_destination: None,
        test_adapter: None,
        context_budget: Some(100),
        key_prefix: None,
    };
    let upd = apply_project_update(plan.project.clone(), input, ts(11));
    assert_eq!(upd.project.name, "New");
    assert_eq!(upd.project.slug, "old");
    assert_eq!(upd.project.context_budget, Some(100));
    assert_eq!(upd.project.updated_at, ts(11));
    assert_eq!(upd.rename_root, Some((FeatureId::from_u128(2), "New".to_string())));
    let same = UpdateProjectInput {
        name: Some("Old".to_string()),
        slug: None,
        description: None,
        instructions: None,
        current_version_id: None,
        default_feature_destination: None,
        test_adapter: None,
        context_budget: None,
        key_prefix: None,
    };
    assert!(apply_project_update(plan.project.clone(), same.clone(), ts(12)).rename_root.is_none());
    let advisory = Project { testing_policy: TestingPolicy::Advisory, ..plan.project.clone() };
    assert_eq!(apply_project_update(advisory, same.clone(), ts(13)).project.testing_policy, TestingPolicy::Advisory);
    let off = Project { testing_policy: TestingPolicy::Off, ..plan.project };
    assert_eq!(apply_project_update(off, same, ts(13)).project.testing_policy, TestingPolicy::Off);
}

#[test]
fn match_directory_picks_longest() {
    let dirs = vec![
        "/home/u".to_string(),
        "/home/u/proj".to_string(),
        "/home/u/projects".to_string(),
    ];
    assert_eq!(match_directory("/home/u/proj/src/main.rs", &dirs), Some(1));
    assert_eq!(match_directory("/home/u/projects", &dirs), Some(2));
    assert_eq!(match_directory("/home/u/other", &dirs), Some(0));
    assert_eq!(match_directory("/home/user", &dirs), None);
    assert_eq!(match_directory("/opt", &dirs), None);
}
