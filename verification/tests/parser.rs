use manifest_core::github::parser::{parse_issue_body, render_issue_body};
use manifest_core::models::ids::FeatureId;

const SAMPLE_BODY: &str = "<!-- manifest:feature -->
<!-- manifest:id:550e8400-e29b-41d4-a716-446655440000 -->

As a user, I can log in via GitHub OAuth so that I don't need a separate password.

---

- [x] GitHub OAuth button on login page
- [x] Callback handler exchanges code for token
- [ ] Auto-create account on first OAuth login

<details>
<summary>Desired state</summary>

Full OAuth 2.0 PKCE flow with automatic account provisioning,
refresh token rotation, and session management.

</details>";

#[test]
fn parse_detects_manifest_issue() {
    let meta = parse_issue_body(SAMPLE_BODY);
    assert!(meta.is_manifest_issue);
}

#[test]
fn parse_extracts_manifest_id() {
    let meta = parse_issue_body(SAMPLE_BODY);
    let id = meta.manifest_id.unwrap();
    assert_eq!(id.to_string(), "550e8400-e29b-41d4-a716-446655440000");
}

#[test]
fn parse_extracts_desired_details() {
    let meta = parse_issue_body(SAMPLE_BODY);
    let desired = meta.desired_details.unwrap();
    assert!(desired.contains("Full OAuth 2.0 PKCE flow"));
    assert!(desired.contains("session management"));
}

#[test]
fn parse_extracts_details_without_metadata_or_desired() {
    let meta = parse_issue_body(SAMPLE_BODY);
    let details = meta.details.unwrap();
    assert!(details.contains("As a user, I can log in"));
    assert!(details.contains("Auto-create account"));
    assert!(!details.contains("manifest:feature"));
    assert!(!details.contains("manifest:id"));
    assert!(!details.contains("<details>"));
    assert!(!details.contains("Full OAuth 2.0 PKCE flow"));
}

#[test]
fn parse_extracts_summary() {
    let meta = parse_issue_body(SAMPLE_BODY);
    let summary = meta.details_summary.unwrap();
    assert!(summary.contains("As a user, I can log in"));
    assert!(!summary.contains("GitHub OAuth button"));
}

#[test]
fn parse_handles_empty_body() {
    let meta = parse_issue_body("");
    assert!(!meta.is_manifest_issue);
    assert!(meta.manifest_id.is_none());
    assert!(meta.details.is_none());
    assert!(meta.desired_details.is_none());
    assert!(meta.details_summary.is_none());
}

#[test]
fn parse_handles_body_without_metadata() {
    let body = "This is a regular GitHub issue.\n\nNothing special here.";
    let meta = parse_issue_body(body);
    assert!(!meta.is_manifest_issue);
    assert!(meta.manifest_id.is_none());
    assert_eq!(meta.details.as_deref(), Some(body));
}

#[test]
fn parse_handles_body_without_desired_details() {
    let body = "<!-- manifest:feature -->\n<!-- manifest:id:550e8400-e29b-41d4-a716-446655440000 -->\n\nSome details here.";
    let meta = parse_issue_body(body);
    assert!(meta.is_manifest_issue);
    assert!(meta.desired_details.is_none());
    assert_eq!(meta.details.as_deref(), Some("Some details here."));
}

#[test]
fn render_and_parse_roundtrip() {
    let id = FeatureId::parse_str("550e8400-e29b-41d4-a716-446655440000").unwrap();
    let details = "As a user, I can do things.\n\n---\n\n- [ ] Criterion 1";
    let desired = "Improved version of things.";

    let rendered = render_issue_body(&id, Some(details), Some(desired));
    let parsed = parse_issue_body(&rendered);

    assert!(parsed.is_manifest_issue);
    assert_eq!(parsed.manifest_id.unwrap(), id);
    assert!(parsed.details.unwrap().contains("As a user, I can do things"));
    assert!(parsed.desired_details.unwrap().contains("Improved version"));
}

#[test]
fn render_without_desired_details() {
    let id = FeatureId::parse_str("550e8400-e29b-41d4-a716-446655440000").unwrap();
    let rendered = render_issue_body(&id, Some("Just details"), None);
    assert!(!rendered.contains("<details>"));
    assert!(rendered.contains("Just details"));
}

#[test]
fn render_writes_exact_layout() {
    let id = FeatureId::parse_str("550e8400-e29b-41d4-a716-446655440000").unwrap();
    let rendered = render_issue_body(&id, Some("D"), Some("X"));
    assert_eq!(
        rendered,
        "<!-- manifest:feature -->\n<!-- manifest:id:550e8400-e29b-41d4-a716-446655440000 -->\n\nD\n\n<details>\n<summary>Desired state</summary>\n\nX\n\n</details>\n"
    );
    let bare = render_issue_body(&id, None, None);
    assert_eq!(
        bare,
        "<!-- manifest:feature -->\n<!-- manifest:id:550e8400-e29b-41d4-a716-446655440000 -->\n\n"
    );
}

#[test]
fn parse_round_trips_details_and_summary() {
    let id = FeatureId::parse_str("660e8400-e29b-41d4-a716-446655440000").unwrap();
    let rendered = render_issue_body(&id, Some("Summary line\n---\nRest"), Some("Wanted"));
    let parsed = parse_issue_body(&rendered);
    assert_eq!(parsed.manifest_id, Some(id));
    assert_eq!(parsed.details.as_deref(), Some("Summary line\n---\nRest"));
    assert_eq!(parsed.details_summary.as_deref(), Some("Summary line"));
    assert_eq!(parsed.desired_details.as_deref(), Some("Wanted"));
}

#[test]
fn parse_ignores_blank_desired_block_and_bad_id() {
    let body = "<!-- manifest:id:not-a-uuid -->\nText\n<DETAILS><summary>desired STATE</summary>   </details>";
    let meta = parse_issue_body(body);
    assert!(!meta.is_manifest_issue);
    assert!(meta.manifest_id.is_none());
    assert!(meta.desired_details.is_none());
    assert_eq!(meta.details.as_deref(), Some("Text"));
}

#[test]
fn render_parse_gives_back_trimmed_texts() {
    let id = FeatureId::parse_str("550e8400-e29b-41d4-a716-446655440000").unwrap();
    let details = "  As a user, I can do things.\n\n---\n\n- [ ] Criterion 1\n";
    let desired = "\n  Improved version\nof things.  ";
    let parsed = parse_issue_body(&render_issue_body(&id, Some(details), Some(desired)));
    assert_eq!(parsed.manifest_id, Some(id));
    assert_eq!(parsed.details.as_deref(), Some("As a user, I can do things.\n\n---\n\n- [ ] Criterion 1"));
    assert_eq!(parsed.desired_details.as_deref(), Some("Improved version\nof things."));
    assert_eq!(parsed.details_summary.as_deref(), Some("As a user, I can do things."));
    let alone = parse_issue_body(&render_issue_body(&id, Some(" only this "), None));
    assert_eq!(alone.details.as_deref(), Some("only this"));
    assert!(alone.desired_details.is_none());
}

#[test]
fn metadata_line_in_details_is_not_given_back() {
    // A details line that looks like a metadata comment is dropped on parsing.
    let id = FeatureId::parse_str("550e8400-e29b-41d4-a716-446655440000").unwrap();
    let parsed = parse_issue_body(&render_issue_body(&id, Some("a\n<!-- manifest:x -->\nb"), None));
    assert_eq!(parsed.details.as_deref(), Some("a\nb"));
}

#[test]
fn metadata_prefix_inside_a_line_round_trips() {
    let id = FeatureId::parse_str("550e8400-e29b-41d4-a716-446655440000").unwrap();
    let details = "See <!-- manifest:x --> inline\n  <!-- manifest: not closed";
    let desired = "keep <!-- manifest:y --> here";
    let parsed = parse_issue_body(&render_issue_body(&id, Some(details), Some(desired)));
    assert_eq!(parsed.manifest_id, Some(id));
    assert_eq!(parsed.details.as_deref(), Some(details));
    assert_eq!(parsed.desired_details.as_deref(), Some(desired));
}
