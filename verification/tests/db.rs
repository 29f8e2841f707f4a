use manifest_core::db::escape_like_pattern;
use manifest_core::db::helpers::{
    append_pagination, compute_next_version_name, derive_key_prefix, is_valid_semver, slugify,
};
use manifest_core::db::memories::{
    is_short_query, like_memory_pattern, memory_search_mode, sanitize_fts_query, MemorySearch,
};
use manifest_core::db::versions::{
    apply_version_update, check_version_assignable, plan_create_version,
    plan_minimum_version_names, unreleased_count,
};
use manifest_core::db::{FeatureEvent, ManifestError};
use manifest_core::models::ids::{FeatureId, ProjectId, VersionId};
use manifest_core::models::version::{CreateVersionInput, UpdateVersionInput, Version};
use manifest_core::time::Timestamp;

fn ts(secs: i64) -> Timestamp {
    Timestamp { secs, nanos: 0 }
}

fn version(name: &str, released: bool) -> Version {
    Version {
        id: VersionId::from_u128(7),
        project_id: ProjectId::from_u128(1),
        name: name.to_string(),
        description: None,
        released_at: if released { Some(ts(5)) } else { None },
        created_at: ts(1),
        updated_at: ts(1),
    }
}

#[test]
fn escape_like_pattern_leaves_plain_text() {
    assert_eq!(escape_like_pattern("hello"), "hello");
}

#[test]
fn escape_like_pattern_escapes_wildcards() {
    assert_eq!(escape_like_pattern("hello%world"), "hello\\%world");
    assert_eq!(escape_like_pattern("hello_world"), "hello\\_world");
    assert_eq!(escape_like_pattern("50% off"), "50\\% off");
}

#[test]
fn escape_like_pattern_escapes_backslash() {
    assert_eq!(escape_like_pattern("a\\b"), "a\\\\b");
}

#[test]
fn escape_like_pattern_escapes_each_in_turn() {
    assert_eq!(escape_like_pattern("\\%_"), "\\\\\\%\\_");
}

#[test]
fn slugify_examples() {
    assert_eq!(slugify("Hello, World!"), "hello-world");
    assert_eq!(slugify("  Manifest  Core 2 "), "manifest-core-2");
    assert_eq!(slugify("---"), "");
    assert_eq!(slugify("Émile Zola"), "mile-zola");
}

#[test]
fn derive_key_prefix_examples() {
    assert_eq!(derive_key_prefix("manifest-core"), "MANIF");
    assert_eq!(derive_key_prefix("abc"), "ABC");
    assert_eq!(derive_key_prefix("123-app"), "PRJ");
    assert_eq!(derive_key_prefix(""), "PRJ");
    assert_eq!(derive_key_prefix("a1b2c3d4e5f6"), "ABCDE");
}

#[test]
fn semver_validation() {
    assert!(is_valid_semver("0.1.0"));
    assert!(is_valid_semver("v1.2.3"));
    assert!(is_valid_semver("+1.2.3"));
    assert!(is_valid_semver("01.002.0"));
    assert!(!is_valid_semver("1.2"));
    assert!(!is_valid_semver("1.2.3.4"));
    assert!(!is_valid_semver("1..3"));
    assert!(!is_valid_semver("vv1.2.3"));
    assert!(!is_valid_semver("1.2.x"));
    assert!(!is_valid_semver("1.2.4294967296"));
    assert!(is_valid_semver("1.2.4294967295"));
}

#[test]
fn next_version_name_increments_highest_minor() {
    assert_eq!(compute_next_version_name(&[]), "0.1.0");
    let vs = vec![version("0.1.0", true), version("v1.4.2", false), version("1.3.9", false), version("junk", false)];
    assert_eq!(compute_next_version_name(&vs), "1.5.0");
    assert!(is_valid_semver(&compute_next_version_name(&vs)));
    let only_bad = vec![version("release", false)];
    assert_eq!(compute_next_version_name(&only_bad), "0.1.0");
}

#[test]
fn pagination_clauses() {
    let mut sql = String::from("SELECT 1");
    assert_eq!(append_pagination(&mut sql, Some(10), Some(5), 3), 5);
    assert_eq!(sql, "SELECT 1 LIMIT ?3 OFFSET ?4");
    let mut sql = String::new();
    assert_eq!(append_pagination(&mut sql, Some(10), None, 1), 2);
    assert_eq!(sql, " LIMIT ?1");
    let mut sql = String::new();
    assert_eq!(append_pagination(&mut sql, None, Some(2), 7), 8);
    assert_eq!(sql, " LIMIT -1 OFFSET ?7");
    let mut sql = String::from("x");
    assert_eq!(append_pagination(&mut sql, None, None, 4), 4);
    assert_eq!(sql, "x");
}

#[test]
fn memory_queries() {
    assert!(is_short_query("  ab  "));
    assert!(!is_short_query("abc"));
    assert!(!is_short_query("éé"));
    assert!(is_short_query("é"));
    assert_eq!(sanitize_fts_query(" say \"hi\" "), "\"say  hi\"");
    assert_eq!(like_memory_pattern("50%_x"), "%50\\%\\_x%");
    assert!(matches!(memory_search_mode(None, true), MemorySearch::All));
    match memory_search_mode(Some("auth flow"), true) {
        MemorySearch::FullText { phrase, fallback_pattern } => {
            assert_eq!(phrase, "\"auth flow\"");
            assert_eq!(fallback_pattern, "%auth flow%");
        }
        _ => panic!("expected full-text search"),
    }
    match memory_search_mode(Some("auth flow"), false) {
        MemorySearch::Like(p) => assert_eq!(p, "%auth flow%"),
        _ => panic!("expected LIKE search"),
    }
    assert!(matches!(memory_search_mode(Some("ab"), true), MemorySearch::Like(_)));
}

#[test]
fn manifest_errors_and_events() {
    match ManifestError::not_found("Project") {
        ManifestError::NotFound(m) => assert_eq!(m, "Project not found"),
        _ => panic!("wrong variant"),
    }
    assert!(matches!(ManifestError::validation("bad"), ManifestError::Validation(m) if m == "bad"));
    assert!(matches!(ManifestError::invalid_state("no"), ManifestError::InvalidState(m) if m == "no"));
    let p = ProjectId::from_u128(42);
    let ev = FeatureEvent::Completed {
        project_id: p,
        feature_id: FeatureId::from_u128(1),
        feature_title: "t".to_string(),
        project_name: "n".to_string(),
        agent_type: None,
    };
    assert_eq!(ev.project_id(), p);
    assert_eq!(FeatureEvent::Deleted { project_id: p }.project_id(), p);
}

#[test]
fn version_creation_rules() {
    let pid = ProjectId::from_u128(1);
    let fresh = VersionId::from_u128(9);
    let input = |name: &str| CreateVersionInput { id: None, name: name.to_string(), description: None };
    match plan_create_version(pid, input("1.0"), true, 0, fresh, ts(3)) {
        Err(ManifestError::Validation(m)) => assert!(m.starts_with("'1.0' is not a valid semantic version.")),
        _ => panic!("expected a validation error"),
    }
    assert!(matches!(plan_create_version(pid, input("1.0.0"), false, 0, fresh, ts(3)), Err(ManifestError::NotFound(m)) if m == "Project not found"));
    match plan_create_version(pid, input("1.0.0"), true, 6, fresh, ts(3)) {
        Err(ManifestError::Validation(m)) => assert_eq!(m, "Project already has 6 unreleased versions (max 6). Release or delete existing versions before creating new ones."),
        _ => panic!("expected the cap"),
    }
    let v = plan_create_version(pid, input("v2.0.0"), true, 5, fresh, ts(3)).unwrap();
    assert_eq!(v.id, fresh);
    assert_eq!(v.name, "v2.0.0");
    assert!(v.released_at.is_none());
    assert_eq!(v.created_at, ts(3));
}

#[test]
fn minimum_versions_fill_up() {
    let vs = vec![version("0.1.0", true), version("0.2.0", false)];
    assert_eq!(unreleased_count(&vs), 1);
    let names = plan_minimum_version_names(&vs, 3);
    assert_eq!(names, vec!["0.3.0".to_string(), "0.4.0".to_string()]);
    assert!(plan_minimum_version_names(&vs, 1).is_empty());
    assert_eq!(plan_minimum_version_names(&[], 2), vec!["0.1.0".to_string(), "0.2.0".to_string()]);
}

#[test]
fn version_update_and_assignability() {
    let v = version("1.0.0", false);
    let u = apply_version_update(v, UpdateVersionInput { name: None, description: Some("d".into()), released_at: Some(ts(9)) }, ts(10));
    assert_eq!(u.name, "1.0.0");
    assert_eq!(u.description.as_deref(), Some("d"));
    assert_eq!(u.released_at, Some(ts(9)));
    assert_eq!(u.updated_at, ts(10));
    assert!(check_version_assignable(&Some(version("1.0.0", false))).is_ok());
    match check_version_assignable(&Some(version("1.0.0", true))) {
        Err(ManifestError::Validation(m)) => assert_eq!(m, "Cannot assign features to released version '1.0.0'. Use list_versions to find unreleased versions."),
        _ => panic!("expected a validation error"),
    }
    assert!(matches!(check_version_assignable(&None), Err(ManifestError::NotFound(m)) if m == "Version not found"));
}

/// Reads a `LIKE` pattern with escape `\` as literal text; `None` on a
/// wildcard or a dangling escape.
fn like_literal(p: &str) -> Option<String> {
    let mut out = String::new();
    let mut it = p.chars();
    while let Some(c) = it.next() {
        match c {
            '%' | '_' => return None,
            '\\' => out.push(it.next()?),
            other => out.push(other),
        }
    }
    Some(out)
}

#[test]
fn escaped_patterns_read_back_literally() {
    for text in ["plain", "50% off", "a_b", "back\\slash", "\\%_\\", ""] {
        assert_eq!(like_literal(&escape_like_pattern(text)).as_deref(), Some(text));
    }
}

#[test]
fn fts_query_is_one_phrase() {
    let q = sanitize_fts_query("  say \"hi\" now ");
    assert_eq!(q, "\"say  hi  now\"");
    assert!(q[1..q.len() - 1].chars().all(|c| c != '"'));
}

#[test]
fn slugify_twice_is_slugify_once() {
    for name in ["Hello, World!", "  Manifest  Core 2 ", "---", "a--b", "Émile Zola"] {
        let once = slugify(name);
        assert_eq!(slugify(&once), once);
    }
}
