use manifest_core::github::labels::{
    is_feature_set, is_manifest_label, label_to_state, manifest_labels, state_from_labels,
    state_to_label,
};
use manifest_core::models::feature::FeatureState;

#[test]
fn label_to_state_maps_all_states() {
    assert_eq!(label_to_state("manifest:proposed"), Some(FeatureState::Proposed));
    assert_eq!(label_to_state("manifest:in_progress"), Some(FeatureState::InProgress));
    assert_eq!(label_to_state("manifest:implemented"), Some(FeatureState::Implemented));
    assert_eq!(label_to_state("manifest:archived"), Some(FeatureState::Archived));
}

#[test]
fn label_to_state_returns_none_for_non_state() {
    assert_eq!(label_to_state("manifest:feature_set"), None);
    assert_eq!(label_to_state("bug"), None);
    assert_eq!(label_to_state(""), None);
}

#[test]
fn state_to_label_roundtrips() {
    for state in [
        FeatureState::Proposed,
        FeatureState::InProgress,
        FeatureState::Implemented,
        FeatureState::Archived,
    ] {
        let label = state_to_label(state);
        assert_eq!(label_to_state(label), Some(state));
    }
}

#[test]
fn blocked_maps_to_proposed_label() {
    assert_eq!(state_to_label(FeatureState::Blocked), "manifest:proposed");
}

#[test]
fn state_from_labels_picks_first() {
    let labels = vec!["manifest:in_progress".to_string(), "bug".to_string()];
    assert_eq!(state_from_labels(&labels), Some(FeatureState::InProgress));
}

#[test]
fn state_from_labels_returns_none_when_no_state() {
    let labels = vec!["bug".to_string(), "manifest:feature_set".to_string()];
    assert_eq!(state_from_labels(&labels), None);
}

#[test]
fn is_manifest_label_checks_prefix() {
    assert!(is_manifest_label("manifest:proposed"));
    assert!(is_manifest_label("manifest:feature_set"));
    assert!(!is_manifest_label("bug"));
}

#[test]
fn is_feature_set_detects_label() {
    let labels = vec!["manifest:proposed".to_string(), "manifest:feature_set".to_string()];
    assert!(is_feature_set(&labels));

    let labels = vec!["manifest:proposed".to_string()];
    assert!(!is_feature_set(&labels));
}

#[test]
fn manifest_labels_has_expected_count() {
    assert_eq!(manifest_labels().len(), 5);
}

#[test]
fn state_from_labels_skips_unknown_manifest_labels() {
    let labels = vec![
        "manifest:feature_set".to_string(),
        "manifest:implemented".to_string(),
        "manifest:proposed".to_string(),
    ];
    assert_eq!(state_from_labels(&labels), Some(FeatureState::Implemented));
    assert_eq!(state_from_labels(&[]), None);
}
