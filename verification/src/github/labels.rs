//! Maps between feature states and GitHub labels.
//!
//! Labels carry a `manifest:` prefix so they do not collide with user labels.
//! Each feature issue carries one state label.

use vstd::prelude::*;
use crate::models::feature::FeatureState;
use crate::text::{chars_of, starts_with, starts_with_exec, str_eq};

verus! {

/// A label to create on the GitHub repository.
#[derive(Debug, Clone)]
pub struct LabelDef {
    pub name: &'static str,
    pub color: &'static str,
    pub description: &'static str,
}

/// All labels that Manifest manages on a repository: the four state labels
/// and `manifest:feature_set`.
pub fn manifest_labels() -> (r: [LabelDef; 5])
    ensures
        r[0].name@ == "manifest:proposed"@,
        r[1].name@ == "manifest:in_progress"@,
        r[2].name@ == "manifest:implemented"@,
        r[3].name@ == "manifest:archived"@,
        r[4].name@ == "manifest:feature_set"@,
{
    [
        LabelDef { name: "manifest:proposed", color: "E8D44D", description: "Manifest: proposed feature" },
        LabelDef {
            name: "manifest:in_progress",
            color: "1D76DB",
            description: "Manifest: feature in progress",
        },
        LabelDef {
            name: "manifest:implemented",
            color: "0E8A16",
            description: "Manifest: implemented feature",
        },
        LabelDef { name: "manifest:archived", color: "6A737D", description: "Manifest: archived feature" },
        LabelDef {
            name: "manifest:feature_set",
            color: "D4C5F9",
            description: "Manifest: parent feature with sub-features",
        },
    ]
}

/// The state that a label names; `None` for every other label.
pub open spec fn label_state(label: Seq<char>) -> Option<FeatureState> {
    if label == "manifest:proposed"@ {
        Some(FeatureState::Proposed)
    } else if label == "manifest:in_progress"@ {
        Some(FeatureState::InProgress)
    } else if label == "manifest:implemented"@ {
        Some(FeatureState::Implemented)
    } else if label == "manifest:archived"@ {
        Some(FeatureState::Archived)
    } else {
        None
    }
}

/// The label that renders a state; `Blocked` renders as proposed.
pub open spec fn state_label(state: FeatureState) -> Seq<char> {
    match state {
        FeatureState::Proposed => "manifest:proposed"@,
        FeatureState::Blocked => "manifest:proposed"@,
        FeatureState::InProgress => "manifest:in_progress"@,
        FeatureState::Implemented => "manifest:implemented"@,
        FeatureState::Archived => "manifest:archived"@,
    }
}

/// The state named by the first label, in order, that names one.
pub open spec fn first_label_state(labels: Seq<String>) -> Option<FeatureState>
    decreases labels.len(),
{
    if labels.len() == 0 {
        None
    } else {
        match label_state(labels[0]@) {
            Some(st) => Some(st),
            None => first_label_state(labels.drop_first()),
        }
    }
}

/// Converts a GitHub label name to a feature state; labels that name no state
/// (such as `manifest:feature_set` or user labels) give `None`.
pub fn label_to_state(label: &str) -> (r: Option<FeatureState>)
    ensures
        r == label_state(label@),
{
    if str_eq(label, "manifest:proposed") {
        Some(FeatureState::Proposed)
    } else if str_eq(label, "manifest:in_progress") {
        Some(FeatureState::InProgress)
    } else if str_eq(label, "manifest:implemented") {
        Some(FeatureState::Implemented)
    } else if str_eq(label, "manifest:archived") {
        Some(FeatureState::Archived)
    } else {
        None
    }
}

/// Converts a feature state to the name of its GitHub label.
pub fn state_to_label(state: FeatureState) -> (r: &'static str)
    ensures
        r@ == state_label(state),
{
    match state {
        FeatureState::Proposed => "manifest:proposed",
        FeatureState::Blocked => "manifest:proposed",
        FeatureState::InProgress => "manifest:in_progress",
        FeatureState::Implemented => "manifest:implemented",
        FeatureState::Archived => "manifest:archived",
    }
}

/// Whether a label is managed by Manifest (carries the `manifest:` prefix).
pub fn is_manifest_label(label: &str) -> (r: bool)
    ensures
        r == starts_with(label@, "manifest:"@),
{
    let l = chars_of(label);
    let p = chars_of("manifest:");
    starts_with_exec(&l, &p)
}

/// The state of the first label that names one, or `None` if no label does.
pub fn state_from_labels(labels: &[String]) -> (r: Option<FeatureState>)
    ensures
        r == first_label_state(labels@),
{
    let mut i: usize = 0;
    assert(labels@.skip(0) =~= labels@);
    while i < labels.len()
        invariant
            i <= labels@.len(),
            first_label_state(labels@) == first_label_state(labels@.skip(i as int)),
        decreases labels@.len() - i,
    {
        assert(labels@.skip(i as int).drop_first() =~= labels@.skip(i as int + 1));
        let st = label_to_state(labels[i].as_str());
        if st.is_some() {
            return st;
        }
        i = i + 1;
    }
    None
}

/// Whether the labels include `manifest:feature_set`.
pub fn is_feature_set(labels: &[String]) -> (r: bool)
    ensures
        r == exists|i: int| 0 <= i < labels@.len() && labels@[i]@ == "manifest:feature_set"@,
{
    let mut i: usize = 0;
    while i < labels.len()
        invariant
            i <= labels@.len(),
            forall|j: int| 0 <= j < i ==> labels@[j]@ != "manifest:feature_set"@,
        decreases labels@.len() - i,
    {
        if str_eq(labels[i].as_str(), "manifest:feature_set") {
            return true;
        }
        i = i + 1;
    }
    false
}

/// Every state's label is read back as that state, except `Blocked`, whose
/// label is read back as `Proposed`.
pub proof fn lemma_state_label_roundtrip(state: FeatureState)
    ensures
        state != FeatureState::Blocked ==> label_state(state_label(state)) == Some(state),
        state == FeatureState::Blocked ==> label_state(state_label(state)) == Some(FeatureState::Proposed),
{
    reveal_strlit("manifest:proposed");
    reveal_strlit("manifest:in_progress");
    reveal_strlit("manifest:implemented");
    reveal_strlit("manifest:archived");
    assert("manifest:proposed"@.len() == 17);
    assert("manifest:in_progress"@.len() == 20);
    assert("manifest:implemented"@.len() == 20);
    assert("manifest:archived"@.len() == 17);
    assert("manifest:proposed"@[9] != "manifest:archived"@[9]);
    assert("manifest:in_progress"@[10] != "manifest:implemented"@[10]);
}

/// Every label that names a state is a Manifest label.
pub proof fn lemma_state_labels_are_manifest_labels(label: Seq<char>)
    ensures
        label_state(label) is Some ==> starts_with(label, "manifest:"@),
{
    reveal_strlit("manifest:");
    reveal_strlit("manifest:proposed");
    reveal_strlit("manifest:in_progress");
    reveal_strlit("manifest:implemented");
    reveal_strlit("manifest:archived");
    if label_state(label) is Some {
        assert(label.subrange(0, 9) =~= "manifest:"@);
    }
}

} // verus!
