//! Features: the living descriptions of system capabilities.

use vstd::prelude::*;
use crate::text::clone_opt;
use crate::text::str_eq;
use crate::time::Timestamp;
use super::ids::{FeatureId, ProjectId, VersionId};

verus! {

/// A text that names no variant of the enum it was parsed as.
#[derive(Debug, Clone, PartialEq, Eq)]
pub struct ParseEnumError(pub String);

/// The lifecycle state of a feature.
///
/// - `Proposed`: initial idea, in backlog
/// - `Blocked`: waiting on other features
/// - `InProgress`: actively being worked on
/// - `Implemented`: built and deployed (the "living" phase)
/// - `Archived`: soft-deleted, kept for historical reference
#[derive(Debug, Clone, Copy, PartialEq, Eq, Hash, Structural)]
pub enum FeatureState {
    Proposed,
    Blocked,
    InProgress,
    Implemented,
    Archived,
}

impl FeatureState {
    /// The text that names the state in storage and on the wire.
    pub open spec fn text(self) -> Seq<char> {
        match self {
            FeatureState::Proposed => "proposed"@,
            FeatureState::Blocked => "blocked"@,
            FeatureState::InProgress => "in_progress"@,
            FeatureState::Implemented => "implemented"@,
            FeatureState::Archived => "archived"@,
        }
    }

    /// The state that a text names, if any.
    pub open spec fn from_text(s: Seq<char>) -> Option<FeatureState> {
        if s == "proposed"@ {
            Some(FeatureState::Proposed)
        } else if s == "blocked"@ {
            Some(FeatureState::Blocked)
        } else if s == "in_progress"@ {
            Some(FeatureState::InProgress)
        } else if s == "implemented"@ {
            Some(FeatureState::Implemented)
        } else if s == "archived"@ {
            Some(FeatureState::Archived)
        } else {
            None
        }
    }

    pub fn as_str(&self) -> (r: &'static str)
        ensures
            r@ == self.text(),
    {
        match self {
            FeatureState::Proposed => "proposed",
            FeatureState::Blocked => "blocked",
            FeatureState::InProgress => "in_progress",
            FeatureState::Implemented => "implemented",
            FeatureState::Archived => "archived",
        }
    }

    /// Parses a state from its text; any other text is an error carrying it.
    pub fn from_str(s: &str) -> (r: Result<FeatureState, ParseEnumError>)
        ensures
            match r {
                Ok(st) => FeatureState::from_text(s@) == Some(st),
                Err(e) => FeatureState::from_text(s@) is None && e.0@ == s@,
            },
    {
        if str_eq(s, "proposed") {
            Ok(FeatureState::Proposed)
        } else if str_eq(s, "blocked") {
            Ok(FeatureState::Blocked)
        } else if str_eq(s, "in_progress") {
            Ok(FeatureState::InProgress)
        } else if str_eq(s, "implemented") {
            Ok(FeatureState::Implemented)
        } else if str_eq(s, "archived") {
            Ok(FeatureState::Archived)
        } else {
            Err(ParseEnumError(s.to_string()))
        }
    }
}

/// Parsing the text of a state gives the state back, and only a state's own
/// text parses to it.
pub proof fn lemma_feature_state_text_roundtrip(st: FeatureState, s: Seq<char>)
    ensures
        FeatureState::from_text(st.text()) == Some(st),
        FeatureState::from_text(s) == Some(st) ==> s == st.text(),
{
    reveal_strlit("proposed");
    reveal_strlit("blocked");
    reveal_strlit("in_progress");
    reveal_strlit("implemented");
    reveal_strlit("archived");
    assert("proposed"@.len() == 8 && "blocked"@.len() == 7 && "in_progress"@.len() == 11
        && "implemented"@.len() == 11 && "archived"@.len() == 8);
    assert("proposed"@[0] != "archived"@[0]);
    assert("in_progress"@[1] != "implemented"@[1]);
}

} // verus!

verus! {

/// A living description of a system capability.
///
/// Features form a tree through `parent_id`; any node can hold content, but only
/// leaf nodes carry a mutable state.
#[derive(Debug, Clone)]
pub struct Feature {
    pub id: FeatureId,
    pub project_id: ProjectId,
    pub parent_id: Option<FeatureId>,
    pub title: String,
    /// User stories, implementation notes and technical context.
    pub details: Option<String>,
    /// Pending edits awaiting implementation.
    pub desired_details: Option<String>,
    /// Short summary of the details.
    pub details_summary: Option<String>,
    pub state: FeatureState,
    /// Ordering within a parent; lower values first.
    pub priority: i32,
    /// Sequential number within the project, for display identifiers.
    pub feature_number: Option<i32>,
    /// Target version for release planning.
    pub target_version_id: Option<VersionId>,
    /// Stored verification comments, as JSON text.
    pub verification_result: Option<String>,
    pub verified_at: Option<Timestamp>,
    /// The agent that claimed the feature.
    pub claimed_by: Option<String>,
    pub claimed_at: Option<Timestamp>,
    pub claim_metadata: Option<String>,
    pub created_at: Timestamp,
    pub updated_at: Timestamp,
}

impl Feature {
    /// A field-by-field copy.
    pub fn duplicate(&self) -> (r: Feature)
        ensures
            r == *self,
    {
        Feature {
            id: self.id,
            project_id: self.project_id,
            parent_id: self.parent_id,
            title: self.title.clone(),
            details: clone_opt(&self.details),
            desired_details: clone_opt(&self.desired_details),
            details_summary: clone_opt(&self.details_summary),
            state: self.state,
            priority: self.priority,
            feature_number: self.feature_number,
            target_version_id: self.target_version_id,
            verification_result: clone_opt(&self.verification_result),
            verified_at: self.verified_at,
            claimed_by: clone_opt(&self.claimed_by),
            claimed_at: self.claimed_at,
            claim_metadata: clone_opt(&self.claim_metadata),
            created_at: self.created_at,
            updated_at: self.updated_at,
        }
    }
}

/// Input for creating a new feature.
#[derive(Debug, Clone)]
pub struct CreateFeatureInput {
    /// Pre-generated feature identifier; a fresh one is used if absent.
    pub id: Option<FeatureId>,
    /// Parent feature; `None` places the feature under the project's root feature.
    pub parent_id: Option<FeatureId>,
    pub title: String,
    pub details: Option<String>,
    /// Initial state; `Proposed` if absent.
    pub state: Option<FeatureState>,
    /// Priority within the parent; 0 if absent.
    pub priority: Option<i32>,
    pub target_version_id: Option<VersionId>,
}

/// Input for updating a feature; every field is optional.
#[derive(Debug, Clone)]
pub struct UpdateFeatureInput {
    /// `None`: leave unchanged; `Some(None)`: detach from the parent (make the
    /// feature top-level); `Some(Some(p))`: move under `p`.
    pub parent_id: Option<Option<FeatureId>>,
    pub title: Option<String>,
    pub details: Option<String>,
    /// `None`: leave unchanged; `Some(None)`: clear; `Some(Some(v))`: set.
    pub desired_details: Option<Option<String>>,
    /// `None`: leave unchanged; `Some(None)`: clear; `Some(Some(v))`: set.
    pub details_summary: Option<Option<String>>,
    pub state: Option<FeatureState>,
    pub priority: Option<i32>,
    /// `None`: leave unchanged; `Some(None)`: clear; `Some(Some(v))`: set.
    pub target_version_id: Option<Option<VersionId>>,
    /// The blocking features, required when moving to `Blocked`.
    pub blocked_by: Option<Vec<FeatureId>>,
}

/// Difference between current and desired feature details.
#[derive(Debug, Clone)]
pub struct FeatureDiff {
    /// Whether `desired` is present and differs from `current`.
    pub has_changes: bool,
    pub current: Option<String>,
    pub desired: Option<String>,
}

/// A feature without its long-form text, for list operations.
#[derive(Debug, Clone)]
pub struct FeatureSummary {
    pub id: FeatureId,
    pub project_id: ProjectId,
    pub parent_id: Option<FeatureId>,
    pub title: String,
    pub state: FeatureState,
    pub priority: i32,
    pub feature_number: Option<i32>,
    pub target_version_id: Option<VersionId>,
}

impl FeatureSummary {
    /// The summary of a feature.
    pub fn from_feature(f: Feature) -> (r: FeatureSummary)
        ensures
            r.id == f.id,
            r.project_id == f.project_id,
            r.parent_id == f.parent_id,
            r.title == f.title,
            r.state == f.state,
            r.priority == f.priority,
            r.feature_number == f.feature_number,
            r.target_version_id == f.target_version_id,
    {
        FeatureSummary {
            id: f.id,
            project_id: f.project_id,
            parent_id: f.parent_id,
            title: f.title,
            state: f.state,
            priority: f.priority,
            feature_number: f.feature_number,
            target_version_id: f.target_version_id,
        }
    }
}

/// Query parameters for listing features.
#[derive(Debug, Clone)]
pub struct ListFeaturesQuery {
    pub project_id: Option<ProjectId>,
    pub limit: Option<u32>,
    pub offset: Option<u32>,
}

/// A feature's identifier, title and state, for navigation context.
#[derive(Debug, Clone)]
pub struct FeatureSummaryContext {
    pub id: FeatureId,
    pub title: String,
    pub state: FeatureState,
}

/// A step of the path from the root to a feature.
#[derive(Debug, Clone)]
pub struct BreadcrumbItem {
    pub id: FeatureId,
    pub title: String,
    /// Context from this ancestor.
    pub details: Option<String>,
}

/// A feature with its parent, siblings, children and breadcrumb.
#[derive(Debug, Clone)]
pub struct FeatureWithContext {
    pub feature: Feature,
    pub parent: Option<FeatureSummaryContext>,
    pub siblings: Vec<FeatureSummaryContext>,
    pub children: Vec<FeatureSummaryContext>,
    pub breadcrumb: Vec<BreadcrumbItem>,
}

} // verus!
