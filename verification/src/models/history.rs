//! Feature history: the append-only log of work done on features.

use vstd::prelude::*;
use crate::time::Timestamp;
use super::feature::FeatureState;
use super::ids::{FeatureId, HistoryId, VersionId};

verus! {

/// A reference to a git commit.
#[derive(Debug, Clone)]
pub struct CommitRef {
    /// The commit SHA (short or full).
    pub sha: String,
    /// The first line of the commit message.
    pub message: String,
    pub author: Option<String>,
}

/// Structured details of the work recorded in a history entry.
#[derive(Debug, Clone)]
pub struct HistoryDetails {
    pub summary: String,
    pub commits: Vec<CommitRef>,
}

/// An entry of the log of work done on a feature.
#[derive(Debug, Clone)]
pub struct FeatureHistory {
    pub id: HistoryId,
    pub feature_id: FeatureId,
    /// The version the work was done for.
    pub version_id: Option<VersionId>,
    pub details: HistoryDetails,
    pub created_at: Timestamp,
}

/// Input for creating a history entry.
#[derive(Debug, Clone)]
pub struct CreateHistoryInput {
    pub feature_id: FeatureId,
    /// The version; the feature's target version if absent.
    pub version_id: Option<VersionId>,
    pub details: HistoryDetails,
}

/// A project-wide history entry with its feature's context.
#[derive(Debug, Clone)]
pub struct ProjectHistoryEntry {
    pub id: HistoryId,
    pub feature_id: FeatureId,
    pub feature_title: String,
    pub feature_state: FeatureState,
    pub version_id: Option<VersionId>,
    pub version_name: Option<String>,
    pub summary: String,
    pub commits: Vec<CommitRef>,
    pub created_at: Timestamp,
}

} // verus!
